//! Connections and the handlers that run on them.
//!
//! A handler belongs to one connection: it is put on the connection when the
//! connection is established and taken off when the connection is closed.
//! [`Pool`] owns the handlers of the open connections and is the only way to
//! reach them, so a handler cannot be called once its connection is closed,
//! and an identifier, once used, never gets a second handler.

use crate::handler::{ConnectionEvent, ConnectionHandler, ConnectionHandlerEvent, KeepAlive};
use crate::task::Poll;
use std::task::Context;
use vstd::prelude::*;

verus! {

/// The identifier of one physical connection. No two connections share one.
#[derive(Debug, Clone, Copy, PartialEq, Eq, Hash, Structural)]
pub struct ConnectionId(pub usize);

impl ConnectionId {
    /// The identifier with the number `id`.
    pub fn new(id: usize) -> (connection: Self)
        ensures
            connection == ConnectionId(id),
    {
        ConnectionId(id)
    }
}

/// One open connection and its handler.
struct Established<H> {
    id: ConnectionId,
    handler: H,
}

/// The connection `id` with `handler` on it.
spec fn entry<H>(id: ConnectionId, handler: H) -> Established<H> {
    Established { id, handler }
}

/// Whether the connections are listed oldest first and each identifier is
/// below `issued`.
spec fn ordered<H>(entries: Seq<Established<H>>, issued: usize) -> bool {
    &&& forall|i: int| 0 <= i < entries.len() ==> (#[trigger] entries[i]).id.0 < issued
    &&& forall|i: int, j: int|
        0 <= i < j < entries.len() ==> (#[trigger] entries[i]).id.0 < (#[trigger] entries[j]).id.0
}

/// Whether `id` is among the connections listed.
spec fn listed<H>(entries: Seq<Established<H>>, id: ConnectionId) -> bool {
    exists|i: int| 0 <= i < entries.len() && (#[trigger] entries[i]).id == id
}

/// Where `id` stands in the list.
spec fn place<H>(entries: Seq<Established<H>>, id: ConnectionId) -> int {
    choose|i: int| 0 <= i < entries.len() && (#[trigger] entries[i]).id == id
}

/// The handler of each connection listed.
spec fn handlers<H>(entries: Seq<Established<H>>) -> Map<ConnectionId, H> {
    Map::new(
        |id: ConnectionId| listed(entries, id),
        |id: ConnectionId| entries[place(entries, id)].handler,
    )
}

/// In an ordered list a connection stands at one place only, and the map of
/// handlers holds at its identifier what the list holds at that place.
proof fn lemma_place<H>(entries: Seq<Established<H>>, issued: usize, at: int)
    requires
        ordered(entries, issued),
        0 <= at < entries.len(),
    ensures
        listed(entries, entries[at].id),
        place(entries, entries[at].id) == at,
        handlers(entries).dom().contains(entries[at].id),
        handlers(entries)[entries[at].id] == entries[at].handler,
{
    let found = place(entries, entries[at].id);
    if found < at {
        assert(entries[found].id.0 < entries[at].id.0);
    } else if at < found {
        assert(entries[at].id.0 < entries[found].id.0);
    }
}

/// Adding the connection with the next identifier at the end keeps the list
/// ordered and adds that connection to the map of handlers.
proof fn lemma_appended<H>(before: Seq<Established<H>>, issued: usize, handler: H)
    requires
        ordered(before, issued),
        issued < usize::MAX,
    ensures
        !listed(before, ConnectionId(issued)),
        ordered(before.push(entry(ConnectionId(issued), handler)), (issued + 1) as usize),
        handlers(before.push(entry(ConnectionId(issued), handler))) == handlers(before).insert(
            ConnectionId(issued),
            handler,
        ),
{
    let id = ConnectionId(issued);
    let after = before.push(entry(id, handler));
    let later = (issued + 1) as usize;
    assert(after[before.len() as int].id == id);
    assert forall|other: ConnectionId| listed(after, other) == (listed(before, other) || other
        == id) by {
        if listed(after, other) && other != id {
            assert(before[place(after, other)].id == other);
        }
        if listed(before, other) {
            assert(after[place(before, other)].id == other);
        }
    }
    assert forall|other: ConnectionId| #[trigger]
        handlers(after).dom().contains(other) implies handlers(after)[other] == handlers(
        before,
    ).insert(id, handler)[other] by {
        let at = place(after, other);
        lemma_place(after, later, at);
        if at < before.len() {
            lemma_place(before, issued, at);
        }
    }
    assert(handlers(after) =~= handlers(before).insert(id, handler));
}

/// Taking a connection out of an ordered list keeps the list ordered and
/// takes that connection out of the map of handlers.
proof fn lemma_removed<H>(before: Seq<Established<H>>, issued: usize, at: int)
    requires
        ordered(before, issued),
        0 <= at < before.len(),
    ensures
        ordered(before.remove(at), issued),
        handlers(before.remove(at)) == handlers(before).remove(before[at].id),
{
    let id = before[at].id;
    let after = before.remove(at);
    let from = |i: int|
        if i < at {
            i
        } else {
            i + 1
        };
    assert forall|i: int| 0 <= i < after.len() implies #[trigger] after[i] == before[from(i)] by {}
    lemma_place(before, issued, at);
    assert forall|other: ConnectionId| listed(after, other) == (listed(before, other) && other
        != id) by {
        if listed(after, other) {
            let i = place(after, other);
            assert(after[i] == before[from(i)]);
            lemma_place(before, issued, from(i));
        }
        if listed(before, other) && other != id {
            let i = place(before, other);
            let to = if i < at {
                i
            } else {
                i - 1
            };
            assert(after[to] == before[from(to)]);
        }
    }
    assert(ordered(after, issued)) by {
        assert forall|i: int| 0 <= i < after.len() implies (#[trigger] after[i]).id.0 < issued by {
            assert(after[i] == before[from(i)]);
        }
        assert forall|i: int, j: int| 0 <= i < j < after.len() implies
            (#[trigger] after[i]).id.0 < (#[trigger] after[j]).id.0 by {
            assert(after[i] == before[from(i)]);
            assert(after[j] == before[from(j)]);
        }
    }
    assert forall|other: ConnectionId| #[trigger]
        handlers(after).dom().contains(other) implies handlers(after)[other] == handlers(
        before,
    ).remove(id)[other] by {
        let i = place(after, other);
        assert(after[i] == before[from(i)]);
        lemma_place(after, issued, i);
        lemma_place(before, issued, from(i));
    }
    assert(handlers(after) =~= handlers(before).remove(id));
}

/// Putting another handler at one place of an ordered list keeps the list
/// ordered and changes the map of handlers at that connection only.
proof fn lemma_replaced<H>(
    before: Seq<Established<H>>,
    after: Seq<Established<H>>,
    issued: usize,
    at: int,
)
    requires
        ordered(before, issued),
        0 <= at < before.len(),
        after.len() == before.len(),
        after[at].id == before[at].id,
        forall|i: int| 0 <= i < before.len() && i != at ==> after[i] == before[i],
    ensures
        ordered(after, issued),
        handlers(after) == handlers(before).insert(before[at].id, after[at].handler),
{
    assert forall|i: int| 0 <= i < after.len() implies
        (#[trigger] after[i]).id == before[i].id by {}
    assert forall|id: ConnectionId| listed(after, id) == listed(before, id) by {
        if listed(after, id) {
            assert(before[place(after, id)].id == id);
        }
        if listed(before, id) {
            assert(after[place(before, id)].id == id);
        }
    }
    lemma_place(before, issued, at);
    assert forall|id: ConnectionId| #[trigger]
        handlers(after).dom().contains(id) implies handlers(after)[id] == handlers(before).insert(
        before[at].id,
        after[at].handler,
    )[id] by {
        let i = place(after, id);
        lemma_place(after, issued, i);
        lemma_place(before, issued, i);
    }
    assert(handlers(after) =~= handlers(before).insert(before[at].id, after[at].handler));
}

/// The open connections of a node, each with the one handler that runs on
/// it.
///
/// Identifiers are given out in order and never twice. A connection is
/// either open, and then the pool holds its handler, or it has been closed,
/// and then it stays closed: every call that names it finds nothing and
/// changes nothing.
pub struct Pool<H> {
    /// How many identifiers have been given out. The next connection gets
    /// this number.
    issued: usize,
    /// The open connections, oldest first.
    established: Vec<Established<H>>,
}

impl<H> View for Pool<H> {
    type V = Map<ConnectionId, H>;

    /// The open connections and the handler of each.
    closed spec fn view(&self) -> Map<ConnectionId, H> {
        handlers(self.established@)
    }
}

impl<H> Pool<H> {
    /// Whether the pool is in order: every open connection has an
    /// identifier that was given out, and no two share one.
    pub closed spec fn wf(self) -> bool {
        ordered(self.established@, self.issued)
    }

    /// How many identifiers have been given out: the numbers below this one.
    pub closed spec fn issued(self) -> nat {
        self.issued as nat
    }

    /// Whether `id` is an open connection.
    pub open spec fn spec_is_established(&self, id: ConnectionId) -> bool {
        self@.dom().contains(id)
    }

    /// Whether the identifier `id` has been given out and its connection is
    /// no longer open.
    pub open spec fn spec_is_closed(&self, id: ConnectionId) -> bool {
        id.0 < self.issued() && !self.is_established(id)
    }

    /// Whether `later` can come of this pool: no identifier is taken back,
    /// and a connection that is open later either was open before or has
    /// been established since, under a new identifier.
    pub open spec fn evolves_to(self, later: Self) -> bool {
        &&& self.issued() <= later.issued()
        &&& forall|id: ConnectionId| #[trigger]
            later.is_established(id) ==> self.is_established(id) || self.issued() <= id.0
                < later.issued()
    }

    /// Whether the connection is due for closing when the clock shows `now`
    /// and its handler has given `verdict`: it is open, none of its
    /// substreams is in use or being negotiated, and the verdict allows it.
    pub open spec fn expired_at(
        self,
        id: ConnectionId,
        verdict: KeepAlive,
        now: u64,
        substreams: usize,
    ) -> bool {
        &&& self.is_established(id)
        &&& substreams == 0
        &&& verdict.expired_at(now)
    }

    /// A pool without connections. Its first connection gets the identifier
    /// 0.
    pub fn new() -> (pool: Self)
        ensures
            pool.wf(),
            pool@ == Map::<ConnectionId, H>::empty(),
            pool.issued() == 0,
    {
        Self::starting_at(0)
    }

    /// A pool without connections that carries on where another left off:
    /// its first connection gets the identifier `first`, and the identifiers
    /// below count as closed.
    pub fn starting_at(first: usize) -> (pool: Self)
        ensures
            pool.wf(),
            pool@ == Map::<ConnectionId, H>::empty(),
            pool.issued() == first,
    {
        let pool = Pool { issued: first, established: Vec::new() };
        assert(pool@ =~= Map::<ConnectionId, H>::empty());
        pool
    }

    /// Where `id` stands among the open connections.
    fn position(&self, id: ConnectionId) -> (found: Option<usize>)
        ensures
            match found {
                Some(at) => at < self.established@.len() && self.established@[at as int].id == id,
                None => !listed(self.established@, id),
            },
    {
        let mut at: usize = 0;
        while at < self.established.len()
            invariant
                at <= self.established@.len(),
                forall|k: int| 0 <= k < at ==> (#[trigger] self.established@[k]).id != id,
            decreases self.established@.len() - at,
        {
            if self.established[at].id == id {
                return Some(at);
            }
            at += 1;
        }
        None
    }

    /// Establishes a connection: gives it the next identifier and puts
    /// `handler` on it. The identifier has not been used before. Fails, and
    /// hands the handler back, only when the identifiers have run out.
    pub fn establish(&mut self, handler: H) -> (connection: Result<ConnectionId, H>)
        requires
            old(self).wf(),
        ensures
            final(self).wf(),
            old(self).issued() < usize::MAX ==> connection is Ok,
            match connection {
                Ok(id) => {
                    &&& id.0 == old(self).issued()
                    &&& !old(self).is_established(id)
                    &&& !old(self).is_closed(id)
                    &&& final(self)@ == old(self)@.insert(id, handler)
                    &&& final(self).issued() == old(self).issued() + 1
                },
                Err(back) => {
                    &&& back == handler
                    &&& final(self)@ == old(self)@
                    &&& final(self).issued() == old(self).issued()
                },
            },
            old(self).evolves_to(*final(self)),
    {
        if self.issued == usize::MAX {
            return Err(handler);
        }
        let id = ConnectionId(self.issued);
        proof {
            lemma_appended(self.established@, self.issued, handler);
        }
        self.established.push(Established { id, handler });
        self.issued = self.issued + 1;
        Ok(id)
    }

    /// Closes a connection and hands out its handler, which no longer
    /// belongs to the pool. Finds nothing when the connection is not open.
    pub fn close(&mut self, id: ConnectionId) -> (handler: Option<H>)
        requires
            old(self).wf(),
        ensures
            final(self).wf(),
            match handler {
                Some(taken) => {
                    &&& old(self).is_established(id)
                    &&& taken == old(self)@[id]
                    &&& final(self)@ == old(self)@.remove(id)
                },
                None => !old(self).is_established(id) && final(self)@ == old(self)@,
            },
            final(self).issued() == old(self).issued(),
            old(self).evolves_to(*final(self)),
    {
        match self.position(id) {
            Some(at) => {
                proof {
                    lemma_place(self.established@, self.issued, at as int);
                    lemma_removed(self.established@, self.issued, at as int);
                }
                let entry = self.established.remove(at);
                Some(entry.handler)
            },
            None => None,
        }
    }

    /// Whether `id` is an open connection.
    #[verifier::when_used_as_spec(spec_is_established)]
    pub fn is_established(&self, id: ConnectionId) -> (established: bool)
        requires
            self.wf(),
        ensures
            established == self.spec_is_established(id),
    {
        self.position(id).is_some()
    }

    /// Whether the identifier `id` has been given out and its connection is
    /// no longer open.
    #[verifier::when_used_as_spec(spec_is_closed)]
    pub fn is_closed(&self, id: ConnectionId) -> (closed: bool)
        requires
            self.wf(),
        ensures
            closed == self.spec_is_closed(id),
    {
        id.0 < self.issued && self.position(id).is_none()
    }

    /// The handler of an open connection.
    pub fn handler(&self, id: ConnectionId) -> (handler: Option<&H>)
        requires
            self.wf(),
        ensures
            match handler {
                Some(found) => self.is_established(id) && *found == self@[id],
                None => !self.is_established(id),
            },
    {
        match self.position(id) {
            Some(at) => {
                proof {
                    lemma_place(self.established@, self.issued, at as int);
                }
                Some(&self.established[at].handler)
            },
            None => None,
        }
    }

    /// Closes the connection if it is due for closing when the clock shows
    /// `now` and its handler has given `verdict`, and hands out the handler.
    /// `substreams` counts the substreams of the connection that are in use
    /// or being negotiated; while there is one, the connection stays open.
    pub fn close_if_expired(
        &mut self,
        id: ConnectionId,
        verdict: KeepAlive,
        now: u64,
        substreams: usize,
    ) -> (handler: Option<H>)
        requires
            old(self).wf(),
        ensures
            final(self).wf(),
            match handler {
                Some(taken) => {
                    &&& old(self).expired_at(id, verdict, now, substreams)
                    &&& taken == old(self)@[id]
                    &&& final(self)@ == old(self)@.remove(id)
                },
                None => {
                    &&& !old(self).expired_at(id, verdict, now, substreams)
                    &&& final(self)@ == old(self)@
                },
            },
            final(self).issued() == old(self).issued(),
            old(self).evolves_to(*final(self)),
    {
        if substreams == 0 && verdict.is_expired(now) {
            self.close(id)
        } else {
            None
        }
    }
}

impl<H: ConnectionHandler> Pool<H> {
    /// Polls the handler of an open connection. Finds nothing, and calls no
    /// handler, when the connection is not open.
    pub fn poll(&mut self, id: ConnectionId, cx: &mut Context<'_>) -> (out: Option<
        Poll<ConnectionHandlerEvent<H::OutboundProtocol, H::OutboundOpenInfo, H::OutEvent>>,
    >)
        requires
            old(self).wf(),
        ensures
            final(self).wf(),
            match out {
                Some(found) => {
                    &&& old(self).is_established(id)
                    &&& final(self).is_established(id)
                    &&& H::poll_step(old(self)@[id], final(self)@[id], found)
                    &&& final(self)@ == old(self)@.insert(id, final(self)@[id])
                },
                None => !old(self).is_established(id) && final(self)@ == old(self)@,
            },
            final(self).issued() == old(self).issued(),
            old(self).evolves_to(*final(self)),
    {
        match self.position(id) {
            Some(at) => {
                let ghost before = self.established@;
                let out = self.established[at].handler.poll(cx);
                proof {
                    lemma_place(before, self.issued, at as int);
                    lemma_replaced(before, self.established@, self.issued, at as int);
                }
                Some(out)
            },
            None => None,
        }
    }

    /// Tells the handler of an open connection an event of that connection.
    /// Hands the event back, and calls no handler, when the connection is
    /// not open.
    pub fn on_connection_event(
        &mut self,
        id: ConnectionId,
        event: ConnectionEvent<
            H::InboundProtocol,
            H::OutboundProtocol,
            H::InboundOpenInfo,
            H::OutboundOpenInfo,
        >,
    ) -> (delivered: Result<
        (),
        ConnectionEvent<
            H::InboundProtocol,
            H::OutboundProtocol,
            H::InboundOpenInfo,
            H::OutboundOpenInfo,
        >,
    >)
        requires
            old(self).wf(),
        ensures
            final(self).wf(),
            match delivered {
                Ok(_) => {
                    &&& old(self).is_established(id)
                    &&& final(self).is_established(id)
                    &&& H::connection_event_step(old(self)@[id], event, final(self)@[id])
                    &&& final(self)@ == old(self)@.insert(id, final(self)@[id])
                },
                Err(back) => {
                    &&& !old(self).is_established(id)
                    &&& back == event
                    &&& final(self)@ == old(self)@
                },
            },
            final(self).issued() == old(self).issued(),
            old(self).evolves_to(*final(self)),
    {
        match self.position(id) {
            Some(at) => {
                let ghost before = self.established@;
                self.established[at].handler.on_connection_event(event);
                proof {
                    lemma_place(before, self.issued, at as int);
                    lemma_replaced(before, self.established@, self.issued, at as int);
                }
                Ok(())
            },
            None => Err(event),
        }
    }

    /// Tells the handler of an open connection an event of the behaviour.
    /// Hands the event back, and calls no handler, when the connection is
    /// not open.
    pub fn on_behaviour_event(
        &mut self,
        id: ConnectionId,
        event: H::InEvent,
    ) -> (delivered: Result<(), H::InEvent>)
        requires
            old(self).wf(),
        ensures
            final(self).wf(),
            match delivered {
                Ok(_) => {
                    &&& old(self).is_established(id)
                    &&& final(self).is_established(id)
                    &&& H::behaviour_event_step(old(self)@[id], event, final(self)@[id])
                    &&& final(self)@ == old(self)@.insert(id, final(self)@[id])
                },
                Err(back) => {
                    &&& !old(self).is_established(id)
                    &&& back == event
                    &&& final(self)@ == old(self)@
                },
            },
            final(self).issued() == old(self).issued(),
            old(self).evolves_to(*final(self)),
    {
        match self.position(id) {
            Some(at) => {
                let ghost before = self.established@;
                self.established[at].handler.on_behaviour_event(event);
                proof {
                    lemma_place(before, self.issued, at as int);
                    lemma_replaced(before, self.established@, self.issued, at as int);
                }
                Ok(())
            },
            None => Err(event),
        }
    }

    /// Asks the handler of the connection for its verdict and closes the
    /// connection if it is due for closing when the clock shows `now`. The
    /// verdict is asked for at each call, never kept from an earlier one.
    ///
    /// The connection is closed only on a verdict that the handler can give
    /// and that allows it, and it is kept only if it is not open, or has a
    /// substream, or on a verdict that the handler can give and that does
    /// not allow closing.
    pub fn close_if_idle(
        &mut self,
        id: ConnectionId,
        now: u64,
        substreams: usize,
    ) -> (handler: Option<H>)
        requires
            old(self).wf(),
        ensures
            final(self).wf(),
            match handler {
                Some(taken) => {
                    &&& exists|verdict: KeepAlive| #[trigger]
                        old(self)@[id].keep_alive_is(verdict) && old(self).expired_at(
                            id,
                            verdict,
                            now,
                            substreams,
                        )
                    &&& taken == old(self)@[id]
                    &&& final(self)@ == old(self)@.remove(id)
                },
                None => {
                    &&& !old(self).is_established(id) || exists|verdict: KeepAlive| #[trigger]
                        old(self)@[id].keep_alive_is(verdict) && !old(self).expired_at(
                            id,
                            verdict,
                            now,
                            substreams,
                        )
                    &&& final(self)@ == old(self)@
                },
            },
            final(self).issued() == old(self).issued(),
            old(self).evolves_to(*final(self)),
    {
        let asked = match self.handler(id) {
            Some(handler) => Some(handler.connection_keep_alive()),
            None => None,
        };
        match asked {
            Some(verdict) => self.close_if_expired(id, verdict, now, substreams),
            None => None,
        }
    }
}

/// Every open connection has an identifier that was given out, and a
/// connection is not open and closed at once.
pub proof fn lemma_established_were_issued<H>(pool: Pool<H>, id: ConnectionId)
    requires
        pool.wf(),
        pool.is_established(id),
    ensures
        id.0 < pool.issued(),
        !pool.is_closed(id),
{
    let at = place(pool.established@, id);
    assert(pool.established@[at].id == id);
}

/// A pool can come of itself.
pub proof fn lemma_evolves_reflexive<H>(pool: Pool<H>)
    ensures
        pool.evolves_to(pool),
{
}

/// What can come of a pool that came of another can come of that other, so
/// `evolves_to` holds over any number of steps.
pub proof fn lemma_evolves_transitive<H>(first: Pool<H>, second: Pool<H>, third: Pool<H>)
    requires
        first.evolves_to(second),
        second.evolves_to(third),
    ensures
        first.evolves_to(third),
{
    assert forall|id: ConnectionId| #[trigger] third.is_established(id) implies
        first.is_established(id) || first.issued() <= id.0 < third.issued() by {
        assert(second.is_established(id) || second.issued() <= id.0 < third.issued());
    }
}

/// A connection that has been closed stays closed: whatever is done with the
/// pool afterwards, its identifier is never open again, so it never gets a
/// second handler and the first is never called again.
pub proof fn lemma_closed_stays_closed<H>(before: Pool<H>, after: Pool<H>, id: ConnectionId)
    requires
        before.evolves_to(after),
        before.is_closed(id),
    ensures
        after.is_closed(id),
{
}

} // verus!
