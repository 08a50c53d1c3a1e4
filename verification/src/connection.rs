//! The dispatcher of requests and the demultiplexer of their responses.
//!
//! Requests are numbered in the order in which they are sent. They are
//! written in that order, and every backend message goes to the oldest
//! written request that has not had its last message.

use bytes::Bytes;
use bytes::BytesMut;
use crate::error::Error;
use crate::message::BackendMessage;
use crate::wire::buffered;
use crate::wire::frozen;
use crate::wire::new_buffer;
use std::collections::HashSet;
use std::collections::VecDeque;
use vstd::prelude::*;
use vstd::std_specs::hash::group_hash_axioms;

verus! {

/// The state of a connection as the contracts see it. Requests are
/// numbered from zero: those below `completed` have had their last
/// message, those below `written` are on the wire, those below
/// `submitted` exist.
pub struct Model {
    pub completed: u64,
    pub written: u64,
    pub submitted: u64,
    /// The outstanding requests whose handle was dropped.
    pub abandoned: Set<u64>,
    pub closed: bool,
}

/// What can happen to a connection.
pub enum Event {
    /// A caller sends a request.
    Send,
    /// The driver takes the next request to write it.
    Write,
    /// A backend message arrives; `last` says whether it ends a request.
    Message { last: bool },
    /// The handle of a request is dropped.
    Abandon { id: u64 },
    /// The stream fails.
    Fail,
}

/// What the connection does about an event.
pub enum Outcome {
    /// The request got this number.
    Accepted { id: u64 },
    /// The connection takes no more requests.
    Refused,
    /// The request with this number is to be written.
    Written { id: u64 },
    /// Nothing is waiting to be written.
    Idle,
    /// The message belongs to this request, and is handed to its
    /// handle unless that was dropped.
    Routed { id: u64, last: bool, delivered: bool },
    /// The handle is gone.
    Dropped,
    /// The connection is closed and every outstanding handle fails.
    Fatal,
    /// The connection was closed before; nothing happens.
    Ignored,
}

impl Model {
    /// A fresh connection.
    pub open spec fn initial() -> Model {
        Model { completed: 0, written: 0, submitted: 0, abandoned: Set::empty(), closed: false }
    }

    /// What holds of every state that a history of events leads to.
    pub open spec fn wf(self) -> bool {
        &&& self.completed <= self.written <= self.submitted
        &&& forall|id: u64| #[trigger]
            self.abandoned.contains(id) ==> self.completed <= id < self.submitted
        &&& self.closed ==> self.completed == self.submitted
    }

    /// Whether the request is outstanding: sent, and not yet at its last message.
    pub open spec fn outstanding(self, id: u64) -> bool {
        self.completed <= id < self.submitted
    }

    /// Whether a request can be sent.
    pub open spec fn accepts(self) -> bool {
        !self.closed && self.submitted < u64::MAX
    }

    /// The connection after a fatal condition: closed, with nothing outstanding.
    pub open spec fn shut(self) -> Model {
        Model {
            completed: self.submitted,
            written: self.submitted,
            submitted: self.submitted,
            abandoned: Set::empty(),
            closed: true,
        }
    }

    /// The connection after an event, and what it does about it.
    pub open spec fn step(self, event: Event) -> (Model, Outcome) {
        match event {
            Event::Send => if self.accepts() {
                (
                    Model { submitted: (self.submitted + 1) as u64, ..self },
                    Outcome::Accepted { id: self.submitted },
                )
            } else {
                (self, Outcome::Refused)
            },
            Event::Write => if self.written < self.submitted {
                (
                    Model { written: (self.written + 1) as u64, ..self },
                    Outcome::Written { id: self.written },
                )
            } else {
                (self, Outcome::Idle)
            },
            Event::Message { last } => if self.closed {
                (self, Outcome::Ignored)
            } else if self.completed == self.written {
                (self.shut(), Outcome::Fatal)
            } else {
                (
                    if last {
                        Model {
                            completed: (self.completed + 1) as u64,
                            abandoned: self.abandoned.remove(self.completed),
                            ..self
                        }
                    } else {
                        self
                    },
                    Outcome::Routed {
                        id: self.completed,
                        last,
                        delivered: !self.abandoned.contains(self.completed),
                    },
                )
            },
            Event::Abandon { id } => (
                if self.outstanding(id) {
                    Model { abandoned: self.abandoned.insert(id), ..self }
                } else {
                    self
                },
                Outcome::Dropped,
            ),
            Event::Fail => if self.closed {
                (self, Outcome::Ignored)
            } else {
                (self.shut(), Outcome::Fatal)
            },
        }
    }

    /// The outstanding requests from `from` on whose handle is still held, oldest first.
    pub open spec fn held(self, from: u64) -> Seq<u64>
        decreases self.submitted - from,
    {
        if from >= self.submitted {
            Seq::empty()
        } else if self.abandoned.contains(from) {
            self.held((from + 1) as u64)
        } else {
            seq![from] + self.held((from + 1) as u64)
        }
    }
}

/// The connection after a history of events, starting from a fresh one.
pub open spec fn after(events: Seq<Event>) -> Model
    decreases events.len(),
{
    if events.len() == 0 {
        Model::initial()
    } else {
        after(events.drop_last()).step(events.last()).0
    }
}

/// What the connection does about the event at `at` of a history.
pub open spec fn outcome(events: Seq<Event>, at: int) -> Outcome {
    after(events.take(at)).step(events[at]).1
}

/// Whether the event at `at` is the last message of the request `id`.
pub open spec fn ends_request(events: Seq<Event>, at: int, id: u64) -> bool {
    outcome(events, at) matches Outcome::Routed { id: to, last, .. } && to == id && last
}

/// The number of requests that have had their last message in a history.
pub open spec fn ended(events: Seq<Event>) -> nat
    decreases events.len(),
{
    if events.len() == 0 {
        0
    } else {
        let before = events.drop_last();
        if ends_request(events, events.len() - 1, after(before).completed) {
            ended(before) + 1
        } else {
            ended(before)
        }
    }
}

/// A prefix of a history has the outcomes of the history.
proof fn lemma_outcome_of_prefix(events: Seq<Event>, upto: int, at: int)
    requires
        0 <= at < upto <= events.len(),
    ensures
        outcome(events.take(upto), at) == outcome(events, at),
{
    assert(events.take(upto).take(at) =~= events.take(at));
}

/// Every history leaves the connection well formed. While it is open,
/// the requests that have had their last message are those below `completed`.
pub proof fn lemma_after(events: Seq<Event>)
    ensures
        after(events).wf(),
        !after(events).closed ==> after(events).completed == ended(events),
    decreases events.len(),
{
    if events.len() > 0 {
        let before = events.drop_last();
        lemma_after(before);
        assert(events.take(events.len() - 1) =~= before);
    }
}

/// A request below the number of ended requests has had its last message.
proof fn lemma_ended_request(events: Seq<Event>, id: u64)
    requires
        id < ended(events),
    ensures
        exists|at: int| 0 <= at < events.len() && #[trigger] ends_request(events, at, id),
    decreases events.len(),
{
    let before = events.drop_last();
    let end = events.len() - 1;
    lemma_after(before);
    assert(events.take(end) =~= before);
    if ends_request(events, end, after(before).completed) && id == ended(before) {
        assert(ends_request(events, end, id));
    } else {
        lemma_ended_request(before, id);
        let at = choose|at: int| 0 <= at < before.len() && #[trigger] ends_request(before, at, id);
        lemma_outcome_of_prefix(events, end, at);
        assert(ends_request(events, at, id));
    }
}

/// A message goes to the request whose number is the number of
/// requests that ended before it: to no request that ended, and to no
/// request behind the oldest that has not.
pub proof fn lemma_routed_to_owner(events: Seq<Event>, at: int)
    requires
        0 <= at < events.len(),
        outcome(events, at) is Routed,
    ensures
        outcome(events, at)->Routed_id == ended(events.take(at)),
{
    lemma_after(events.take(at));
}

/// First in, first out: where a message goes to a request, every
/// request sent before that one has had its last message earlier.
pub proof fn lemma_first_in_first_out(events: Seq<Event>, at: int, earlier: u64)
    requires
        0 <= at < events.len(),
        outcome(events, at) is Routed,
        earlier < outcome(events, at)->Routed_id,
    ensures
        exists|before: int| 0 <= before < at && #[trigger] ends_request(events, before, earlier),
{
    let prefix = events.take(at);
    lemma_routed_to_owner(events, at);
    lemma_ended_request(prefix, earlier);
    let before = choose|before: int|
        0 <= before < prefix.len() && #[trigger] ends_request(prefix, before, earlier);
    lemma_outcome_of_prefix(events, at, before);
    assert(ends_request(events, before, earlier));
}

/// Once the handle of a sent request is dropped, the request has ended or is marked abandoned.
proof fn lemma_stays_abandoned(events: Seq<Event>, dropped: int, upto: int, id: u64)
    requires
        0 <= dropped < upto <= events.len(),
        events[dropped] == (Event::Abandon { id }),
        id < after(events.take(dropped)).submitted,
    ensures
        id < after(events.take(upto)).submitted,
        id < after(events.take(upto)).completed || after(events.take(upto)).abandoned.contains(id),
    decreases upto,
{
    lemma_after(events.take(upto - 1));
    assert(events.take(upto).drop_last() =~= events.take(upto - 1));
    assert(events.take(upto).last() == events[upto - 1]);
    if upto - 1 > dropped {
        lemma_stays_abandoned(events, dropped, upto - 1, id);
    }
}

/// No message is handed to a handle after it was dropped: what still
/// belongs to its request is discarded.
pub proof fn lemma_abandoned_gets_nothing(events: Seq<Event>, dropped: int, at: int, id: u64)
    requires
        0 <= dropped < at < events.len(),
        events[dropped] == (Event::Abandon { id }),
        id < after(events.take(dropped)).submitted,
        outcome(events, at) is Routed,
        outcome(events, at)->Routed_id == id,
    ensures
        !outcome(events, at)->Routed_delivered,
{
    lemma_stays_abandoned(events, dropped, at, id);
}

/// What a request asks for, which says with which message its answer ends.
#[derive(Clone, Copy, Debug, PartialEq, Eq, Structural)]
pub enum RequestKind {
    /// A statement is run: the answer ends with the end of a command,
    /// an empty query, a suspended portal, or an error report.
    Query,
    /// A statement is prepared: the answer ends with the description
    /// of the statement's rows, with the notice that it has none, or
    /// with an error report.
    Prepare,
}

impl RequestKind {
    /// Whether the message is the last one of the answer to a request of this kind.
    pub open spec fn spec_ended_by(&self, message: BackendMessage) -> bool {
        match *self {
            RequestKind::Query => message.spec_is_terminating(),
            RequestKind::Prepare => message is RowDescription || message is NoData
                || message is ErrorResponse,
        }
    }

    /// Whether the message is the last one of the answer to a request of this kind.
    pub fn ended_by(&self, message: &BackendMessage) -> (last: bool)
        ensures
            last == self.spec_ended_by(*message),
    {
        match self {
            RequestKind::Query => message.is_terminating(),
            RequestKind::Prepare => match message {
                BackendMessage::RowDescription(_) => true,
                BackendMessage::NoData => true,
                BackendMessage::ErrorResponse(_) => true,
                _ => false,
            },
        }
    }
}

/// The reading end of one request's messages. There is one for each request.
#[derive(Debug)]
pub struct Responses {
    pub id: u64,
}

/// Where a backend message goes.
#[derive(Debug)]
pub enum Route {
    /// To the handle of this request.
    Deliver { id: u64, last: bool },
    /// Nowhere: the message belongs to this request, whose handle was dropped.
    Discard { id: u64, last: bool },
    /// Nowhere: no written request is waiting for a message. The
    /// connection is closed, and these handles fail.
    Fatal { failed: Vec<u64> },
    /// Nowhere: the connection was closed before.
    Ignored,
}

/// One connection's requests: those waiting to be written, and the
/// bookkeeping of those waiting for their messages. The connection
/// also keeps one buffer in which requests are built, so that
/// building one allocates nothing anew; between two requests it is empty.
pub struct Connection {
    queue: VecDeque<Bytes>,
    kinds: VecDeque<RequestKind>,
    scratch: BytesMut,
    completed: u64,
    written: u64,
    submitted: u64,
    abandoned: HashSet<u64>,
    closed: bool,
}

impl View for Connection {
    type V = Model;

    closed spec fn view(&self) -> Model {
        Model {
            completed: self.completed,
            written: self.written,
            submitted: self.submitted,
            abandoned: self.abandoned@,
            closed: self.closed,
        }
    }
}

impl Connection {
    /// What holds of every connection that this module hands out.
    pub closed spec fn wf(&self) -> bool {
        &&& self@.wf()
        &&& self.queue@.len() == self.submitted - self.written
        &&& self.kinds@.len() == self.submitted - self.completed
        &&& buffered(self.scratch) == Seq::<u8>::empty()
    }

    /// The kinds of the outstanding requests, oldest first.
    pub closed spec fn kinds(&self) -> Seq<RequestKind> {
        self.kinds@
    }

    /// Whether the message is the last one of the oldest outstanding request.
    pub open spec fn ends(&self, message: BackendMessage) -> bool {
        self.kinds().len() > 0 && self.kinds()[0].spec_ended_by(message)
    }

    /// The requests that wait to be written, oldest first.
    pub closed spec fn queued(&self) -> Seq<Seq<u8>> {
        Seq::new(self.queue@.len(), |i: int| frozen(self.queue@[i]))
    }

    /// A connection in order has a model in order, and as many
    /// requests in its queue as were sent and not yet written.
    pub proof fn lemma_wf(&self)
        requires
            self.wf(),
        ensures
            self@.wf(),
            self.queued().len() == self@.submitted - self@.written,
            self.kinds().len() == self@.submitted - self@.completed,
    {
    }

    /// A connection on which nothing has happened.
    pub fn new() -> (connection: Connection)
        ensures
            connection.wf(),
            connection@ == Model::initial(),
            connection.queued() == Seq::<Seq<u8>>::empty(),
            connection.kinds() == Seq::<RequestKind>::empty(),
    {
        broadcast use group_hash_axioms;

        let connection = Connection {
            queue: VecDeque::new(),
            kinds: VecDeque::new(),
            scratch: new_buffer(),
            completed: 0,
            written: 0,
            submitted: 0,
            abandoned: HashSet::new(),
            closed: false,
        };
        assert(connection@.abandoned =~= Set::<u64>::empty());
        assert(connection.queued() =~= Seq::<Seq<u8>>::empty());
        connection
    }

    /// Lends the buffer in which a request is built. It is empty, and
    /// the connection is in order again once it is empty again.
    pub(crate) fn buffer(&mut self) -> (buf: &mut BytesMut)
        requires
            old(self).wf(),
        ensures
            buffered(*buf) == Seq::<u8>::empty(),
            final(self)@ == old(self)@,
            final(self).queued() == old(self).queued(),
            final(self).kinds() == old(self).kinds(),
            buffered(*final(buf)) == Seq::<u8>::empty() ==> final(self).wf(),
    {
        &mut self.scratch
    }

    /// The number that the next request gets.
    pub fn next_id(&self) -> (id: u64)
        ensures
            id == self@.submitted,
    {
        self.submitted
    }

    /// Whether the connection is closed.
    pub fn is_closed(&self) -> (closed: bool)
        ensures
            closed == self@.closed,
    {
        self.closed
    }

    /// Hands a request of the given kind to the driver and returns
    /// the handle of its messages, without waiting for any. Fails
    /// where the connection takes no more requests, and then nothing
    /// is queued.
    pub fn send_as(&mut self, request: Bytes, kind: RequestKind) -> (r: Result<Responses, Error>)
        requires
            old(self).wf(),
        ensures
            final(self).wf(),
            final(self)@ == old(self)@.step(Event::Send).0,
            old(self)@.accepts() ==> {
                &&& r matches Ok(handle)
                &&& handle.id == old(self)@.submitted
                &&& final(self).queued() == old(self).queued().push(frozen(request))
                &&& final(self).kinds() == old(self).kinds().push(kind)
            },
            !old(self)@.accepts() ==> {
                &&& r matches Err(e)
                &&& e == Error::Closed
                &&& final(self).queued() == old(self).queued()
                &&& final(self).kinds() == old(self).kinds()
            },
    {
        broadcast use group_hash_axioms;

        if self.closed || self.submitted == u64::MAX {
            return Err(Error::Closed);
        }
        let id = self.submitted;
        self.queue.push_back(request);
        self.kinds.push_back(kind);
        self.submitted = id + 1;
        assert(self.queued() =~= old(self).queued().push(frozen(request)));
        assert(self@.abandoned == old(self)@.abandoned);
        Ok(Responses { id })
    }

    /// Hands the request that runs a statement to the driver; see `send_as`.
    pub fn send(&mut self, request: Bytes) -> (r: Result<Responses, Error>)
        requires
            old(self).wf(),
        ensures
            final(self).wf(),
            final(self)@ == old(self)@.step(Event::Send).0,
            old(self)@.accepts() ==> {
                &&& r matches Ok(handle)
                &&& handle.id == old(self)@.submitted
                &&& final(self).queued() == old(self).queued().push(frozen(request))
                &&& final(self).kinds() == old(self).kinds().push(RequestKind::Query)
            },
            !old(self)@.accepts() ==> {
                &&& r matches Err(e)
                &&& e == Error::Closed
                &&& final(self).queued() == old(self).queued()
                &&& final(self).kinds() == old(self).kinds()
            },
    {
        self.send_as(request, RequestKind::Query)
    }

    /// The next request to write, if one waits: requests are written in the order in which they were sent.
    pub fn poll_request(&mut self) -> (next: Option<Bytes>)
        requires
            old(self).wf(),
        ensures
            final(self).wf(),
            final(self)@ == old(self)@.step(Event::Write).0,
            final(self).kinds() == old(self).kinds(),
            old(self).queued().len() == 0 ==> next is None && final(self).queued() == old(self).queued(),
            old(self).queued().len() > 0 ==> (next matches Some(request) && frozen(request)
                == old(self).queued()[0] && final(self).queued() == old(self).queued().skip(1)),
    {
        broadcast use group_hash_axioms;

        match self.queue.pop_front() {
            None => {
                assert(self@.abandoned == old(self)@.abandoned);
                None
            },
            Some(request) => {
                self.written = self.written + 1;
                assert(self@.abandoned == old(self)@.abandoned);
                assert(self.queued() =~= old(self).queued().skip(1));
                Some(request)
            },
        }
    }

    /// The outstanding requests whose handle is still held, oldest first.
    fn held(&self) -> (ids: Vec<u64>)
        requires
            self.wf(),
        ensures
            ids@ == self@.held(self@.completed),
    {
        broadcast use group_hash_axioms;

        let mut ids: Vec<u64> = Vec::new();
        let mut id = self.completed;
        while id < self.submitted
            invariant
                self.wf(),
                self.completed <= id <= self.submitted,
                ids@ + self@.held(id) == self@.held(self@.completed),
            decreases self.submitted - id,
        {
            if !self.abandoned.contains(&id) {
                ids.push(id);
            }
            assert(ids@ + self@.held((id + 1) as u64) =~= self@.held(self@.completed));
            id += 1;
        }
        assert(ids@ + Seq::<u64>::empty() =~= ids@);
        ids
    }

    /// Closes the connection and forgets what was outstanding.
    fn shut(&mut self)
        requires
            old(self).wf(),
        ensures
            final(self).wf(),
            final(self)@ == old(self)@.shut(),
            final(self).queued() == Seq::<Seq<u8>>::empty(),
            final(self).kinds() == Seq::<RequestKind>::empty(),
    {
        broadcast use group_hash_axioms;

        self.queue.clear();
        self.kinds.clear();
        self.abandoned.clear();
        self.completed = self.submitted;
        self.written = self.submitted;
        self.closed = true;
        assert(self@.abandoned =~= Set::<u64>::empty());
        assert(self.queued() =~= Seq::<Seq<u8>>::empty());
    }

    /// Says where a backend message goes: to the oldest written
    /// request that has not had its last message. A message that ends
    /// the request, which depends on the request's kind, makes the
    /// next one the target. Where no request waits for a message the
    /// connection is closed.
    pub fn route(&mut self, message: &BackendMessage) -> (route: Route)
        requires
            old(self).wf(),
        ensures
            final(self).wf(),
            final(self)@ == old(self)@.step(Event::Message { last: old(self).ends(*message) }).0,
            match old(self)@.step(Event::Message { last: old(self).ends(*message) }).1 {
                Outcome::Routed { id, last, delivered } => {
                    &&& if delivered {
                        route matches Route::Deliver { id: to, last: l } && to == id && l == last
                    } else {
                        route matches Route::Discard { id: to, last: l } && to == id && l == last
                    }
                    &&& final(self).queued() == old(self).queued()
                    &&& final(self).kinds() == if last {
                        old(self).kinds().skip(1)
                    } else {
                        old(self).kinds()
                    }
                },
                Outcome::Fatal => {
                    &&& route matches Route::Fatal { failed }
                    &&& failed@ == old(self)@.held(old(self)@.completed)
                    &&& final(self).queued() == Seq::<Seq<u8>>::empty()
                    &&& final(self).kinds() == Seq::<RequestKind>::empty()
                },
                _ => {
                    &&& route is Ignored
                    &&& final(self).queued() == old(self).queued()
                    &&& final(self).kinds() == old(self).kinds()
                },
            },
    {
        broadcast use group_hash_axioms;

        if self.closed {
            return Route::Ignored;
        }
        if self.completed == self.written {
            let failed = self.held();
            self.shut();
            return Route::Fatal { failed };
        }
        let id = self.completed;
        let last = self.kinds[0].ended_by(message);
        let delivered = !self.abandoned.contains(&id);
        if last {
            self.abandoned.remove(&id);
            self.kinds.pop_front();
            self.completed = id + 1;
            assert(self.kinds@ =~= old(self).kinds@.skip(1));
        }
        if delivered {
            Route::Deliver { id, last }
        } else {
            Route::Discard { id, last }
        }
    }

    /// Takes back the handle of a request whose messages nobody will
    /// read. The messages that still belong to it are discarded as
    /// they arrive; those of other requests go where they went before.
    pub fn abandon(&mut self, responses: Responses)
        requires
            old(self).wf(),
        ensures
            final(self).wf(),
            final(self)@ == old(self)@.step(Event::Abandon { id: responses.id }).0,
            final(self).queued() == old(self).queued(),
            final(self).kinds() == old(self).kinds(),
    {
        broadcast use group_hash_axioms;

        if self.completed <= responses.id && responses.id < self.submitted {
            self.abandoned.insert(responses.id);
        }
    }

    /// Closes the connection after a failure of the stream. Returns
    /// the requests whose handles fail with it, oldest first; a closed
    /// connection has none.
    pub fn close(&mut self) -> (failed: Vec<u64>)
        requires
            old(self).wf(),
        ensures
            final(self).wf(),
            final(self)@ == old(self)@.step(Event::Fail).0,
            failed@ == old(self)@.held(old(self)@.completed),
            final(self)@.closed,
            final(self).queued() == Seq::<Seq<u8>>::empty(),
            final(self).kinds() == Seq::<RequestKind>::empty(),
    {
        let failed = self.held();
        if !self.closed {
            self.shut();
        }
        assert(self.queued() =~= Seq::<Seq<u8>>::empty());
        failed
    }
}

} // verus!
