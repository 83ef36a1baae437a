//! The inbound side of an endpoint: which requests of the peer are being
//! handled and which responses wait to leave.

use serde_json::Value;
use vstd::prelude::*;
use crate::protocol::message::{
    lemma_messages_push, spec_messages, Message, MessageView, Notification, Request, Response,
};

verus! {

/// A call that the service is to handle. A call with an id came as a
/// request: its result must be reported under that id. A call without
/// came as a notification and has no result.
pub struct Call {
    pub id: Option<u64>,
    pub method: String,
    pub params: Value,
}

/// Bookkeeping of the inbound side of one connection.
pub struct Server {
    in_flight: Vec<u64>,
    finished: Vec<Response>,
}

/// Mathematical value of a [`Server`].
pub struct ServerView {
    /// The ids of the requests whose handlers have not finished, in the
    /// order of arrival. An id stands here once for each such request.
    pub in_flight: Seq<u64>,
    /// The responses that wait to be sent, in the order in which the
    /// handlers finished.
    pub finished: Seq<Response>,
}

/// The first place at which `id` stands in `ids`.
pub open spec fn spec_first_place(ids: Seq<u64>, id: u64) -> int {
    choose|i: int|
        0 <= i < ids.len() && ids[i] == id && forall|k: int| 0 <= k < i ==> ids[k] != id
}

impl ServerView {
    /// Before anything arrived.
    pub open spec fn start() -> ServerView {
        ServerView { in_flight: Seq::empty(), finished: Seq::empty() }
    }

    /// The state after a request with this id arrived.
    pub open spec fn requested(self, id: u64) -> ServerView {
        ServerView { in_flight: self.in_flight.push(id), ..self }
    }

    /// The state after a handler reported `result` for `id`: where a
    /// handler for that id was in flight, the oldest such is done and its
    /// response waits to be sent; otherwise nothing changes.
    pub open spec fn completed(self, id: u64, result: Result<Value, Value>) -> ServerView {
        if self.in_flight.contains(id) {
            ServerView {
                in_flight: self.in_flight.remove(spec_first_place(self.in_flight, id)),
                finished: self.finished.push(Response { id, result }),
            }
        } else {
            self
        }
    }

    /// How many responses leave when the sink has room for `room` frames.
    pub open spec fn leaving(self, room: nat) -> nat {
        if room < self.finished.len() {
            room
        } else {
            self.finished.len()
        }
    }

    /// The state after the sink took what it had room for.
    pub open spec fn drained(self, room: nat) -> ServerView {
        ServerView {
            finished: self.finished.subrange(self.leaving(room) as int, self.finished.len() as int),
            ..self
        }
    }
}

impl View for Server {
    type V = ServerView;

    closed spec fn view(&self) -> ServerView {
        ServerView { in_flight: self.in_flight@, finished: self.finished@ }
    }
}

impl Server {
    /// The server of a fresh connection.
    pub fn new() -> (r: Server)
        ensures
            r@ == ServerView::start(),
    {
        Server { in_flight: Vec::new(), finished: Vec::new() }
    }

    /// The number of responses that wait to be sent.
    pub fn waiting(&self) -> (r: usize)
        ensures
            r == self@.finished.len(),
    {
        self.finished.len()
    }

    /// Takes a request of the peer: notes that its handler is in flight
    /// and gives the call to hand to the service.
    pub fn process_request(&mut self, request: Request) -> (r: Call)
        ensures
            r.id == Some(request.id),
            r.method == request.method,
            r.params == request.params,
            final(self)@ == old(self)@.requested(request.id),
    {
        self.in_flight.push(request.id);
        Call { id: Some(request.id), method: request.method, params: request.params }
    }

    /// Takes a notification of the peer and gives the call to hand to the
    /// service. Whatever the method, nothing is noted and no response
    /// will ever be sent for it.
    pub fn process_notification(&mut self, notification: Notification) -> (r: Call)
        ensures
            r.id is None,
            r.method == notification.method,
            r.params == notification.params,
            final(self)@ == old(self)@,
    {
        Call { id: None, method: notification.method, params: notification.params }
    }

    /// Takes the result that a handler reported for the request `id`.
    /// Where such a handler was in flight, the response is queued and
    /// `true` returned. A result for an id that nothing waits for is
    /// dropped.
    pub fn complete(&mut self, id: u64, result: Result<Value, Value>) -> (r: bool)
        ensures
            r == old(self)@.in_flight.contains(id),
            final(self)@ == old(self)@.completed(id, result),
    {
        let mut i: usize = 0;
        while i < self.in_flight.len()
            invariant
                *self == *old(self),
                i <= self.in_flight.len(),
                forall|k: int| 0 <= k < i ==> self.in_flight@[k] != id,
            decreases self.in_flight.len() - i,
        {
            if self.in_flight[i] == id {
                proof {
                    lemma_first_place(self.in_flight@, id, i as int);
                }
                self.in_flight.remove(i);
                self.finished.push(Response { id, result });
                return true;
            }
            i += 1;
        }
        assert(!self.in_flight@.contains(id));
        false
    }

    /// Gives the responses that can leave now, oldest first, as frames:
    /// as many as the sink has room for. The others keep their place in
    /// the queue; none is dropped.
    pub fn send_responses(&mut self, room: usize) -> (r: Vec<Message>)
        ensures
            final(self)@ == old(self)@.drained(room as nat),
            r@.len() == old(self)@.leaving(room as nat),
            forall|k: int|
                0 <= k < r@.len() ==> #[trigger] r@[k] == Message::Response(
                    old(self)@.finished[k],
                ),
    {
        let n: usize = if room < self.finished.len() {
            room
        } else {
            self.finished.len()
        };
        let mut leaving: Vec<Response> = self.finished.split_off(n);
        std::mem::swap(&mut leaving, &mut self.finished);
        assert(self.finished@ =~= old(self)@.finished.subrange(
            n as int,
            old(self)@.finished.len() as int,
        ));
        let mut out: Vec<Message> = Vec::new();
        for response in it: leaving.into_iter()
            invariant
                n <= old(self)@.finished.len(),
                it.seq() == old(self)@.finished.subrange(0, n as int),
                out@.len() == it.index(),
                forall|k: int|
                    0 <= k < out@.len() ==> #[trigger] out@[k] == Message::Response(
                        old(self)@.finished[k],
                    ),
        {
            assert(response == old(self)@.finished[it.index()]);
            out.push(Message::Response(response));
        }
        out
    }
}

/// A place at which `id` stands, with no `id` before it, is the first.
proof fn lemma_first_place(ids: Seq<u64>, id: u64, i: int)
    requires
        0 <= i < ids.len(),
        ids[i] == id,
        forall|k: int| 0 <= k < i ==> ids[k] != id,
    ensures
        ids.contains(id),
        spec_first_place(ids, id) == i,
{
    let j = spec_first_place(ids, id);
    if j < i {
        assert(ids[j] != id);
    }
}

} // verus!
