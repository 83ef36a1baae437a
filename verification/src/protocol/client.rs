//! The outbound side of an endpoint: which requests wait for a response and
//! which notifications wait to leave the send buffer.

use std::collections::HashMap;
use serde_json::Value;
use vstd::prelude::*;
use vstd::std_specs::hash::group_hash_axioms;
use crate::channel::{complete, AckTx, ResponseTx};
use crate::json::spec_json;
use crate::protocol::message::{
    lemma_messages_push, spec_messages, Message, MessageView, Notification, Request, Response,
};

verus! {

broadcast use group_hash_axioms;

/// What a poll of one of the client's channels gave.
pub enum Polled<T> {
    /// The next item of the channel.
    Item(T),
    /// Every sender of the channel is gone and the channel is drained.
    Closed,
    /// Nothing is there at present.
    Pending,
}

/// Bookkeeping of the outbound side of one connection.
pub struct InnerClient {
    shutting_down: bool,
    request_id: u64,
    pending_requests: HashMap<u64, ResponseTx>,
    pending_notifications: Vec<AckTx>,
}

/// Mathematical value of an [`InnerClient`].
pub struct InnerClientView {
    /// Whether the endpoint is to end.
    pub shutting_down: bool,
    /// The id of the request sent last; 0 before the first.
    pub request_id: u64,
    /// The handles of the requests that wait for a response, by id.
    pub pending_requests: Map<u64, ResponseTx>,
    /// The handles of the notifications sent and not yet flushed, oldest first.
    pub pending_notifications: Seq<AckTx>,
}

impl InnerClientView {
    /// Before anything was sent.
    pub open spec fn start() -> InnerClientView {
        InnerClientView {
            shutting_down: false,
            request_id: 0,
            pending_requests: Map::empty(),
            pending_notifications: Seq::empty(),
        }
    }

    /// Every pending id was handed out by the counter; 0 never was.
    pub open spec fn wf(self) -> bool {
        forall|id: u64| #[trigger]
            self.pending_requests.contains_key(id) ==> 0 < id <= self.request_id
    }

    /// The state after the requests of `batch` were sent.
    pub open spec fn registered(self, batch: Seq<(Request, ResponseTx)>) -> InnerClientView {
        InnerClientView {
            request_id: (self.request_id + batch.len()) as u64,
            pending_requests: Map::new(
                |id: u64|
                    self.pending_requests.contains_key(id) || self.request_id < id
                        <= self.request_id + batch.len(),
                |id: u64|
                    if self.request_id < id <= self.request_id + batch.len() {
                        batch[id - self.request_id - 1].1
                    } else {
                        self.pending_requests[id]
                    },
            ),
            ..self
        }
    }

    /// The state after a response was delivered: the entry of its id is
    /// gone, unless the client was shutting down, when nothing changes.
    pub open spec fn answered(self, id: u64) -> InnerClientView {
        if self.shutting_down {
            self
        } else {
            InnerClientView { pending_requests: self.pending_requests.remove(id), ..self }
        }
    }

    /// The state after every call that waits was given up.
    pub open spec fn cancelled(self) -> InnerClientView {
        InnerClientView {
            pending_requests: Map::empty(),
            pending_notifications: Seq::empty(),
            ..self
        }
    }

    /// The handle that a response with this id resolves: the pending one
    /// of that id, and none while the client is shutting down.
    pub open spec fn awaited(self, id: u64) -> Option<ResponseTx> {
        if !self.shutting_down && self.pending_requests.contains_key(id) {
            Some(self.pending_requests[id])
        } else {
            None
        }
    }
}

/// The frames that carry the requests of `batch` when the last id handed
/// out was `last`: request `k` gets the id `last + k + 1`.
pub open spec fn spec_request_frames(last: u64, batch: Seq<(Request, ResponseTx)>) -> Seq<
    MessageView,
> {
    Seq::new(
        batch.len(),
        |k: int|
            MessageView::Request {
                id: (last + k + 1) as u64,
                method: batch[k].0.method@,
                params: spec_json(batch[k].0.params),
            },
    )
}

/// The frames that carry the notifications of `batch`.
pub open spec fn spec_notification_frames(batch: Seq<(Notification, AckTx)>) -> Seq<MessageView> {
    Seq::new(batch.len(), |k: int| batch[k].0@)
}

/// Order independence. Two requests sent one after the other get different
/// ids, and whichever response comes first, each resolves the handle of its
/// own request: the response to the second finds the second handle and
/// leaves the first waiting, and the other way round.
pub proof fn lemma_responses_in_any_order(
    c: InnerClientView,
    first: (Request, ResponseTx),
    second: (Request, ResponseTx),
)
    requires
        c.wf(),
        !c.shutting_down,
        c.request_id + 2 <= u64::MAX,
    ensures
        ({
            let sent = c.registered(seq![first, second]);
            let a = (c.request_id + 1) as u64;
            let b = (c.request_id + 2) as u64;
            &&& a != b
            &&& sent.wf()
            &&& sent.awaited(a) == Some(first.1)
            &&& sent.awaited(b) == Some(second.1)
            &&& sent.answered(b).awaited(a) == Some(first.1)
            &&& sent.answered(a).awaited(b) == Some(second.1)
            &&& sent.answered(a).answered(b) == sent.answered(b).answered(a)
            &&& sent.answered(a).answered(b).pending_requests == c.pending_requests
        }),
{
    let sent = c.registered(seq![first, second]);
    let a = (c.request_id + 1) as u64;
    let b = (c.request_id + 2) as u64;
    assert(sent.answered(a).answered(b).pending_requests =~= sent.answered(b).answered(
        a,
    ).pending_requests);
    assert(sent.answered(a).answered(b).pending_requests =~= c.pending_requests);
}

/// Responses to different requests can be delivered in either order: the
/// table ends up the same, and each finds the handle it would have found
/// had it come first.
pub proof fn lemma_responses_commute(c: InnerClientView, a: u64, b: u64)
    requires
        a != b,
    ensures
        c.answered(a).answered(b) == c.answered(b).answered(a),
        c.answered(b).awaited(a) == c.awaited(a),
        c.answered(a).awaited(b) == c.awaited(b),
{
    assert(c.answered(a).answered(b).pending_requests =~= c.answered(b).answered(
        a,
    ).pending_requests);
}

/// A client that is shutting down drops every response: none finds a
/// handle, and none changes the state.
pub proof fn lemma_shutdown_discards(c: InnerClientView, id: u64)
    requires
        c.shutting_down,
    ensures
        c.awaited(id) is None,
        c.answered(id) == c,
{
}

/// A response to an id that is not pending finds no handle and changes
/// nothing.
pub proof fn lemma_unknown_id_discarded(c: InnerClientView, id: u64)
    requires
        !c.pending_requests.contains_key(id),
    ensures
        c.awaited(id) is None,
        c.answered(id) == c,
{
    assert(c.pending_requests.remove(id) =~= c.pending_requests);
}

/// Sending requests keeps the table well formed, leaves the requests that
/// were pending as they were, and uses no id that is pending.
pub proof fn lemma_registered(c: InnerClientView, batch: Seq<(Request, ResponseTx)>)
    requires
        c.wf(),
        c.request_id + batch.len() <= u64::MAX,
    ensures
        c.registered(batch).wf(),
        forall|id: u64| #[trigger]
            c.pending_requests.contains_key(id) ==> c.registered(
                batch,
            ).pending_requests.contains_key(id) && c.registered(batch).pending_requests[id]
                == c.pending_requests[id],
        forall|k: int|
            0 <= k < batch.len() ==> !c.pending_requests.contains_key(
                #[trigger] ((c.request_id + k + 1) as u64),
            ) && c.registered(batch).pending_requests[(c.request_id + k + 1) as u64] == batch[k].1,
{
}

impl View for InnerClient {
    type V = InnerClientView;

    closed spec fn view(&self) -> InnerClientView {
        InnerClientView {
            shutting_down: self.shutting_down,
            request_id: self.request_id,
            pending_requests: self.pending_requests@,
            pending_notifications: self.pending_notifications@,
        }
    }
}

impl InnerClient {
    #[verifier::type_invariant]
    spec fn ids_in_range(&self) -> bool {
        self@.wf()
    }

    /// The client of a fresh connection.
    pub fn new() -> (r: InnerClient)
        ensures
            r@ == InnerClientView::start(),
            r@.wf(),
    {
        InnerClient {
            shutting_down: false,
            request_id: 0,
            pending_requests: HashMap::new(),
            pending_notifications: Vec::new(),
        }
    }

    /// Marks the endpoint as ending.
    pub fn shutdown(&mut self)
        ensures
            final(self)@ == (InnerClientView { shutting_down: true, ..old(self)@ }),
            final(self)@.wf(),
    {
        proof {
            use_type_invariant(&*self);
        }
        self.shutting_down = true;
    }

    /// The id of the request sent last; 0 before the first.
    pub fn last_id(&self) -> (r: u64)
        ensures
            r == self@.request_id,
    {
        self.request_id
    }

    /// Whether the endpoint is ending.
    pub fn is_shutting_down(&self) -> (r: bool)
        ensures
            r == self@.shutting_down,
    {
        self.shutting_down
    }

    /// Takes note of what a poll of the shutdown channel gave: a signal
    /// or a closed channel ends the endpoint, an empty channel changes
    /// nothing.
    pub fn process_shutdown_signals(&mut self, signal: Polled<()>)
        ensures
            final(self)@ == (InnerClientView {
                shutting_down: old(self)@.shutting_down || !(signal is Pending),
                ..old(self)@
            }),
            final(self)@.wf(),
    {
        proof {
            use_type_invariant(&*self);
        }
        match signal {
            Polled::Item(()) => self.shutdown(),
            Polled::Closed => self.shutdown(),
            Polled::Pending => {},
        }
    }

    /// Takes the notifications that the handles of the client submitted,
    /// in order, and returns the frames to send for them. Their handles
    /// wait, in the same order, until the frames are flushed. `closed`
    /// tells that the channel has no sender left, which ends the endpoint.
    pub fn process_notifications(&mut self, batch: Vec<(Notification, AckTx)>, closed: bool) -> (r:
        Vec<Message>)
        ensures
            spec_messages(r@) == spec_notification_frames(batch@),
            final(self)@ == (InnerClientView {
                shutting_down: old(self)@.shutting_down || closed,
                pending_notifications: old(self)@.pending_notifications + batch@.map_values(
                    |e: (Notification, AckTx)| e.1,
                ),
                ..old(self)@
            }),
            final(self)@.wf(),
    {
        proof {
            use_type_invariant(&*self);
        }
        let ghost acks = batch@.map_values(|e: (Notification, AckTx)| e.1);
        let ghost frames = spec_notification_frames(batch@);
        let mut out: Vec<Message> = Vec::new();
        let mut waiting: Vec<AckTx> = Vec::new();
        std::mem::swap(&mut waiting, &mut self.pending_notifications);
        let ghost idle = *self;
        for entry in it: batch.into_iter()
            invariant
                it.seq() == batch@,
                *self == idle,
                idle@.wf(),
                idle@ == (InnerClientView { pending_notifications: Seq::empty(), ..old(self)@ }),
                acks == batch@.map_values(|e: (Notification, AckTx)| e.1),
                frames == spec_notification_frames(batch@),
                spec_messages(out@) == frames.subrange(0, it.index()),
                waiting@ == old(self)@.pending_notifications + acks.subrange(0, it.index()),
        {
            assert(entry == batch@[it.index()]);
            let (notification, ack) = entry;
            waiting.push(ack);
            proof {
                lemma_messages_push(out@, Message::Notification(notification));
            }
            out.push(Message::Notification(notification));
            assert(waiting@ =~= old(self)@.pending_notifications + acks.subrange(
                0,
                it.index() + 1,
            ));
            assert(spec_messages(out@) =~= frames.subrange(0, it.index() + 1));
        }
        assert(acks.subrange(0, batch@.len() as int) =~= acks);
        assert(frames.subrange(0, batch@.len() as int) =~= frames);
        std::mem::swap(&mut waiting, &mut self.pending_notifications);
        if closed {
            self.shutdown();
        }
        out
    }

    /// Takes the requests that the handles of the client submitted, in
    /// order, gives each the next id and returns the frames to send for
    /// them. Their handles wait under those ids for the responses.
    /// `closed` tells that the channel has no sender left, which ends the
    /// endpoint.
    pub fn process_requests(&mut self, batch: Vec<(Request, ResponseTx)>, closed: bool) -> (r: Vec<
        Message,
    >)
        requires
            old(self)@.request_id + batch.len() <= u64::MAX,
        ensures
            spec_messages(r@) == spec_request_frames(old(self)@.request_id, batch@),
            final(self)@ == (InnerClientView {
                shutting_down: old(self)@.shutting_down || closed,
                ..old(self)@.registered(batch@)
            }),
            final(self)@.wf(),
    {
        proof {
            use_type_invariant(&*self);
        }
        let ghost frames = spec_request_frames(old(self)@.request_id, batch@);
        let mut out: Vec<Message> = Vec::new();
        let mut pending: HashMap<u64, ResponseTx> = HashMap::new();
        std::mem::swap(&mut pending, &mut self.pending_requests);
        let mut last: u64 = self.request_id;
        let ghost idle = *self;
        for entry in it: batch.into_iter()
            invariant
                it.seq() == batch@,
                *self == idle,
                idle@ == (InnerClientView { pending_requests: Map::empty(), ..old(self)@ }),
                old(self)@.request_id + batch.len() <= u64::MAX,
                old(self)@.wf(),
                frames == spec_request_frames(old(self)@.request_id, batch@),
                spec_messages(out@) == frames.subrange(0, it.index()),
                last == old(self)@.request_id + it.index(),
                pending@ == old(self)@.registered(
                    batch@.subrange(0, it.index()),
                ).pending_requests,
        {
            assert(entry == batch@[it.index()]);
            let (request, tx) = entry;
            let ghost k = it.index();
            last = last + 1;
            let framed = Request { id: last, method: request.method, params: request.params };
            proof {
                lemma_messages_push(out@, Message::Request(framed));
            }
            out.push(Message::Request(framed));
            pending.insert(last, tx);
            assert(spec_messages(out@) =~= frames.subrange(0, k + 1));
            assert(pending@ =~= old(self)@.registered(
                batch@.subrange(0, k + 1),
            ).pending_requests);
        }
        assert(batch@.subrange(0, batch@.len() as int) =~= batch@);
        self.request_id = last;
        std::mem::swap(&mut pending, &mut self.pending_requests);
        if closed {
            self.shutdown();
        }
        out
    }

    /// Finds the handle that `response` is for and takes it out of the
    /// table. Gives the handle together with the result to resolve it
    /// with. Gives nothing, and changes nothing, for an id that is not
    /// pending; nor while the client is shutting down.
    pub fn route_response(&mut self, response: Response) -> (r: Option<
        (ResponseTx, Result<Value, Value>),
    >)
        ensures
            final(self)@ == old(self)@.answered(response.id),
            final(self)@.wf(),
            r == match old(self)@.awaited(response.id) {
                Some(tx) => Some((tx, response.result)),
                None => None,
            },
    {
        proof {
            use_type_invariant(&*self);
        }
        if self.shutting_down {
            return None;
        }
        let mut pending: HashMap<u64, ResponseTx> = HashMap::new();
        std::mem::swap(&mut pending, &mut self.pending_requests);
        let found = pending.remove(&response.id);
        assert(pending@ =~= old(self)@.pending_requests.remove(response.id));
        std::mem::swap(&mut pending, &mut self.pending_requests);
        match found {
            Some(tx) => Some((tx, response.result)),
            None => None,
        }
    }

    /// Delivers a response of the peer to the handle that waits for it.
    /// A response that nobody waits for is dropped, and so is every
    /// response once the client is shutting down.
    pub fn process_response(&mut self, response: Response)
        ensures
            final(self)@ == old(self)@.answered(response.id),
            final(self)@.wf(),
    {
        match self.route_response(response) {
            Some((tx, result)) => {
                let _ = complete(tx, result);
            },
            None => {},
        }
    }

    /// Gives up every call that still waits for its outcome. The handles
    /// are dropped unresolved, which their holders see as a cancellation:
    /// neither a result nor an error of the peer.
    pub fn cancel(&mut self)
        ensures
            final(self)@ == old(self)@.cancelled(),
            final(self)@.wf(),
    {
        proof {
            use_type_invariant(&*self);
        }
        let mut pending: HashMap<u64, ResponseTx> = HashMap::new();
        std::mem::swap(&mut pending, &mut self.pending_requests);
        let mut waiting: Vec<AckTx> = Vec::new();
        std::mem::swap(&mut waiting, &mut self.pending_notifications);
    }

    /// Takes the handles of the notifications that wait to be flushed,
    /// oldest first.
    pub fn take_acks(&mut self) -> (r: Vec<AckTx>)
        ensures
            r@ == old(self)@.pending_notifications,
            final(self)@ == (InnerClientView {
                pending_notifications: Seq::empty(),
                ..old(self)@
            }),
            final(self)@.wf(),
    {
        proof {
            use_type_invariant(&*self);
        }
        let mut acks: Vec<AckTx> = Vec::new();
        std::mem::swap(&mut acks, &mut self.pending_notifications);
        acks
    }

    /// Tells every notification that waits to be flushed that it was
    /// sent, oldest first.
    pub fn acknowledge_notifications(&mut self)
        ensures
            final(self)@ == (InnerClientView {
                pending_notifications: Seq::empty(),
                ..old(self)@
            }),
            final(self)@.wf(),
    {
        let acks = self.take_acks();
        for ack in it: acks.into_iter() {
            let _ = complete(ack, ());
        }
    }
}

} // verus!
