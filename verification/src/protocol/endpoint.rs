//! The hub of a connection: one client side and one server side, driven
//! in scheduling turns by whoever owns the byte stream.
//!
//! The owner of the stream does what [`Endpoint::poll`] tells it to do and
//! reports what came of it. A turn begins with [`Event::Wake`]. First every
//! frame that the stream has is read and dispatched with
//! [`Endpoint::handle_message`]. Then the responses that are ready leave, as
//! far as the sink takes them; while the sink holds responses back, nothing
//! else is done. Last the client's outgoing traffic is framed with
//! [`Endpoint::process_outgoing`] and the sink is flushed. The turn ends
//! with [`Action::Yield`].

use vstd::prelude::*;
use crate::channel::{AckTx, ResponseTx};
use crate::protocol::client::{
    spec_notification_frames, spec_request_frames, InnerClient, InnerClientView, Polled,
};
use crate::protocol::message::{spec_messages, Message, MessageView, Notification, Request};
use crate::protocol::server::{Call, Server, ServerView};

verus! {

/// How a scheduling turn of an endpoint ends.
#[derive(Clone, Copy, Debug, PartialEq, Eq, Structural)]
pub enum Progress {
    /// The endpoint is done: the peer closed the stream, or the client
    /// asked for the end.
    Ready,
    /// The endpoint goes on with the next turn.
    NotReady,
}

/// What the owner of the stream reports to the endpoint.
#[derive(Clone, Copy, Debug, PartialEq, Eq, Structural)]
pub enum Event {
    /// A turn begins.
    Wake,
    /// The stream was read until it had no more frames, and the frames
    /// were dispatched. `closed` tells that the peer closed the stream.
    StreamRead { closed: bool },
    /// The responses that were ready were written as far as the sink took
    /// them. `flushed` tells that all of them left and the sink is
    /// flushed.
    ResponsesSent { flushed: bool },
    /// The client's outgoing traffic was framed and written as far as the
    /// sink took it.
    OutgoingSent,
    /// The sink was asked to flush. `done` tells that it did.
    Flushed { done: bool },
}

/// What the endpoint tells the owner of the stream to do next.
#[derive(Clone, Copy, Debug, PartialEq, Eq, Structural)]
pub enum Action {
    /// Read the stream until it has no more frames, and dispatch them.
    ReadStream,
    /// Collect the results of the handlers that finished, write the
    /// responses that are ready as far as the sink takes them, and flush.
    SendResponses,
    /// Frame the client's outgoing traffic and write it as far as the sink
    /// takes it.
    SendOutgoing,
    /// Ask the sink to flush.
    Flush,
    /// End the turn.
    Yield(Progress),
}

/// The client's outgoing traffic of one turn, as read from its channels.
pub struct Outgoing {
    pub requests: Vec<(Request, ResponseTx)>,
    pub requests_closed: bool,
    pub notifications: Vec<(Notification, AckTx)>,
    pub notifications_closed: bool,
    pub shutdown: Polled<()>,
}

/// Both sides of one connection.
pub struct Endpoint {
    pub client: InnerClient,
    pub server: Server,
}

/// What is to be done after `event`, for an endpoint whose client side is
/// `client`. A closed stream ends the endpoint. Responses that the sink
/// holds back end the turn, and leave everything else to the next. After
/// the last flush of the turn the endpoint ends exactly when its client
/// side is shutting down.
pub open spec fn spec_poll(client: InnerClientView, event: Event) -> Action {
    match event {
        Event::Wake => Action::ReadStream,
        Event::StreamRead { closed } => if closed {
            Action::Yield(Progress::Ready)
        } else {
            Action::SendResponses
        },
        Event::ResponsesSent { flushed } => if flushed {
            Action::SendOutgoing
        } else {
            Action::Yield(Progress::NotReady)
        },
        Event::OutgoingSent => Action::Flush,
        Event::Flushed { done } => if client.shutting_down {
            Action::Yield(Progress::Ready)
        } else {
            Action::Yield(Progress::NotReady)
        },
    }
}

/// The client side after `event`, for an endpoint whose client side was
/// `client`. A flush that went through acknowledges the notifications
/// sent so far. Where the event ends the endpoint, every call that still
/// waits is given up.
pub open spec fn spec_client_after(client: InnerClientView, event: Event) -> InnerClientView {
    let flushed = if event == (Event::Flushed { done: true }) {
        InnerClientView { pending_notifications: Seq::empty(), ..client }
    } else {
        client
    };
    if spec_poll(client, event) == Action::Yield(Progress::Ready) {
        flushed.cancelled()
    } else {
        flushed
    }
}

/// A client side that is shutting down drops a response that comes late,
/// whatever its id, and the turn that comes to its last flush ends the
/// endpoint, whether the sink flushed or not. Nothing waits after that.
pub proof fn lemma_shutdown_ends(client: InnerClientView, id: u64, done: bool)
    requires
        client.shutting_down,
    ensures
        client.awaited(id) is None,
        client.answered(id) == client,
        spec_poll(client.answered(id), Event::Flushed { done }) == Action::Yield(Progress::Ready),
        spec_client_after(client, Event::Flushed { done }).pending_requests == Map::<
            u64,
            ResponseTx,
        >::empty(),
        spec_client_after(client, Event::Flushed { done }).pending_notifications == Seq::<
            AckTx,
        >::empty(),
{
}

impl Endpoint {
    /// The endpoint of a fresh connection.
    pub fn new() -> (r: Endpoint)
        ensures
            r.client@ == InnerClientView::start(),
            r.server@ == ServerView::start(),
    {
        Endpoint { client: InnerClient::new(), server: Server::new() }
    }

    /// Dispatches a frame of the peer by its kind. A request and a
    /// notification go to the server side and give the call for the
    /// service. A response goes to the client side, which resolves the
    /// handle that waits for it.
    pub fn handle_message(&mut self, msg: Message) -> (r: Option<Call>)
        ensures
            match msg {
                Message::Request(request) => {
                    &&& r matches Some(call)
                    &&& call.id == Some(request.id)
                    &&& call.method == request.method
                    &&& call.params == request.params
                    &&& final(self).server@ == old(self).server@.requested(request.id)
                    &&& final(self).client@ == old(self).client@
                },
                Message::Notification(notification) => {
                    &&& r matches Some(call)
                    &&& call.id is None
                    &&& call.method == notification.method
                    &&& call.params == notification.params
                    &&& final(self).server@ == old(self).server@
                    &&& final(self).client@ == old(self).client@
                },
                Message::Response(response) => {
                    &&& r is None
                    &&& final(self).server@ == old(self).server@
                    &&& final(self).client@ == old(self).client@.answered(response.id)
                },
            },
    {
        match msg {
            Message::Request(request) => Some(self.server.process_request(request)),
            Message::Notification(notification) => Some(
                self.server.process_notification(notification),
            ),
            Message::Response(response) => {
                self.client.process_response(response);
                None
            },
        }
    }

    /// Frames the client's outgoing traffic of a turn: first the requests,
    /// then the notifications, each kind in the order of submission. Then
    /// the shutdown channel is looked at.
    pub fn process_outgoing(&mut self, outgoing: Outgoing) -> (r: Vec<Message>)
        requires
            old(self).client@.request_id + outgoing.requests.len() <= u64::MAX,
        ensures
            spec_messages(r@) == spec_request_frames(
                old(self).client@.request_id,
                outgoing.requests@,
            ) + spec_notification_frames(outgoing.notifications@),
            final(self).server@ == old(self).server@,
            final(self).client@ == (InnerClientView {
                shutting_down: old(self).client@.shutting_down || outgoing.requests_closed
                    || outgoing.notifications_closed || !(outgoing.shutdown is Pending),
                pending_notifications: old(self).client@.pending_notifications
                    + outgoing.notifications@.map_values(|e: (Notification, AckTx)| e.1),
                ..old(self).client@.registered(outgoing.requests@)
            }),
    {
        let mut frames = self.client.process_requests(outgoing.requests, outgoing.requests_closed);
        let mut more = self.client.process_notifications(
            outgoing.notifications,
            outgoing.notifications_closed,
        );
        self.client.process_shutdown_signals(outgoing.shutdown);
        let ghost first = frames@;
        let ghost second = more@;
        frames.append(&mut more);
        assert(spec_messages(first + second) =~= spec_messages(first) + spec_messages(second));
        frames
    }

    /// Takes note of a flush of the sink. A flush that went through tells
    /// every notification sent so far that it left, oldest first. One that
    /// did not changes nothing.
    pub fn flush(&mut self, flushed: bool)
        ensures
            final(self).server@ == old(self).server@,
            final(self).client@ == if flushed {
                InnerClientView { pending_notifications: Seq::empty(), ..old(self).client@ }
            } else {
                old(self).client@
            },
    {
        if flushed {
            self.client.acknowledge_notifications();
        }
    }

    /// Takes the report of the owner of the stream and tells it what to
    /// do next. The report of a flush that went through acknowledges the
    /// notifications sent so far. Where the endpoint ends, the calls that
    /// still wait are cancelled. No other report changes anything.
    pub fn poll(&mut self, event: Event) -> (r: Action)
        ensures
            r == spec_poll(old(self).client@, event),
            final(self).server@ == old(self).server@,
            final(self).client@ == spec_client_after(old(self).client@, event),
    {
        match event {
            Event::Wake => Action::ReadStream,
            Event::StreamRead { closed } => if closed {
                self.client.cancel();
                Action::Yield(Progress::Ready)
            } else {
                Action::SendResponses
            },
            Event::ResponsesSent { flushed } => if flushed {
                Action::SendOutgoing
            } else {
                Action::Yield(Progress::NotReady)
            },
            Event::OutgoingSent => Action::Flush,
            Event::Flushed { done } => {
                self.flush(done);
                if self.client.is_shutting_down() {
                    self.client.cancel();
                    Action::Yield(Progress::Ready)
                } else {
                    Action::Yield(Progress::NotReady)
                }
            },
        }
    }
}

} // verus!
