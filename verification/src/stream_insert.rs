//! The streaming insert session: a bounded queue between the callers that
//! write and the task that forwards to the wire, and the one result of the
//! whole stream.
//!
//! The session decides; it neither waits nor sends. A caller whose message
//! found no free slot waits for one and offers it again. The forwarding task
//! asks the session what to do next, does it, and reports how it ended.

use std::collections::VecDeque;
use vstd::prelude::*;
use crate::api::v1::{
    AuthHeader, GreptimeRequest, GreptimeResponse, InsertRequest, InsertRequests, Request,
    RowInsertRequests,
};
use crate::client::DatabaseClient;
use crate::database::{
    affected_rows, credential_of, dbname_of, empty_response_message, envelope, header_of,
    spec_affected_rows, to_rpc_request,
};
use crate::error::{diagnostic, is_diagnostic_of, Error, ErrorKind};

verus! {

/// What became of a message that a caller offered.
#[derive(Debug, PartialEq)]
pub enum Offer {
    /// The message is in the queue.
    Accepted,
    /// The queue is full. The message comes back as it was offered: the
    /// caller waits until a slot is free and offers it again.
    Full(Request),
}

/// What the forwarding task does next.
#[derive(Debug, PartialEq)]
pub enum Forward {
    /// Send this message, the oldest of the queue, as the next of the stream.
    Message(GreptimeRequest),
    /// Nothing to send yet: wait for a message or for the end.
    Wait,
    /// Nothing more to send: close the sending half of the stream.
    Close,
}

/// How the forwarding task ended.
#[derive(Debug)]
pub enum TaskOutcome {
    /// The stream was closed and the server answered.
    Completed(GreptimeResponse),
    /// The transport failed before the stream was open: no message was asked
    /// for.
    Unopened(tonic::Status),
    /// The transport failed once the stream was open, while messages were
    /// sent or at its close.
    Failed(tonic::Status),
    /// The task itself was cut short; the text says how.
    Aborted(String),
}

impl TaskOutcome {
    /// How the forwarding task ended.
    ///
    /// `call` is what the call of the stream came to, or the text of what cut
    /// it short. `opened` says whether the transport ever asked for a message
    /// of the stream: a status that came before that is a failure to open
    /// the stream, one that came later is a failure of the stream itself.
    pub open spec fn spec_joined(
        opened: bool,
        call: Result<Result<GreptimeResponse, tonic::Status>, String>,
    ) -> TaskOutcome {
        match call {
            Err(text) => TaskOutcome::Aborted(text),
            Ok(Err(status)) => if opened {
                TaskOutcome::Failed(status)
            } else {
                TaskOutcome::Unopened(status)
            },
            Ok(Ok(response)) => TaskOutcome::Completed(response),
        }
    }

    /// How the forwarding task ended, from whether the stream was opened and
    /// from what its call came to.
    pub fn joined(
        opened: bool,
        call: Result<Result<GreptimeResponse, tonic::Status>, String>,
    ) -> (outcome: TaskOutcome)
        ensures
            outcome == TaskOutcome::spec_joined(opened, call),
    {
        match call {
            Err(text) => TaskOutcome::Aborted(text),
            Ok(Err(status)) => if opened {
                TaskOutcome::Failed(status)
            } else {
                TaskOutcome::Unopened(status)
            },
            Ok(Ok(response)) => TaskOutcome::Completed(response),
        }
    }
}

/// Where a session stands.
#[derive(Clone, Copy, Debug, PartialEq, Eq, Structural)]
pub enum SessionState {
    /// Messages are accepted and forwarded.
    Open,
    /// The writing side is closed; what waits is still forwarded.
    Closing,
    /// The forwarding task has ended; nothing is accepted or forwarded.
    Ended,
}

/// The text of the failure to write to a session whose task has ended.
pub open spec fn channel_closed_message() -> Seq<char> {
    "channel closed"@
}

/// The text of the failure to write to a session that is being finished.
pub open spec fn session_finished_message() -> Seq<char> {
    "streaming session is finished"@
}

/// One open stream of inserts.
pub struct StreamInsertor {
    client: DatabaseClient,
    auth_header: Option<AuthHeader>,
    dbname: String,
    capacity: usize,
    queue: VecDeque<GreptimeRequest>,
    closing: bool,
    running: bool,
    sent: Ghost<Seq<GreptimeRequest>>,
    forwarded: Ghost<Seq<GreptimeRequest>>,
}

impl StreamInsertor {
    /// What it takes to talk to the peer that the stream is opened at.
    pub closed spec fn spec_client(&self) -> DatabaseClient {
        self.client
    }

    pub closed spec fn spec_auth_header(&self) -> Option<AuthHeader> {
        self.auth_header
    }

    pub closed spec fn spec_dbname(&self) -> String {
        self.dbname
    }

    /// Number of messages that the queue holds at most.
    pub closed spec fn spec_capacity(&self) -> nat {
        self.capacity as nat
    }

    /// The messages in the queue, oldest first.
    pub closed spec fn pending(&self) -> Seq<GreptimeRequest> {
        self.queue@
    }

    /// Every message that the session accepted, in the order of acceptance.
    pub closed spec fn sent(&self) -> Seq<GreptimeRequest> {
        self.sent@
    }

    /// Every message that was handed to the forwarding task, in the order in
    /// which it goes to the wire.
    pub closed spec fn forwarded(&self) -> Seq<GreptimeRequest> {
        self.forwarded@
    }

    /// Whether the writing side was closed.
    pub closed spec fn spec_is_closing(&self) -> bool {
        self.closing
    }

    /// Whether the forwarding task is still at work.
    pub closed spec fn spec_is_running(&self) -> bool {
        self.running
    }

    /// Where the session stands.
    pub open spec fn spec_state(&self) -> SessionState {
        if !self.spec_is_running() {
            SessionState::Ended
        } else if self.spec_is_closing() {
            SessionState::Closing
        } else {
            SessionState::Open
        }
    }

    /// Whether the session takes messages: its writing side is open and its
    /// task at work.
    pub open spec fn is_open(&self) -> bool {
        !self.spec_is_closing() && self.spec_is_running()
    }

    /// Whether the queue has a slot for one more message.
    pub open spec fn has_free_slot(&self) -> bool {
        self.pending().len() < self.spec_capacity()
    }

    /// The envelope that this session puts a payload in.
    pub open spec fn sealed(&self, request: Request) -> GreptimeRequest {
        envelope(self.spec_auth_header(), self.spec_dbname(), request)
    }

    /// Holds of every session that this module hands out: the queue keeps to
    /// its capacity; what was accepted is what was forwarded followed by what
    /// still waits, so nothing is lost and nothing overtakes; and every
    /// message carries the header of the session.
    pub open spec fn wf(&self) -> bool {
        &&& self.spec_capacity() > 0
        &&& self.pending().len() <= self.spec_capacity()
        &&& self.sent() == self.forwarded() + self.pending()
        &&& forall|i: int|
            0 <= i < self.sent().len() ==> (#[trigger] self.sent()[i]).header == Some(
                header_of(self.spec_auth_header(), self.spec_dbname()),
            )
    }

    /// Whether `other` is this session but for its messages.
    pub open spec fn same_session(&self, other: &StreamInsertor) -> bool {
        &&& self.spec_client() == other.spec_client()
        &&& self.spec_auth_header() == other.spec_auth_header()
        &&& self.spec_dbname() == other.spec_dbname()
        &&& self.spec_capacity() == other.spec_capacity()
    }

    /// Whether `other` is this session with the same messages at the same
    /// places.
    pub open spec fn same_messages(&self, other: &StreamInsertor) -> bool {
        &&& self.pending() == other.pending()
        &&& self.sent() == other.sent()
        &&& self.forwarded() == other.forwarded()
    }

    /// Opens a session at the peer of `client`, with an empty queue of
    /// `channel_size` slots and the forwarding task at work.
    pub fn new(
        client: DatabaseClient,
        dbname: String,
        auth_header: Option<AuthHeader>,
        channel_size: usize,
    ) -> (session: StreamInsertor)
        requires
            channel_size > 0,
        ensures
            session.wf(),
            session.spec_client() == client,
            session.spec_dbname() == dbname,
            session.spec_auth_header() == auth_header,
            session.spec_capacity() == channel_size,
            session.pending().len() == 0,
            session.sent().len() == 0,
            session.forwarded().len() == 0,
            !session.spec_is_closing(),
            session.spec_is_running(),
    {
        let session = StreamInsertor {
            client,
            auth_header,
            dbname,
            capacity: channel_size,
            queue: VecDeque::new(),
            closing: false,
            running: true,
            sent: Ghost(Seq::empty()),
            forwarded: Ghost(Seq::empty()),
        };
        session
    }

    pub fn client(&self) -> (client: &DatabaseClient)
        ensures
            *client == self.spec_client(),
    {
        &self.client
    }

    pub fn capacity(&self) -> (capacity: usize)
        ensures
            capacity == self.spec_capacity(),
    {
        self.capacity
    }

    /// Number of messages that wait in the queue.
    pub fn pending_len(&self) -> (len: usize)
        ensures
            len == self.pending().len(),
    {
        self.queue.len()
    }

    #[verifier::when_used_as_spec(spec_is_closing)]
    pub fn is_closing(&self) -> (closing: bool)
        ensures
            closing == self.spec_is_closing(),
    {
        self.closing
    }

    #[verifier::when_used_as_spec(spec_is_running)]
    pub fn is_running(&self) -> (running: bool)
        ensures
            running == self.spec_is_running(),
    {
        self.running
    }

    #[verifier::when_used_as_spec(spec_state)]
    pub fn state(&self) -> (state: SessionState)
        ensures
            state == self.spec_state(),
    {
        if !self.running {
            SessionState::Ended
        } else if self.closing {
            SessionState::Closing
        } else {
            SessionState::Open
        }
    }

    /// What becomes of a payload that is offered to the session `self`, which
    /// is `after` once the offer was made.
    ///
    /// The session itself, its state and what was forwarded stay as they are.
    /// A session that is not open refuses the payload, and nothing changes. An
    /// open session accepts the payload if and only if its queue has a free
    /// slot: the payload then joins the queue behind all that wait, in the
    /// envelope of the session. From a full queue the payload comes back as it
    /// was offered, and nothing changes.
    pub open spec fn offered(
        &self,
        after: &StreamInsertor,
        request: Request,
        outcome: Result<Offer, Error>,
    ) -> bool {
        &&& self.same_session(after)
        &&& after.spec_state() == self.spec_state()
        &&& after.forwarded() == self.forwarded()
        &&& (outcome is Err <==> !self.is_open())
        &&& ((outcome matches Ok(Offer::Accepted)) <==> self.is_open() && self.has_free_slot())
        &&& match outcome {
            Ok(Offer::Accepted) => {
                &&& after.pending() == self.pending().push(self.sealed(request))
                &&& after.sent() == self.sent().push(self.sealed(request))
            },
            Ok(Offer::Full(back)) => {
                &&& self.pending().len() == self.spec_capacity()
                &&& back == request
                &&& self.same_messages(after)
            },
            Err(error) => {
                &&& error.is_streaming(
                    if self.spec_is_closing() {
                        session_finished_message()
                    } else {
                        channel_closed_message()
                    },
                )
                &&& self.same_messages(after)
            },
        }
    }

    /// Offers a payload to the session.
    ///
    /// A session that is being finished, or whose task has ended, refuses it
    /// at once. Otherwise the payload is accepted if and only if the queue
    /// has a free slot. From a full queue it comes back unchanged and the
    /// session stays as it was, so that no message is dropped and none
    /// overtakes another; the caller waits and offers it again, and only the
    /// forwarding of a message frees a slot.
    pub fn send(&mut self, request: Request) -> (outcome: Result<Offer, Error>)
        requires
            old(self).wf(),
        ensures
            final(self).wf(),
            old(self).offered(final(self), request, outcome),
    {
        if self.closing {
            return Err(
                Error::ClientStreaming { err_msg: "streaming session is finished".to_owned() },
            );
        }
        if !self.running {
            return Err(Error::ClientStreaming { err_msg: "channel closed".to_owned() });
        }
        if self.queue.len() >= self.capacity {
            return Ok(Offer::Full(request));
        }
        let message = to_rpc_request(&self.auth_header, &self.dbname, request);
        self.queue.push_back(message);
        proof {
            self.sent@ = self.sent@.push(message);
        }
        Ok(Offer::Accepted)
    }

    /// Offers a batch of column-oriented inserts: see [`StreamInsertor::send`].
    pub fn insert(&mut self, requests: Vec<InsertRequest>) -> (outcome: Result<Offer, Error>)
        requires
            old(self).wf(),
        ensures
            final(self).wf(),
            old(self).offered(
                final(self),
                Request::Inserts((InsertRequests { inserts: requests })),
                outcome,
            ),
    {
        self.send(Request::Inserts(InsertRequests { inserts: requests }))
    }

    /// Offers a batch of row-oriented inserts: see [`StreamInsertor::send`].
    pub fn row_insert(&mut self, requests: RowInsertRequests) -> (outcome: Result<Offer, Error>)
        requires
            old(self).wf(),
        ensures
            final(self).wf(),
            old(self).offered(final(self), Request::RowInserts(requests), outcome),
    {
        self.send(Request::RowInserts(requests))
    }

    /// Says what the forwarding task does next, and takes the message to send
    /// out of the queue.
    ///
    /// While the task is at work, the oldest message of the queue is the next
    /// of the stream. With an empty queue the task waits, until the writing
    /// side is closed: then it closes the stream. A task that has ended sends
    /// nothing more.
    pub fn next_message(&mut self) -> (forward: Forward)
        requires
            old(self).wf(),
        ensures
            final(self).wf(),
            old(self).same_session(final(self)),
            final(self).spec_state() == old(self).spec_state(),
            final(self).sent() == old(self).sent(),
            match forward {
                Forward::Message(message) => {
                    &&& old(self).spec_is_running()
                    &&& old(self).pending().len() > 0
                    &&& message == old(self).pending()[0]
                    &&& final(self).pending() == old(self).pending().subrange(
                        1,
                        old(self).pending().len() as int,
                    )
                    &&& final(self).forwarded() == old(self).forwarded().push(message)
                },
                Forward::Wait => {
                    &&& old(self).spec_is_running()
                    &&& old(self).pending().len() == 0
                    &&& !old(self).spec_is_closing()
                    &&& old(self).same_messages(final(self))
                },
                Forward::Close => {
                    &&& !old(self).spec_is_running() || (old(self).pending().len() == 0
                        && old(self).spec_is_closing())
                    &&& old(self).same_messages(final(self))
                },
            },
    {
        if !self.running {
            return Forward::Close;
        }
        match self.queue.pop_front() {
            Some(message) => {
                proof {
                    self.forwarded@ = self.forwarded@.push(message);
                    assert(self.sent() =~= self.forwarded() + self.pending());
                }
                Forward::Message(message)
            },
            None => {
                if self.closing {
                    Forward::Close
                } else {
                    Forward::Wait
                }
            },
        }
    }

    /// Closes the writing side: no message is accepted any more, and the task
    /// closes the stream once the queue is empty.
    pub fn close(&mut self)
        requires
            old(self).wf(),
        ensures
            final(self).wf(),
            old(self).same_session(final(self)),
            old(self).same_messages(final(self)),
            final(self).spec_is_closing(),
            final(self).spec_is_running() == old(self).spec_is_running(),
    {
        self.closing = true;
    }

    /// Records that the forwarding task has ended: from now on every message
    /// is refused at once.
    pub fn task_ended(&mut self)
        requires
            old(self).wf(),
        ensures
            final(self).wf(),
            old(self).same_session(final(self)),
            old(self).same_messages(final(self)),
            final(self).spec_is_closing() == old(self).spec_is_closing(),
            !final(self).spec_is_running(),
    {
        self.running = false;
    }

    /// Ends the session with the one result of the whole stream.
    ///
    /// Where the server answered, the result is the count that it reports,
    /// and a failure if it reports none. Where the transport failed, the
    /// result is a failure that says the diagnostic of the status: a failure
    /// to connect if the stream was never open, and a failure of the stream
    /// if it was. Where the task was cut short, the result is a failure of
    /// the stream that says how. Whatever had been sent, a failure is never
    /// a count.
    pub fn finish(self, outcome: TaskOutcome) -> (rows: Result<u32, Error>)
        ensures
            rows is Ok <==> (outcome matches TaskOutcome::Completed(response)
                && spec_affected_rows(response) is Some),
            match outcome {
                TaskOutcome::Completed(response) => match spec_affected_rows(response) {
                    Some(value) => rows == Ok::<u32, Error>(value),
                    None => rows matches Err(error) && error.is_illegal_response(
                        empty_response_message(),
                    ),
                },
                TaskOutcome::Unopened(status) => rows matches Err(error) && error is CreateChannel
                    && error.spec_kind() == ErrorKind::Connection && is_diagnostic_of(
                    status,
                    error.said(),
                ),
                TaskOutcome::Failed(status) => rows matches Err(error) && error is ClientStreaming
                    && error.spec_kind() == ErrorKind::Streaming && is_diagnostic_of(
                    status,
                    error.said(),
                ),
                TaskOutcome::Aborted(text) => rows matches Err(error) && error.is_streaming(text@)
                    && error.spec_kind() == ErrorKind::Streaming,
            },
    {
        match outcome {
            TaskOutcome::Completed(response) => affected_rows(response),
            TaskOutcome::Unopened(status) => Err(
                Error::CreateChannel { source: diagnostic(&status) },
            ),
            TaskOutcome::Failed(status) => Err(
                Error::ClientStreaming { err_msg: diagnostic(&status) },
            ),
            TaskOutcome::Aborted(text) => Err(Error::ClientStreaming { err_msg: text }),
        }
    }
}

/// The wire sees the messages in the order in which they were accepted: what
/// was forwarded is the beginning of what was accepted, what waits is the
/// rest in the same order, and once nothing waits the two are equal.
pub proof fn lemma_wire_order(session: StreamInsertor)
    requires
        session.wf(),
    ensures
        session.forwarded().is_prefix_of(session.sent()),
        session.sent().len() == session.forwarded().len() + session.pending().len(),
        forall|i: int|
            0 <= i < session.forwarded().len() ==> session.forwarded()[i] == session.sent()[i],
        forall|i: int|
            0 <= i < session.pending().len() ==> session.pending()[i] == session.sent()[
                session.forwarded().len() + i
            ],
        session.pending().len() == 0 ==> session.forwarded() == session.sent(),
{
}

/// No offer frees a slot. Whatever is offered to a session whose queue is
/// full, it is not accepted and the queue is as full afterwards, with the
/// same messages at the same places: a caller that waits gets its turn only
/// after a message was forwarded.
pub proof fn lemma_offer_frees_no_slot(
    before: StreamInsertor,
    after: StreamInsertor,
    request: Request,
    outcome: Result<Offer, Error>,
)
    requires
        before.wf(),
        before.offered(&after, request, outcome),
    ensures
        after.pending().len() >= before.pending().len(),
        before.pending().is_prefix_of(after.pending()),
        !before.has_free_slot() ==> !(outcome matches Ok(Offer::Accepted))
            && !after.has_free_slot() && before.same_messages(&after),
{
}

/// Every message of a session carries the header of the session: whoever
/// reads any of them finds the credential and the database name that the
/// session was opened with.
pub proof fn lemma_one_header(session: StreamInsertor, i: int)
    requires
        session.wf(),
        0 <= i < session.sent().len(),
    ensures
        session.sent()[i].header == Some(
            header_of(session.spec_auth_header(), session.spec_dbname()),
        ),
        dbname_of(session.sent()[i]) == Some(session.spec_dbname()),
        credential_of(session.sent()[i]) == match session.spec_auth_header() {
            Some(header) => header.auth_scheme,
            None => None,
        },
{
}

} // verus!
