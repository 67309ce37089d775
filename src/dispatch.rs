//! The dispatcher's decisions for one connection: which message to write
//! next, and when to release the connection. Writes are best effort: the
//! outcome of a write never changes what comes after it.
use vstd::prelude::*;

use crate::message::{ConnectionIntent, PROTOCOL_NUMBER, probe_message, probe_messages, Endpoint, EndpointModel, MessageModel, OutboundMessage};

verus! {

/// What became of one write attempt.
#[derive(Clone, Copy, Debug, PartialEq, Eq, Structural)]
pub enum WriteOutcome {
    Written,
    Failed,
}

/// What the dispatcher does next with the connection it holds.
#[derive(Clone, Debug)]
pub enum DispatchAction {
    Write(OutboundMessage),
    Release,
}

/// A dispatch action as plain values.
pub enum ActionModel {
    Write(MessageModel),
    Release,
}

impl View for DispatchAction {
    type V = ActionModel;

    open spec fn view(&self) -> ActionModel {
        match self {
            DispatchAction::Write(m) => ActionModel::Write(m@),
            DispatchAction::Release => ActionModel::Release,
        }
    }
}

/// The number of messages in a probe.
pub const PROBE_LEN: usize = 3;

/// The write sequence on one connection: the endpoint it announces and how
/// many messages have been attempted so far.
pub struct WriteSession {
    endpoint: Endpoint,
    attempted: usize,
}

/// A session as plain values.
pub struct SessionModel {
    pub endpoint: EndpointModel,
    pub attempted: nat,
}

impl View for WriteSession {
    type V = SessionModel;

    closed spec fn view(&self) -> SessionModel {
        SessionModel { endpoint: self.endpoint@, attempted: self.attempted as nat }
    }
}

/// The session in which nothing has been written yet.
pub open spec fn session_start(ep: EndpointModel) -> SessionModel {
    SessionModel { endpoint: ep, attempted: 0 }
}

/// What a session does next: the next message of the probe, or the release
/// of the connection once all three were attempted.
pub open spec fn session_action(s: SessionModel) -> ActionModel {
    if s.attempted < 3 {
        ActionModel::Write(probe_messages(s.endpoint)[s.attempted as int])
    } else {
        ActionModel::Release
    }
}

/// The session after a write attempt, whatever its outcome.
pub open spec fn session_after(s: SessionModel, outcome: WriteOutcome) -> SessionModel {
    SessionModel { endpoint: s.endpoint, attempted: s.attempted + 1 }
}

/// The messages written when the session `s` is driven by `outcomes`, one
/// outcome per write, until it releases the connection or the outcomes run
/// out.
pub open spec fn session_writes(s: SessionModel, outcomes: Seq<WriteOutcome>) -> Seq<MessageModel>
    decreases outcomes.len(),
{
    match session_action(s) {
        ActionModel::Write(m) => if outcomes.len() == 0 {
            Seq::empty()
        } else {
            seq![m] + session_writes(session_after(s, outcomes[0]), outcomes.drop_first())
        },
        ActionModel::Release => Seq::empty(),
    }
}

impl WriteSession {
    pub closed spec fn wf(&self) -> bool {
        self.attempted <= PROBE_LEN
    }

    /// A session on a freshly delivered connection.
    pub fn new(endpoint: Endpoint) -> (r: WriteSession)
        ensures
            r.wf(),
            r@ == session_start(endpoint@),
    {
        WriteSession { endpoint, attempted: 0 }
    }

    /// The next thing to do with the connection.
    pub fn next_action(&self) -> (r: DispatchAction)
        requires
            self.wf(),
        ensures
            r@ == session_action(self@),
    {
        if self.attempted < PROBE_LEN {
            DispatchAction::Write(probe_message(&self.endpoint, self.attempted))
        } else {
            DispatchAction::Release
        }
    }

    /// Whether the connection is due for release.
    pub fn is_finished(&self) -> (r: bool)
        ensures
            r == session_action(self@) is Release,
    {
        self.attempted >= PROBE_LEN
    }

    /// Records the outcome of the write that `next_action` asked for. The
    /// outcome is taken and dropped: a failed write moves the session on
    /// exactly as a successful one does.
    pub fn record(&mut self, outcome: WriteOutcome)
        requires
            old(self).wf(),
            session_action(old(self)@) is Write,
        ensures
            final(self).wf(),
            final(self)@ == session_after(old(self)@, outcome),
    {
        self.attempted = self.attempted + 1;
    }
}

/// Every delivered connection gets exactly the three probe messages, in
/// order, whatever the outcome of each write.
pub proof fn lemma_probe_written_in_order(ep: EndpointModel, outcomes: Seq<WriteOutcome>)
    requires
        outcomes.len() >= 3,
    ensures
        session_writes(session_start(ep), outcomes) == probe_messages(ep),
{
    let s0 = session_start(ep);
    let s1 = session_after(s0, outcomes[0]);
    let o1 = outcomes.drop_first();
    let s2 = session_after(s1, o1[0]);
    let o2 = o1.drop_first();
    let s3 = session_after(s2, o2[0]);
    let o3 = o2.drop_first();
    assert(session_writes(s3, o3) == Seq::<MessageModel>::empty());
    assert(session_writes(s2, o2) == seq![probe_messages(ep)[2]]);
    assert(session_writes(s1, o1) == seq![probe_messages(ep)[1], probe_messages(ep)[2]]);
    assert(session_writes(s0, outcomes) =~= probe_messages(ep));
}

/// Whatever a session writes, a handshake in it always announces the status
/// sub-protocol with the fixed protocol revision and the session's own host
/// and port, and a ping in it always carries time zero.
pub proof fn lemma_written_fields_fixed(s: SessionModel)
    ensures
        session_action(s) matches ActionModel::Write(MessageModel::Intention { protocol_version, hostname, port, intention })
            ==> protocol_version == PROTOCOL_NUMBER && hostname == s.endpoint.hostname && port == s.endpoint.port
            && intention == ConnectionIntent::Status,
        session_action(s) matches ActionModel::Write(MessageModel::PingRequest { time }) ==> time == 0,
{
}

/// A failed write of message `k` still leads to an attempt of message
/// `k + 1`.
pub proof fn lemma_failure_does_not_skip(s: SessionModel)
    requires
        s.attempted + 1 < 3,
    ensures
        session_action(session_after(s, WriteOutcome::Failed))
            == ActionModel::Write(probe_messages(s.endpoint)[s.attempted + 1 as int]),
        session_action(session_after(s, WriteOutcome::Failed))
            == session_action(session_after(s, WriteOutcome::Written)),
{
}

} // verus!
