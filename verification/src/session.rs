//! Call orchestrator: the state machine that drives the fixed four-step
//! exchange of one call — send the invite, parse the challenge from the
//! response, send the authenticated invite, hold for the ring duration, and
//! send the cancel. The machine owns no transport: each step hands its
//! caller the next action (send a message and read the reply, sleep, stop),
//! and the caller reports back what happened. Every call runs the sequence
//! exactly once; a parse failure is fatal and ends the machine in `Failed`.
use vstd::prelude::*;
use crate::{AuthChallenge, SipCallData, SipError};
use crate::digest::{compute, spec_digest};
use crate::message::{
    build_authenticated_invite,
    build_cancel,
    build_invite,
    build_uri,
    get_default_sip_header,
    spec_authenticated_invite,
    spec_cancel,
    spec_default_header,
    spec_invite,
    spec_uri,
};
use crate::parse::{first_match_from, parse_response, spec_parse_response};
use vstd::utf8::{decode_utf8, valid_utf8};

verus! {

/// The states of one call, visited in order and never revisited.
#[derive(Clone, Copy, Debug, PartialEq, Eq, Structural)]
pub enum CallState {
    Idle,
    FirstInviteSent,
    ChallengeReceived,
    AuthenticatedInviteSent,
    Ringing,
    Cancelled,
    Done,
    Failed,
}

/// What the transport runner reports to the orchestrator: the start of the
/// call, the raw bytes of one response, a go-ahead where no outside work was
/// asked for, or the end of the ring hold.
pub enum Event {
    Start,
    Response(Vec<u8>),
    Proceed,
    Slept,
}

/// What the orchestrator asks its caller to do next: write a message to the
/// transport and read one response, come straight back, hold for the given
/// number of milliseconds, or close the connection — the call is complete.
pub enum Action {
    SendThenReceive(String),
    Continue,
    Sleep(u64),
    Finish,
}

/// The ring duration in milliseconds: as configured, or 2000 when unset.
pub open spec fn spec_ring_duration(d: Option<u64>) -> u64 {
    match d {
        Some(m) => m,
        None => 2000,
    }
}

/// Which event each state expects; anything else is a caller error.
pub open spec fn expects(state: CallState, event: Event) -> bool {
    match (state, event) {
        (CallState::Idle, Event::Start) => true,
        (CallState::FirstInviteSent, Event::Response(_)) => true,
        (CallState::ChallengeReceived, Event::Proceed) => true,
        (CallState::AuthenticatedInviteSent, Event::Response(_)) => true,
        (CallState::Ringing, Event::Slept) => true,
        (CallState::Cancelled, Event::Response(_)) => true,
        _ => false,
    }
}

/// The challenge as a pair of texts.
pub open spec fn challenge_view(c: Option<AuthChallenge>) -> Option<(Seq<char>, Seq<char>)> {
    match c {
        Some(a) => Some((a.realm@, a.nonce@)),
        None => None,
    }
}

/// One call in progress: the immutable call data, the per-call transaction
/// state (call identifier, ring duration, parsed challenge), and the header
/// block and request URI derived once so that all three messages of the
/// call belong to the same dialog.
pub struct CallSession {
    pub data: SipCallData,
    pub call_id: String,
    pub ring_millis: u64,
    pub uri: String,
    pub header: String,
    pub state: CallState,
    pub challenge: Option<AuthChallenge>,
}

impl CallSession {
    /// Invariant: the URI and header block are the ones derived from the
    /// call data and the call identifier, and a session that has received
    /// its challenge holds one.
    pub open spec fn wf(&self) -> bool {
        &&& self.uri@ == spec_uri(self.data.username@, self.data.server@)
        &&& self.header@ == spec_default_header(
            self.data.source@,
            self.data.server@,
            self.data.target@,
            self.data.username@,
            self.call_id@,
        )
        &&& (self.state is ChallengeReceived ==> self.challenge is Some)
    }

    /// Opens a fresh session in `Idle`: derives the dialog's URI and header
    /// block and fixes the ring duration, defaulting to 2000 milliseconds
    /// where none is configured.
    pub fn new(data: SipCallData, call_id: &String, ring_millis: Option<u64>) -> (s: CallSession)
        requires
            data.well_formed(),
        ensures
            s.data.well_formed(),
            s.wf(),
            s.data == data,
            s.call_id@ == call_id@,
            s.ring_millis == spec_ring_duration(ring_millis),
            s.state is Idle,
            s.challenge is None,
    {
        let uri = build_uri(&data);
        let header = get_default_sip_header(&data, call_id);
        let ring = match ring_millis {
            Some(m) => m,
            None => 2000,
        };
        CallSession {
            data,
            call_id: call_id.clone(),
            ring_millis: ring,
            uri,
            header,
            state: CallState::Idle,
            challenge: None,
        }
    }

    /// Feeds one event to the machine and produces the next action.
    pub fn advance(&mut self, event: Event) -> (r: Result<Action, SipError>)
        requires
            old(self).wf(),
            expects(old(self).state, event),
        ensures
            final(self).wf(),
            advance_rel(*old(self), event, *final(self), r),
    {
        match self.state {
            CallState::Idle => {
                let m = build_invite(self.header.as_str());
                self.state = CallState::FirstInviteSent;
                Ok(Action::SendThenReceive(m))
            },
            CallState::FirstInviteSent => {
                match event {
                    Event::Response(bytes) => {
                        match parse_response(bytes.as_slice()) {
                            Ok(ch) => {
                                self.challenge = Some(ch);
                                self.state = CallState::ChallengeReceived;
                                Ok(Action::Continue)
                            },
                            Err(e) => {
                                self.state = CallState::Failed;
                                Err(e)
                            },
                        }
                    },
                    _ => {
                        proof {
                            assert(false);
                        }
                        Err(SipError::ReadError)
                    },
                }
            },
            CallState::ChallengeReceived => {
                match &self.challenge {
                    Some(ch) => {
                        let d = compute(
                            self.data.username.as_str(),
                            self.data.password.as_str(),
                            ch.realm.as_str(),
                            ch.nonce.as_str(),
                            "INVITE",
                            self.uri.as_str(),
                        );
                        let m = build_authenticated_invite(
                            self.header.as_str(),
                            self.data.username.as_str(),
                            ch.realm.as_str(),
                            ch.nonce.as_str(),
                            self.uri.as_str(),
                            d.as_str(),
                        );
                        self.state = CallState::AuthenticatedInviteSent;
                        Ok(Action::SendThenReceive(m))
                    },
                    None => {
                        proof {
                            assert(false);
                        }
                        Err(SipError::ReadError)
                    },
                }
            },
            CallState::AuthenticatedInviteSent => {
                // the response to the authenticated invite is discarded
                self.state = CallState::Ringing;
                Ok(Action::Sleep(self.ring_millis))
            },
            CallState::Ringing => {
                let m = build_cancel(self.header.as_str());
                self.state = CallState::Cancelled;
                Ok(Action::SendThenReceive(m))
            },
            CallState::Cancelled => {
                // the response to the cancel is discarded
                self.state = CallState::Done;
                Ok(Action::Finish)
            },
            _ => {
                proof {
                    assert(false);
                }
                Err(SipError::ReadError)
            },
        }
    }
}

/// The parts of a session that one step never changes: the call data, the
/// call identifier, the ring duration, and the dialog's URI and header.
pub open spec fn frame(pre: CallSession, post: CallSession) -> bool {
    &&& post.data == pre.data
    &&& post.call_id@ == pre.call_id@
    &&& post.ring_millis == pre.ring_millis
    &&& post.uri@ == pre.uri@
    &&& post.header@ == pre.header@
}

/// The transition relation of the orchestrator: what one `advance` does, as
/// a function of the state, the stored challenge and the event. It pins the
/// new state, the stored challenge and the produced action down exactly.
pub open spec fn advance_rel(
    pre: CallSession,
    event: Event,
    post: CallSession,
    r: Result<Action, SipError>,
) -> bool {
    &&& frame(pre, post)
    &&& match (pre.state, event) {
        (CallState::Idle, Event::Start) => {
            &&& post.state is FirstInviteSent
            &&& challenge_view(post.challenge) == challenge_view(pre.challenge)
            &&& (r matches Ok(Action::SendThenReceive(m)) && m@ == spec_invite(pre.header@))
        },
        (CallState::FirstInviteSent, Event::Response(bytes)) => {
            match spec_parse_response(bytes@) {
                Ok(ch) => {
                    &&& post.state is ChallengeReceived
                    &&& challenge_view(post.challenge) == Some(ch)
                    &&& r == Ok::<Action, SipError>(Action::Continue)
                },
                Err(e) => {
                    &&& post.state is Failed
                    &&& challenge_view(post.challenge) == challenge_view(pre.challenge)
                    &&& r == Err::<Action, SipError>(e)
                },
            }
        },
        (CallState::ChallengeReceived, Event::Proceed) => {
            &&& post.state is AuthenticatedInviteSent
            &&& challenge_view(post.challenge) == challenge_view(pre.challenge)
            &&& match pre.challenge {
                Some(ch) => (r matches Ok(Action::SendThenReceive(m)) && m@
                    == spec_authenticated_invite(
                    pre.header@,
                    pre.data.username@,
                    ch.realm@,
                    ch.nonce@,
                    pre.uri@,
                    spec_digest(
                        pre.data.username@,
                        pre.data.password@,
                        ch.realm@,
                        ch.nonce@,
                        "INVITE"@,
                        pre.uri@,
                    ),
                )),
                None => true,
            }
        },
        (CallState::AuthenticatedInviteSent, Event::Response(_)) => {
            &&& post.state is Ringing
            &&& challenge_view(post.challenge) == challenge_view(pre.challenge)
            &&& r == Ok::<Action, SipError>(Action::Sleep(pre.ring_millis))
        },
        (CallState::Ringing, Event::Slept) => {
            &&& post.state is Cancelled
            &&& challenge_view(post.challenge) == challenge_view(pre.challenge)
            &&& (r matches Ok(Action::SendThenReceive(m)) && m@ == spec_cancel(pre.header@))
        },
        (CallState::Cancelled, Event::Response(_)) => {
            &&& post.state is Done
            &&& challenge_view(post.challenge) == challenge_view(pre.challenge)
            &&& r == Ok::<Action, SipError>(Action::Finish)
        },
        _ => false,
    }
}

/// Law: when the first response decodes as text but carries no challenge
/// pattern, the call fails with `ChallengeNotFound`, and the failed machine
/// accepts no further event — no authenticated invite and no cancel can
/// follow.
pub proof fn lemma_missing_challenge_is_fatal(
    pre: CallSession,
    bytes: Vec<u8>,
    post: CallSession,
    r: Result<Action, SipError>,
)
    requires
        pre.state is FirstInviteSent,
        advance_rel(pre, Event::Response(bytes), post, r),
        valid_utf8(bytes@),
        first_match_from(decode_utf8(bytes@), 0) is None,
    ensures
        r == Err::<Action, SipError>(SipError::ChallengeNotFound),
        post.state is Failed,
        forall|e: Event| !expects(post.state, e),
{
}

/// Law (dialog consistency over a whole run): every message one step asks
/// to send embeds the session's header block verbatim after its 7-character
/// request-line prefix, and the header never changes during the call — all
/// messages of one call belong to the same dialog.
pub proof fn lemma_run_messages_share_dialog(
    pre: CallSession,
    event: Event,
    post: CallSession,
    r: Result<Action, SipError>,
)
    requires
        pre.wf(),
        advance_rel(pre, event, post, r),
    ensures
        post.header@ == pre.header@,
        ({
            match r {
                Ok(Action::SendThenReceive(m)) => m@.subrange(7, 7 + pre.header@.len() as int)
                    == pre.header@,
                _ => true,
            }
        }),
{
    match r {
        Ok(Action::SendThenReceive(m)) => {
            let h = pre.header@;
            if pre.state is ChallengeReceived {
                let ch = pre.challenge->0;
                crate::message::lemma_dialog_consistency(
                    h,
                    pre.data.username@,
                    ch.realm@,
                    ch.nonce@,
                    pre.uri@,
                    spec_digest(
                        pre.data.username@,
                        pre.data.password@,
                        ch.realm@,
                        ch.nonce@,
                        "INVITE"@,
                        pre.uri@,
                    ),
                );
            } else {
                crate::message::lemma_dialog_consistency(
                    h,
                    Seq::empty(),
                    Seq::empty(),
                    Seq::empty(),
                    Seq::empty(),
                    Seq::empty(),
                );
            }
        },
        _ => {
        },
    }
}

/// Whether two sessions agree in everything their behaviour depends on: the
/// call data, the call identifier, the ring duration, the derived URI and
/// header, the state, and the stored challenge, all compared as text.
pub open spec fn session_view_eq(a: CallSession, b: CallSession) -> bool {
    &&& a.data.source@ == b.data.source@
    &&& a.data.server@ == b.data.server@
    &&& a.data.port == b.data.port
    &&& a.data.target@ == b.data.target@
    &&& a.data.username@ == b.data.username@
    &&& a.data.password@ == b.data.password@
    &&& a.call_id@ == b.call_id@
    &&& a.ring_millis == b.ring_millis
    &&& a.uri@ == b.uri@
    &&& a.header@ == b.header@
    &&& a.state == b.state
    &&& challenge_view(a.challenge) == challenge_view(b.challenge)
}

/// Whether two events carry the same observation.
pub open spec fn event_view_eq(a: Event, b: Event) -> bool {
    match (a, b) {
        (Event::Start, Event::Start) => true,
        (Event::Response(x), Event::Response(y)) => x@ == y@,
        (Event::Proceed, Event::Proceed) => true,
        (Event::Slept, Event::Slept) => true,
        _ => false,
    }
}

/// Whether two actions ask for the same work.
pub open spec fn action_view_eq(a: Action, b: Action) -> bool {
    match (a, b) {
        (Action::SendThenReceive(x), Action::SendThenReceive(y)) => x@ == y@,
        (Action::Continue, Action::Continue) => true,
        (Action::Sleep(x), Action::Sleep(y)) => x == y,
        (Action::Finish, Action::Finish) => true,
        _ => false,
    }
}

/// Whether two step outcomes agree.
pub open spec fn outcome_view_eq(a: Result<Action, SipError>, b: Result<Action, SipError>) -> bool {
    match (a, b) {
        (Ok(x), Ok(y)) => action_view_eq(x, y),
        (Err(x), Err(y)) => x == y,
        _ => false,
    }
}

/// Law (repeatability): the whole sequence is deterministic. Two sessions
/// that agree in their call data, call identifier, ring duration and state,
/// and are fed the same events, take the same steps: they send the same
/// messages in the same order and end in the same state. Two runs of the
/// full sequence can therefore differ only where their inputs differ — the
/// call identifier, and the digest through the responder's nonce.
pub proof fn lemma_sequence_deterministic(
    pre1: CallSession,
    e1: Event,
    post1: CallSession,
    r1: Result<Action, SipError>,
    pre2: CallSession,
    e2: Event,
    post2: CallSession,
    r2: Result<Action, SipError>,
)
    requires
        pre1.wf(),
        pre2.wf(),
        session_view_eq(pre1, pre2),
        event_view_eq(e1, e2),
        advance_rel(pre1, e1, post1, r1),
        advance_rel(pre2, e2, post2, r2),
    ensures
        session_view_eq(post1, post2),
        outcome_view_eq(r1, r2),
{
}

/// The end of the first complete message in the buffer: the framed reader
/// accumulates bytes until the blank-line terminator (two consecutive line
/// breaks) is seen, and the message is everything up to and including it.
pub open spec fn first_terminator_from(b: Seq<u8>, i: int) -> Option<int>
    decreases b.len() - i,
    when 0 <= i <= b.len()
{
    if i + 2 > b.len() {
        None
    } else if b[i] == 10 && b[i + 1] == 10 {
        Some(i)
    } else {
        first_terminator_from(b, i + 1)
    }
}

/// Finds where the first complete message in the buffer ends: the position
/// right after the first blank-line terminator, or nothing when no complete
/// message has arrived yet.
pub fn frame_end(buf: &[u8]) -> (r: Option<usize>)
    ensures
        ({
            match (r, first_terminator_from(buf@, 0)) {
                (Some(e), Some(i)) => e == i + 2,
                (None, None) => true,
                _ => false,
            }
        }),
{
    let n = buf.len();
    if n < 2 {
        return None;
    }
    let mut i: usize = 0;
    while i <= n - 2
        invariant
            n == buf@.len(),
            2 <= n,
            i <= n,
            first_terminator_from(buf@, 0) == first_terminator_from(buf@, i as int),
        decreases n - i,
    {
        if buf[i] == 10 && buf[i + 1] == 10 {
            return Some(i + 2);
        }
        i = i + 1;
    }
    None
}

} // verus!
