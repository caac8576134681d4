use bell_server::session::{Action, CallSession, CallState, Event, frame_end};
use bell_server::trigger::{LineEvent, TriggerStep, is_ring_line, trigger_step};
use bell_server::{SipCallData, SipError};

fn scenario_data() -> SipCallData {
    SipCallData {
        source: String::from("10.0.0.2"),
        server: String::from("10.0.0.1"),
        port: 5060,
        target: String::from("100"),
        username: String::from("door"),
        password: String::from("secret"),
    }
}

const CHALLENGE_RESPONSE: &[u8] = b"SIP/2.0 401 Unauthorized\nWWW-Authenticate: Digest realm=\"example.com\", nonce=\"ABC123\"\n\n";

/// Drives one session to completion or failure against canned responses,
/// recording every message it asked to send and every hold it asked for.
fn run_call(
    session: &mut CallSession,
    responses: Vec<Vec<u8>>,
) -> (Vec<String>, Vec<u64>, Result<(), SipError>) {
    let mut responses = responses.into_iter();
    let mut sent: Vec<String> = Vec::new();
    let mut sleeps: Vec<u64> = Vec::new();
    let mut event = Event::Start;
    loop {
        match session.advance(event) {
            Ok(Action::SendThenReceive(m)) => {
                sent.push(m);
                let resp = responses.next().unwrap_or_default();
                event = Event::Response(resp);
            }
            Ok(Action::Continue) => event = Event::Proceed,
            Ok(Action::Sleep(ms)) => {
                sleeps.push(ms);
                event = Event::Slept;
            }
            Ok(Action::Finish) => return (sent, sleeps, Ok(())),
            Err(e) => return (sent, sleeps, Err(e)),
        }
    }
}

#[test]
fn scenario_full_call_sends_three_messages_in_order() {
    let mut session = CallSession::new(scenario_data(), &String::from("1"), Some(1500));
    let (sent, sleeps, outcome) = run_call(
        &mut session,
        vec![CHALLENGE_RESPONSE.to_vec(), b"x".to_vec(), b"y".to_vec()],
    );
    assert!(outcome.is_ok());
    assert_eq!(session.state, CallState::Done);
    assert_eq!(sent.len(), 3);
    assert!(sent[0].starts_with("INVITE "));
    assert!(sent[0].contains("Cseq: 1 INVITE\n"));
    assert!(sent[1].starts_with("INVITE "));
    assert!(sent[1].contains("Authorization: Digest username=\"door\",\n"));
    assert!(sent[1].contains(" uri=\"sip:door@10.0.0.1\",\n"));
    assert!(sent[1].contains(" response=\"d90b47b42153a0d64ebbb32f3e61abe3\"\n"));
    assert!(sent[1].contains("Cseq: 2 INVITE\n"));
    assert!(sent[2].starts_with("CANCEL "));
    assert!(sent[2].contains("Cseq: 2 CANCEL\n"));
    // the hold between the second and the third message
    assert_eq!(sleeps, vec![1500]);
    assert!(sleeps[0] >= 1500);
}

#[test]
fn scenario_missing_challenge_fails_without_further_messages() {
    let mut session = CallSession::new(scenario_data(), &String::from("1"), Some(1500));
    let (sent, sleeps, outcome) = run_call(&mut session, vec![b"SIP/2.0 200 OK\n\n".to_vec()]);
    assert_eq!(outcome.unwrap_err(), SipError::ChallengeNotFound);
    assert_eq!(session.state, CallState::Failed);
    assert_eq!(sent.len(), 1);
    assert!(sent[0].starts_with("INVITE "));
    assert!(sleeps.is_empty());
}

#[test]
fn scenario_unset_ring_duration_defaults_to_2000() {
    let mut session = CallSession::new(scenario_data(), &String::from("1"), None);
    assert_eq!(session.ring_millis, 2000);
    let (sent, sleeps, outcome) = run_call(
        &mut session,
        vec![CHALLENGE_RESPONSE.to_vec(), b"x".to_vec(), b"y".to_vec()],
    );
    assert!(outcome.is_ok());
    assert_eq!(sent.len(), 3);
    assert_eq!(sleeps, vec![2000]);
}

#[test]
fn two_runs_differ_only_in_the_call_identifier() {
    let responses = || vec![CHALLENGE_RESPONSE.to_vec(), b"x".to_vec(), b"y".to_vec()];
    let mut first = CallSession::new(scenario_data(), &String::from("1000"), Some(1500));
    let mut again = CallSession::new(scenario_data(), &String::from("1000"), Some(1500));
    let mut second = CallSession::new(scenario_data(), &String::from("2000"), Some(1500));
    let (sent1, _, out1) = run_call(&mut first, responses());
    let (sent1b, _, out1b) = run_call(&mut again, responses());
    let (sent2, _, out2) = run_call(&mut second, responses());
    assert!(out1.is_ok() && out1b.is_ok() && out2.is_ok());
    // identical inputs: identical triples
    assert_eq!(sent1, sent1b);
    // a fresh call identifier: structurally identical, differing in Call-ID only
    assert_ne!(sent1, sent2);
    for (m1, m2) in sent1.iter().zip(sent2.iter()) {
        assert_eq!(m1.replace("Call-ID: i1000\n", "Call-ID: i2000\n"), *m2);
    }
}

#[test]
fn frame_end_finds_the_blank_line_terminator() {
    assert_eq!(frame_end(b"abc\n\ndef"), Some(5));
    assert_eq!(frame_end(b"\n\n"), Some(2));
    assert_eq!(frame_end(b"abc\ndef"), None);
    assert_eq!(frame_end(b""), None);
    assert_eq!(frame_end(b"\n"), None);
}

#[test]
fn ring_lines_are_recognised_after_trimming() {
    assert!(is_ring_line("RING"));
    assert!(is_ring_line("RING\r\n"));
    assert!(is_ring_line("  RING \t"));
    assert!(!is_ring_line("RINGING"));
    assert!(!is_ring_line("ring"));
    assert!(!is_ring_line(""));
    assert!(!is_ring_line("   "));
}

#[test]
fn trigger_steps_match_the_observation() {
    assert_eq!(
        trigger_step(&LineEvent::Line(String::from("RING\r\n"))),
        TriggerStep::Fired
    );
    assert_eq!(
        trigger_step(&LineEvent::Line(String::from("noise"))),
        TriggerStep::KeepWaiting
    );
    assert_eq!(trigger_step(&LineEvent::TimedOut), TriggerStep::KeepWaiting);
    assert_eq!(trigger_step(&LineEvent::InvalidData), TriggerStep::KeepWaiting);
    assert_eq!(trigger_step(&LineEvent::Fatal), TriggerStep::Abort);
}
