use balancebeam::{
    align_addr_to_word, any_healthy, classify_probe, connect_upstream, health_sweep,
    initial_state, select_upstream, step, Breakpoint, ConnAction, ConnEvent, ConnState,
    ProbeOutcome, RateDecision, RateLimiter, Registry, RequestFault, RequestOutcome,
};

fn registry_of(addrs: &[&str]) -> Registry {
    Registry::new(addrs.iter().map(|a| a.to_string()).collect())
}

#[test]
fn registry_starts_all_healthy_one_flag_per_address() {
    let reg = registry_of(&["10.0.0.1:80", "10.0.0.2:80", "10.0.0.3:80"]);
    assert_eq!(reg.addresses.len(), 3);
    assert_eq!(reg.health.len(), reg.addresses.len());
    assert!(reg.health.iter().all(|h| *h));
}

#[test]
fn an_empty_upstream_list_is_a_fatal_configuration() {
    assert!(Registry::from_config(Vec::new()).is_none());
    let reg = Registry::from_config(vec!["10.0.0.1:80".to_string()]).expect("one upstream");
    assert_eq!(reg.health, vec![true]);
}

#[test]
fn marking_unhealthy_keeps_the_flag_per_address_invariant() {
    let mut reg = registry_of(&["a:1", "b:2"]);
    reg.mark_unhealthy(0);
    assert_eq!(reg.health.len(), reg.addresses.len());
    assert_eq!(reg.health, vec![false, true]);
}

#[test]
fn select_returns_a_healthy_index() {
    let mut reg = registry_of(&["a:1", "b:2", "c:3"]);
    reg.mark_unhealthy(1);
    for _ in 0..100 {
        let i = select_upstream(&reg).expect("healthy upstreams exist");
        assert!(i == 0 || i == 2);
    }
}

#[test]
fn select_with_single_healthy_upstream_always_lands_on_it() {
    let mut reg = registry_of(&["a:1", "b:2", "c:3", "d:4", "e:5"]);
    for i in [0, 1, 3, 4] {
        reg.mark_unhealthy(i);
    }
    for _ in 0..100 {
        assert_eq!(select_upstream(&reg), Some(2));
    }
}

#[test]
fn select_with_no_healthy_upstream_reports_none() {
    let mut reg = registry_of(&["a:1", "b:2"]);
    reg.mark_unhealthy(0);
    reg.mark_unhealthy(1);
    assert!(!any_healthy(&reg));
    assert_eq!(select_upstream(&reg), None);
}

#[test]
fn failover_lands_on_the_accepting_upstream() {
    // upstreams 0 and 1 refuse connections, upstream 2 accepts
    for _ in 0..50 {
        let mut reg = registry_of(&["a:1", "b:2", "c:3"]);
        let r = connect_upstream(&mut reg, &vec![false, false, true]);
        assert_eq!(r, Some(2));
        assert!(reg.health[2]);
        assert_eq!(reg.health.len(), reg.addresses.len());
    }
}

#[test]
fn total_failure_reports_unavailable_and_draws_bad_gateway() {
    let mut reg = registry_of(&["a:1", "b:2", "c:3"]);
    let r = connect_upstream(&mut reg, &vec![false, false, false]);
    assert_eq!(r, None);
    assert_eq!(reg.health, vec![false, false, false]);
    let (next, action) = step(ConnState::Connecting, ConnEvent::UpstreamUnavailable);
    assert_eq!(next, ConnState::Closed);
    assert_eq!(action, ConnAction::SendErrorAndClose(502));
}

#[test]
fn probe_classification_is_exactly_status_200() {
    assert!(classify_probe(&ProbeOutcome::Responded(200)));
    assert!(!classify_probe(&ProbeOutcome::Responded(201)));
    assert!(!classify_probe(&ProbeOutcome::Responded(404)));
    assert!(!classify_probe(&ProbeOutcome::Responded(500)));
    assert!(!classify_probe(&ProbeOutcome::ConnectFailed));
    assert!(!classify_probe(&ProbeOutcome::WriteFailed));
    assert!(!classify_probe(&ProbeOutcome::ReadFailed));
}

#[test]
fn health_sweep_is_idempotent_for_fixed_outcomes() {
    let outcomes = vec![
        ProbeOutcome::Responded(200),
        ProbeOutcome::Responded(503),
        ProbeOutcome::ConnectFailed,
        ProbeOutcome::Responded(200),
    ];
    let mut first = registry_of(&["a:1", "b:2", "c:3", "d:4"]);
    health_sweep(&mut first, &outcomes);
    let expected = vec![true, false, false, true];
    assert_eq!(first.health, expected);

    // a second sweep over the same outcomes, from a different starting
    // state, installs the same vector
    let mut second = registry_of(&["a:1", "b:2", "c:3", "d:4"]);
    second.mark_unhealthy(0);
    second.mark_unhealthy(3);
    health_sweep(&mut second, &outcomes);
    assert_eq!(second.health, expected);
    health_sweep(&mut second, &outcomes);
    assert_eq!(second.health, expected);
}

#[test]
fn after_a_sweep_marks_one_upstream_down_routing_avoids_it() {
    let mut reg = registry_of(&["a:1", "b:2"]);
    // upstream 0 answers the probe with a non-200 status
    health_sweep(
        &mut reg,
        &vec![ProbeOutcome::Responded(500), ProbeOutcome::Responded(200)],
    );
    assert_eq!(reg.health, vec![false, true]);
    for _ in 0..100 {
        assert_eq!(select_upstream(&reg), Some(1));
    }
}

#[test]
fn third_request_in_a_window_is_rejected_and_never_reaches_an_upstream() {
    let mut limiter = RateLimiter::new(2);
    let client = String::from("192.168.0.7");
    assert_eq!(limiter.check_and_count(&client), RateDecision::Allowed);
    assert_eq!(limiter.check_and_count(&client), RateDecision::Allowed);
    assert_eq!(limiter.check_and_count(&client), RateDecision::Rejected);
    // the rejection closes the connection with 429 before any connect
    let (next, action) = step(ConnState::RateCheck, ConnEvent::RateRejected);
    assert_eq!(action, ConnAction::SendErrorAndClose(429));
    assert_eq!(next, ConnState::Closed);
}

#[test]
fn counts_are_kept_per_client() {
    let mut limiter = RateLimiter::new(1);
    let one = String::from("10.0.0.1");
    let two = String::from("10.0.0.2");
    assert_eq!(limiter.check_and_count(&one), RateDecision::Allowed);
    assert_eq!(limiter.check_and_count(&two), RateDecision::Allowed);
    assert_eq!(limiter.check_and_count(&one), RateDecision::Rejected);
    assert_eq!(limiter.check_and_count(&two), RateDecision::Rejected);
}

#[test]
fn window_reset_clears_every_count() {
    let mut limiter = RateLimiter::new(1);
    let client = String::from("10.0.0.1");
    assert_eq!(limiter.check_and_count(&client), RateDecision::Allowed);
    assert_eq!(limiter.check_and_count(&client), RateDecision::Rejected);
    limiter.reset();
    assert_eq!(limiter.counts.len(), 0);
    assert_eq!(limiter.check_and_count(&client), RateDecision::Allowed);
}

#[test]
fn disabled_rate_limiting_skips_the_rate_check() {
    assert_eq!(initial_state(0), ConnState::Connecting);
    assert_eq!(initial_state(5), ConnState::RateCheck);
}

#[test]
fn a_full_relay_round_forwards_request_then_response() {
    // both upstreams healthy, rate limiting disabled: the request is
    // relayed to exactly one of them and the response returns verbatim
    let reg = registry_of(&["a:1", "b:2"]);
    let chosen = select_upstream(&reg).expect("both healthy");
    assert!(chosen == 0 || chosen == 1);

    let mut state = initial_state(0);
    assert_eq!(state, ConnState::Connecting);
    let (s, a) = step(state, ConnEvent::UpstreamConnected);
    assert_eq!((s, a), (ConnState::ReadingRequest, ConnAction::Proceed));
    state = s;
    let (s, a) = step(state, ConnEvent::RequestRead(RequestOutcome::Parsed));
    assert_eq!((s, a), (ConnState::SendingRequest, ConnAction::Proceed));
    state = s;
    let (s, a) = step(state, ConnEvent::RequestSent);
    assert_eq!((s, a), (ConnState::ReadingResponse, ConnAction::Proceed));
    state = s;
    let (s, a) = step(state, ConnEvent::ResponseRead);
    assert_eq!(
        (s, a),
        (ConnState::ReadingRequest, ConnAction::ForwardResponseAndContinue)
    );
}

#[test]
fn invalid_content_length_draws_400_and_keeps_the_connection_open() {
    let (state, action) = step(
        ConnState::ReadingRequest,
        ConnEvent::RequestRead(RequestOutcome::Invalid(RequestFault::InvalidContentLength)),
    );
    assert_eq!(action, ConnAction::SendErrorAndContinue(400));
    assert_eq!(state, ConnState::ReadingRequest);
    // the connection accepts a following valid request
    let (s, a) = step(state, ConnEvent::RequestRead(RequestOutcome::Parsed));
    assert_eq!((s, a), (ConnState::SendingRequest, ConnAction::Proceed));
}

#[test]
fn each_request_fault_draws_its_status() {
    for (fault, status) in [
        (RequestFault::Incomplete, 400),
        (RequestFault::Malformed, 400),
        (RequestFault::InvalidContentLength, 400),
        (RequestFault::ContentLengthMismatch, 400),
        (RequestFault::BodyTooLarge, 413),
    ] {
        let (state, action) = step(
            ConnState::ReadingRequest,
            ConnEvent::RequestRead(RequestOutcome::Invalid(fault)),
        );
        assert_eq!(action, ConnAction::SendErrorAndContinue(status));
        assert_eq!(state, ConnState::ReadingRequest);
    }
}

#[test]
fn client_close_and_transport_errors_close_quietly() {
    let (s, a) = step(
        ConnState::ReadingRequest,
        ConnEvent::RequestRead(RequestOutcome::ClosedNoData),
    );
    assert_eq!((s, a), (ConnState::Closed, ConnAction::CloseQuietly));
    let (s, a) = step(
        ConnState::ReadingRequest,
        ConnEvent::RequestRead(RequestOutcome::Transport),
    );
    assert_eq!((s, a), (ConnState::Closed, ConnAction::CloseQuietly));
}

#[test]
fn upstream_transport_errors_draw_bad_gateway_and_close() {
    let (s, a) = step(ConnState::SendingRequest, ConnEvent::RequestSendFailed);
    assert_eq!((s, a), (ConnState::Closed, ConnAction::SendErrorAndClose(502)));
    let (s, a) = step(ConnState::ReadingResponse, ConnEvent::ResponseReadFailed);
    assert_eq!((s, a), (ConnState::Closed, ConnAction::SendErrorAndClose(502)));
}

#[test]
fn word_alignment_rounds_down() {
    assert_eq!(align_addr_to_word(0), 0);
    assert_eq!(align_addr_to_word(7), 0);
    assert_eq!(align_addr_to_word(8), 8);
    assert_eq!(align_addr_to_word(13), 8);
    assert_eq!(align_addr_to_word(4096), 4096);
}

#[test]
fn breakpoints_keep_their_patched_byte() {
    let bp = Breakpoint { addr: 0x4011a0, orig_byte: 0x55 };
    let copy = bp;
    assert_eq!(copy.addr, 0x4011a0);
    assert_eq!(copy.orig_byte, 0x55);
}
