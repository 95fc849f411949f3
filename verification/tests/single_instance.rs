//! One process per profile.
use buffr::single_instance::{
    accept_payload, after_attempt, bind_name_for, classify_ack, classify_connect_error,
    forward_verdict, gate_urls, is_safe_forward_url, judge_connection, lock_outcome,
    lock_path_for, peer_is_us, pipe_name_for, private_dir_verdict, profile_id_from,
    profile_id_of, read_capped_line, runtime_dir_candidates, scheme_is_forwardable, socket_path_for, try_acquire,
    AcquireError, AcquireEvent, AcquirePhase, AcquireResult, CappedLine, ConnectError,
    ConnectOutcome, ConnectionStep, DirRefusal, ForwardPayload, LockOutcome, PeerCreds, Reply,
    RetryStep, MAX_FORWARD_LINE_LEN, MAX_FORWARD_URLS, MAX_FORWARD_URL_LEN,
};

#[test]
fn ok_ack_is_forwarded() {
    assert!(matches!(classify_ack(3, "OK\n"), ConnectOutcome::Forwarded));
}

#[test]
fn err_ack_is_rejected() {
    assert!(matches!(classify_ack(4, "ERR\n"), ConnectOutcome::Rejected(_)));
}

#[test]
fn eof_without_ack_is_rejected() {
    assert!(matches!(classify_ack(0, ""), ConnectOutcome::Rejected(_)));
}

#[test]
fn empty_line_is_rejected() {
    assert!(matches!(classify_ack(1, "\n"), ConnectOutcome::Rejected(_)));
}

#[test]
fn unknown_ack_fails_closed() {
    assert!(matches!(classify_ack(4, "??\n"), ConnectOutcome::Rejected(_)));
}

#[test]
fn profile_id_is_deterministic() {
    let a = profile_id_from("/home/user/.cache/buffr");
    let b = profile_id_from("/home/user/.cache/buffr");
    assert_eq!(a, b);
}

#[test]
fn profile_id_is_16_hex_chars() {
    let id = profile_id_from("/home/user/.cache/buffr");
    assert_eq!(id.len(), 16);
    assert!(id.chars().all(|c| matches!(c, '0'..='9' | 'a'..='f')));
}

#[test]
fn profile_id_differs_for_different_paths() {
    let ids = [
        profile_id_from("/home/alice/.cache/buffr"),
        profile_id_from("/home/bob/.cache/buffr"),
        profile_id_from("/tmp/buffr-test-profile"),
    ];
    assert_ne!(ids[0], ids[1]);
    assert_ne!(ids[0], ids[2]);
    assert_ne!(ids[1], ids[2]);
}

#[test]
fn profile_id_handles_unicode_paths() {
    let a = profile_id_from("/tmp/缓存");
    let b = profile_id_from("/tmp/café");
    assert_eq!(a.len(), 16);
    assert_eq!(b.len(), 16);
    assert_ne!(a, b);
}

#[test]
fn profile_id_handles_long_paths() {
    let long: String = "a".repeat(4090);
    let path = format!("/tmp/{long}");
    let id = profile_id_from(&path);
    assert_eq!(id.len(), 16);
    assert!(id.chars().all(|c| matches!(c, '0'..='9' | 'a'..='f')));
}

#[test]
fn profile_id_is_the_head_of_the_digest() {
    // The first eight bytes of the SHA-256 digests of "abc" and of nothing.
    assert_eq!(profile_id_from("abc"), "ba7816bf8f01cfea");
    assert_eq!(profile_id_from(""), "e3b0c44298fc1c14");
    assert_eq!(profile_id_of(&[0, 1, 0x2f, 0xff, 4, 5, 6, 7, 8]), "00012fff04050607");
}

#[test]
fn safe_forward_url_allows_http_and_https() {
    assert!(is_safe_forward_url("https://example.com/page"));
    assert!(is_safe_forward_url("http://localhost:3000"));
    assert!(is_safe_forward_url("http://192.168.1.1:8080/path"));
}

#[test]
fn safe_forward_url_rejects_javascript_scheme() {
    assert!(!is_safe_forward_url("javascript:alert(1)"));
    assert!(!is_safe_forward_url("javascript:void(0)"));
}

#[test]
fn safe_forward_url_rejects_data_scheme() {
    assert!(!is_safe_forward_url("data:text/html,<script>xss</script>"));
}

#[test]
fn safe_forward_url_rejects_overlong_urls() {
    let long = format!("https://example.com/{}", "a".repeat(MAX_FORWARD_URL_LEN));
    assert!(!is_safe_forward_url(&long));
}

#[test]
fn safe_forward_url_rejects_unparseable() {
    assert!(!is_safe_forward_url("not a url at all"));
    assert!(!is_safe_forward_url(""));
}

#[test]
fn safe_forward_url_allows_file_and_mailto() {
    assert!(is_safe_forward_url("file:///etc/hosts"));
    assert!(is_safe_forward_url("mailto:user@example.com"));
}

#[test]
fn schemes_are_compared_in_lower_case() {
    // The parser gives the scheme in lower case.
    assert!(is_safe_forward_url("HTTPS://example.com"));
    assert!(!is_safe_forward_url("JavaScript:alert(1)"));
    assert!(scheme_is_forwardable("view-source"));
    assert!(!scheme_is_forwardable("HTTPS"));
    assert!(!scheme_is_forwardable("blob"));
}

#[test]
fn the_length_limit_is_inclusive() {
    let https = Some("https".to_string());
    assert!(forward_verdict(MAX_FORWARD_URL_LEN, &https));
    assert!(!forward_verdict(MAX_FORWARD_URL_LEN + 1, &https));
    assert!(!forward_verdict(3, &None));
    assert!(!forward_verdict(3, &Some("data".to_string())));
}

#[test]
fn forwarded_urls_are_few_and_safe() {
    let mut urls: Vec<String> = (0..150).map(|i| format!("https://example.com/{i}")).collect();
    urls[1] = "javascript:alert(1)".to_string();
    let kept = gate_urls(&urls);
    assert_eq!(kept.len(), MAX_FORWARD_URLS - 1);
    assert_eq!(kept[0], "https://example.com/0");
    assert_eq!(kept[1], "https://example.com/2");
    assert!(kept.iter().all(|u| is_safe_forward_url(u)));
}

#[test]
fn read_capped_line_returns_a_complete_line() {
    let data = b"{\"urls\":[\"https://example.com\"]}\nleftover";
    assert_eq!(
        read_capped_line(&data[..]).unwrap(),
        CappedLine::Line("{\"urls\":[\"https://example.com\"]}\n".to_string())
    );
}

#[test]
fn read_capped_line_reports_eof_on_an_empty_stream() {
    assert_eq!(read_capped_line(&b""[..]).unwrap(), CappedLine::Eof);
}

#[test]
fn read_capped_line_rejects_a_line_without_a_newline() {
    assert_eq!(read_capped_line(&b"{\"urls\":["[..]).unwrap(), CappedLine::TooLong);
}

#[test]
fn read_capped_line_stops_at_the_cap() {
    let endless = vec![b'a'; MAX_FORWARD_LINE_LEN + 4096];
    assert_eq!(read_capped_line(&endless).unwrap(), CappedLine::TooLong);
    assert!(MAX_FORWARD_LINE_LEN > MAX_FORWARD_URLS * MAX_FORWARD_URL_LEN);
}

#[test]
fn read_capped_line_takes_a_line_that_just_fits() {
    let mut fits = vec![b'a'; MAX_FORWARD_LINE_LEN - 1];
    fits.push(b'\n');
    assert!(matches!(read_capped_line(&fits).unwrap(), CappedLine::Line(s) if s.len() == fits.len()));
    let mut over = vec![b'a'; MAX_FORWARD_LINE_LEN];
    over.push(b'\n');
    assert_eq!(read_capped_line(&over).unwrap(), CappedLine::TooLong);
}

#[test]
fn read_capped_line_needs_text() {
    assert!(read_capped_line(&[0xff, 0xfe, 10]).is_none());
}

#[test]
fn lock_path_sits_next_to_the_socket() {
    assert_eq!(
        lock_path_for("/run/user/1000/buffr/buffr-ab.sock"),
        "/run/user/1000/buffr/buffr-ab.lock"
    );
    assert_eq!(lock_path_for("/run/plain"), "/run/plain.lock");
    assert_eq!(lock_path_for("/run/.hidden"), "/run/.hidden.lock");
    assert_eq!(lock_path_for("..a"), "..lock");
}

#[test]
fn lock_path_agrees_with_the_standard_library() {
    for path in [
        "a.sock", "a.sock/", "a.sock//", "a.sock/.", "a.sock/.//./", "a/./b.c", "", "/", ".", "./",
        "./.", "/.", "..", "a/..", "a/../", "/..", "a.", "a..", "...", ".a.b", "a/.b", "a.b/c",
        "./a.b", "a/.../",
    ] {
        let mut p = std::path::PathBuf::from(path);
        p.set_extension("lock");
        assert_eq!(lock_path_for(path), p.to_str().unwrap(), "{path:?}");
    }
}

#[test]
fn a_directory_has_to_be_ours_alone() {
    assert_eq!(private_dir_verdict(true, 1000, 1000, 0o700), Ok(()));
    assert_eq!(private_dir_verdict(false, 1000, 1000, 0o700), Err(DirRefusal::NotADirectory));
    assert_eq!(
        private_dir_verdict(true, 0, 1000, 0o700),
        Err(DirRefusal::Owner { owner: 0, uid: 1000 })
    );
    assert!(matches!(
        private_dir_verdict(true, 1000, 1000, 0o777),
        Err(DirRefusal::Accessible { .. })
    ));
    assert!(private_dir_verdict(true, 1000, 1000, 0o710).is_err());
}

#[test]
fn names_are_made_of_the_profile() {
    assert_eq!(socket_path_for("/run/user/1000/buffr", "ab"), "/run/user/1000/buffr/buffr-ab.sock");
    assert_eq!(pipe_name_for("ab"), "\\\\.\\pipe\\buffr-ab");
    assert_eq!(bind_name_for(42), ".buffr-bind-42.sock");
    let dirs = runtime_dir_candidates(&Some("/run/user/7".to_string()), "/tmp", 7);
    assert!(dirs.iter().any(|d| d.starts_with("/run/user/7")));
    assert!(dirs.iter().any(|d| d.starts_with("/tmp")));
}

#[test]
fn a_busy_lock_is_told_from_a_failure() {
    assert!(matches!(lock_outcome(0, None, 11, 11), LockOutcome::Held));
    assert!(matches!(lock_outcome(-1, Some(11), 11, 35), LockOutcome::Contended));
    assert!(matches!(lock_outcome(-1, Some(35), 11, 35), LockOutcome::Contended));
    assert!(matches!(lock_outcome(-1, Some(5), 11, 35), LockOutcome::Failed));
}

#[test]
fn only_a_missing_or_refusing_socket_is_stale() {
    assert!(matches!(classify_connect_error(ConnectError::NotFound), ConnectOutcome::Stale));
    assert!(matches!(
        classify_connect_error(ConnectError::ConnectionRefused),
        ConnectOutcome::Stale
    ));
    assert!(matches!(
        classify_connect_error(ConnectError::Other("timed out".to_string())),
        ConnectOutcome::Ambiguous(_)
    ));
}

#[test]
fn only_an_open_question_is_asked_again() {
    let open = || ConnectOutcome::Ambiguous("x".to_string());
    assert!(matches!(after_attempt(1, open()), RetryStep::Retry));
    assert!(matches!(after_attempt(2, open()), RetryStep::Retry));
    assert!(matches!(after_attempt(3, open()), RetryStep::Done(ConnectOutcome::Ambiguous(_))));
    assert!(matches!(
        after_attempt(1, ConnectOutcome::Stale),
        RetryStep::Done(ConnectOutcome::Stale)
    ));
}

#[test]
fn a_start_goes_through_its_phases() {
    let first = |o| try_acquire(AcquirePhase::Forwarding, AcquireEvent::Outcome(o));
    assert!(matches!(first(ConnectOutcome::Forwarded), AcquireResult::Forwarded));
    assert!(matches!(first(ConnectOutcome::Stale), AcquireResult::TryLock));
    assert!(matches!(
        first(ConnectOutcome::Rejected("no".to_string())),
        AcquireResult::Fail(AcquireError::Refused(_))
    ));
    assert!(matches!(
        first(ConnectOutcome::Ambiguous("?".to_string())),
        AcquireResult::Fail(AcquireError::Unreachable(_))
    ));
    assert!(matches!(
        try_acquire(AcquirePhase::Locking, AcquireEvent::LockHeld),
        AcquireResult::Owner
    ));
    assert!(matches!(
        try_acquire(AcquirePhase::Locking, AcquireEvent::LockContended),
        AcquireResult::ForwardAgain
    ));
    let second = |o| try_acquire(AcquirePhase::ForwardingAgain, AcquireEvent::Outcome(o));
    assert!(matches!(second(ConnectOutcome::Forwarded), AcquireResult::Forwarded));
    assert!(matches!(second(ConnectOutcome::Stale), AcquireResult::Fail(_)));
}

#[test]
fn failures_say_what_happened() {
    let refused = AcquireError::Refused("ERR".to_string()).message("/s");
    assert!(refused.contains("refused the forwarded URL(s)") && refused.ends_with("ERR"));
    let unreachable = AcquireError::Unreachable("timed out".to_string()).message("/s");
    assert!(unreachable.contains("/s") && unreachable.contains("timed out"));
    let closed = AcquireError::NotAccepting("why".to_string()).message("/s");
    assert_ne!(closed, refused);
}

#[test]
fn another_user_may_not_forward() {
    assert!(peer_is_us(PeerCreds::Uid(1000), 1000));
    assert!(!peer_is_us(PeerCreds::Uid(0), 1000));
    assert!(peer_is_us(PeerCreds::Unreadable, 1000));
    assert!(peer_is_us(PeerCreds::NoUid, 1000));
}

#[test]
fn connections_are_judged_before_they_are_parsed() {
    let line = || Some(CappedLine::Line("{}\n".to_string()));
    assert!(matches!(
        judge_connection(false, line()),
        ConnectionStep::Answer(Reply::Refused)
    ));
    assert!(matches!(judge_connection(true, line()), ConnectionStep::Parse(_)));
    assert!(matches!(
        judge_connection(true, Some(CappedLine::Eof)),
        ConnectionStep::Answer(Reply::Silent)
    ));
    assert!(matches!(judge_connection(true, None), ConnectionStep::Answer(Reply::Silent)));
    assert!(matches!(
        judge_connection(true, Some(CappedLine::TooLong)),
        ConnectionStep::Answer(Reply::Refused)
    ));
}

#[test]
fn replies_are_single_lines() {
    assert_eq!(Reply::Taken.text(), "OK\n");
    assert_eq!(Reply::Refused.text(), "ERR\n");
    assert_eq!(Reply::Silent.text(), "");
}

#[test]
fn a_payload_is_taken_if_something_is_left_of_it() {
    let url = |s: &str| s.to_string();
    let (reply, urls) = accept_payload(Some(ForwardPayload {
        urls: vec![url("https://a.example"), url("javascript:alert(1)")],
    }));
    assert!(matches!(reply, Reply::Taken));
    assert_eq!(urls, vec![url("https://a.example")]);
    let (reply, urls) = accept_payload(Some(ForwardPayload { urls: vec![url("data:,x")] }));
    assert!(matches!(reply, Reply::Refused));
    assert!(urls.is_empty());
    let (reply, urls) = accept_payload(None);
    assert!(matches!(reply, Reply::Refused));
    assert!(urls.is_empty());
    // What the answers mean at the other end.
    assert!(matches!(classify_ack(3, &Reply::Taken.text()), ConnectOutcome::Forwarded));
    assert!(matches!(classify_ack(4, &Reply::Refused.text()), ConnectOutcome::Rejected(_)));
}
