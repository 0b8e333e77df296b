use cliphold::detect::detect;
use cliphold::format::canonicalize;
use cliphold::format::choose_request_format;
use cliphold::format::formats_to_advertise;
use cliphold::format::parse_mime;
use cliphold::machine::CaptureError;
use cliphold::machine::DrainError;
use cliphold::machine::Machine;
use cliphold::machine::Phase;

#[test]
fn test_parse_mime() {
    // Text MIME types should return "text/plain;charset=utf-8"
    assert_eq!(
        parse_mime("text/plain".to_string()),
        Some("text/plain;charset=utf-8".to_string())
    );
    assert_eq!(
        parse_mime("TEXT".to_string()),
        Some("text/plain;charset=utf-8".to_string())
    );
    assert_eq!(
        parse_mime("UTF8_STRING".to_string()),
        Some("text/plain;charset=utf-8".to_string())
    );
    assert_eq!(
        parse_mime("text/markdown".to_string()),
        Some("text/plain;charset=utf-8".to_string())
    );

    // HTML should return as-is
    assert_eq!(
        parse_mime("text/html".to_string()),
        Some("text/html".to_string())
    );

    // Other MIME types should return as-is
    assert_eq!(
        parse_mime("image/png".to_string()),
        Some("image/png".to_string())
    );
    assert_eq!(
        parse_mime("application/json".to_string()),
        Some("application/json".to_string())
    );
}

#[test]
fn test_app_state_initialization() {
    let state = Machine::new();
    assert!(matches!(state.phase, Phase::Idle));
    assert!(!state.seat_bound);
    assert!(!state.manager_bound);
    assert!(!state.pending_capture);
    assert!(state.offered_format.is_none());
    assert!(state.capture_format.is_none());
    assert_eq!(state.snapshot, Vec::new());
    assert!(state.known_formats.is_empty());
}

#[test]
fn test_canonicalize_idempotent_on_aliases() {
    let aliases = [
        "text/plain",
        "text/plain;charset=utf-8",
        "TEXT",
        "STRING",
        "UTF8_STRING",
        "COMPOUND_TEXT",
        "text/markdown",
        "text/csv",
    ];
    for alias in aliases {
        let once = canonicalize(alias);
        assert_eq!(once, "text/plain;charset=utf-8");
        assert_eq!(canonicalize(&once), once);
    }
}

#[test]
fn test_canonicalize_html_and_unrecognized() {
    assert_eq!(canonicalize("text/html"), "text/html");
    assert_eq!(canonicalize(&canonicalize("text/html")), "text/html");
    assert_eq!(canonicalize("image/png"), "image/png");
    assert_eq!(canonicalize("application/json"), "application/json");
    assert_eq!(canonicalize(""), "");
}

#[test]
fn test_negotiator_priority_prefers_html() {
    let available = vec![
        "image/png".to_string(),
        "text/plain".to_string(),
        "text/html".to_string(),
    ];
    assert_eq!(
        choose_request_format(&available),
        Some("text/html".to_string())
    );
}

#[test]
fn test_negotiator_text_alias_outranks_image() {
    let available = vec!["TEXT".to_string(), "image/png".to_string()];
    assert_eq!(choose_request_format(&available), Some("TEXT".to_string()));
}

#[test]
fn test_negotiator_canonical_outranks_legacy_alias() {
    let available = vec![
        "TEXT".to_string(),
        "text/plain;charset=utf-8".to_string(),
        "text/plain".to_string(),
    ];
    assert_eq!(
        choose_request_format(&available),
        Some("text/plain;charset=utf-8".to_string())
    );
}

#[test]
fn test_negotiator_no_match() {
    let available = vec!["application/x-unknown".to_string()];
    assert_eq!(choose_request_format(&available), None);
    assert_eq!(choose_request_format(&Vec::new()), None);
}

#[test]
fn test_formats_to_advertise_is_identity() {
    let history = vec!["text/html".to_string(), "image/png".to_string()];
    assert_eq!(formats_to_advertise(&history), history);
    assert_eq!(formats_to_advertise(&Vec::new()), Vec::<String>::new());
}

#[test]
fn test_change_detection_equal() {
    let out = detect(b"abc", b"abc".to_vec());
    assert!(!out.changed);
    assert_eq!(out.new_snapshot, b"abc".to_vec());
}

#[test]
fn test_change_detection_differs() {
    let out = detect(b"abc", b"abcd".to_vec());
    assert!(out.changed);
    assert_eq!(out.new_snapshot, b"abcd".to_vec());
}

#[test]
fn test_change_detection_empty_previous() {
    let out = detect(b"", b"x".to_vec());
    assert!(out.changed);
    let out = detect(b"", Vec::new());
    assert!(!out.changed);
}

fn machine_at_offering() -> Machine {
    let mut m = Machine::new();
    m.on_seat_bound();
    m.on_manager_bound();
    assert!(m.try_setup_device());
    let advertised = m.advertise().expect("device is ready, a re-offer is due");
    assert_eq!(advertised, vec!["text/plain;charset=utf-8".to_string()]);
    assert!(matches!(m.phase, Phase::Offering));
    m
}

#[test]
fn test_setup_device_needs_both_globals() {
    let mut m = Machine::new();
    assert!(!m.try_setup_device());
    m.on_seat_bound();
    assert!(!m.try_setup_device());
    assert!(matches!(m.phase, Phase::Idle));
    assert!(m.advertise().is_none());
    m.on_manager_bound();
    assert!(m.try_setup_device());
    assert!(matches!(m.phase, Phase::DeviceReady));
    assert!(!m.try_setup_device());
}

#[test]
fn test_known_formats_stay_unique() {
    let mut m = machine_at_offering();
    m.on_new_offer();
    m.on_offer_format("text/plain".to_string());
    m.on_offer_format("text/plain".to_string());
    m.on_offer_format("image/png".to_string());
    assert_eq!(
        m.known_formats,
        vec!["text/plain".to_string(), "image/png".to_string()]
    );
    m.on_new_offer();
    assert!(m.known_formats.is_empty());
}

#[test]
fn test_end_to_end_capture_and_send() {
    let mut m = machine_at_offering();

    // An external app offers text/plain and text/html, then finalizes.
    m.on_new_offer();
    m.on_offer_format("text/plain".to_string());
    m.on_offer_format("text/html".to_string());
    let requested = m.on_selection_finalized();
    assert_eq!(requested, Some("text/html".to_string()));
    assert!(m.pending_capture);

    // The pipe drains to the captured bytes; the content changed.
    let changed = m.on_drained(Ok(b"<b>hi</b>".to_vec()));
    assert!(changed);
    assert!(!m.pending_capture);
    assert_eq!(m.snapshot, b"<b>hi</b>".to_vec());

    // The re-offer advertises the canonical form of the captured format.
    let advertised = m.advertise().expect("content changed, a re-offer is due");
    assert_eq!(advertised, vec!["text/html".to_string()]);

    // A consumer asking for the advertised format gets exactly the bytes;
    // a mismatched request in the same cycle gets nothing.
    assert_eq!(m.respond_to_send("text/html"), Some(b"<b>hi</b>".to_vec()));
    assert_eq!(m.respond_to_send("text/plain"), None);
}

#[test]
fn test_send_with_nothing_advertised() {
    let m = machine_at_offering();
    assert_eq!(m.respond_to_send("text/plain;charset=utf-8"), None);
}

#[test]
fn test_captured_alias_is_advertised_canonically() {
    let mut m = machine_at_offering();
    m.on_new_offer();
    m.on_offer_format("TEXT".to_string());
    m.on_offer_format("image/png".to_string());
    // The raw alias is requested from the producer ...
    assert_eq!(m.on_selection_finalized(), Some("TEXT".to_string()));
    assert!(m.on_drained(Ok(b"hello".to_vec())));
    // ... but the canonical identifier is what gets advertised.
    assert_eq!(
        m.offered_format,
        Some("text/plain;charset=utf-8".to_string())
    );
    assert_eq!(
        m.respond_to_send("text/plain;charset=utf-8"),
        Some(b"hello".to_vec())
    );
    assert_eq!(m.respond_to_send("TEXT"), None);
}

#[test]
fn test_drain_error_leaves_snapshot_untouched() {
    let mut m = machine_at_offering();
    m.on_new_offer();
    m.on_offer_format("text/plain".to_string());
    assert!(m.on_selection_finalized().is_some());
    assert!(m.on_drained(Ok(b"abc".to_vec())));
    assert_eq!(m.snapshot, b"abc".to_vec());
    let offered_before = m.offered_format.clone();

    // A later capture drains with an error after partial bytes: the
    // cycle is abandoned and the stored snapshot stays as it was.
    m.on_new_offer();
    m.on_offer_format("text/plain".to_string());
    assert!(m.on_selection_finalized().is_some());
    assert!(m.pending_capture);
    let changed = m.on_drained(Err(DrainError::ReadFailed));
    assert!(!changed);
    assert!(!m.pending_capture);
    assert_eq!(m.snapshot, b"abc".to_vec());
    assert_eq!(m.offered_format, offered_before);

    // The other drain failure behaves the same way.
    m.on_new_offer();
    m.on_offer_format("text/plain".to_string());
    assert!(m.on_selection_finalized().is_some());
    assert!(!m.on_drained(Err(DrainError::DuplicateFailed)));
    assert_eq!(m.snapshot, b"abc".to_vec());
}

#[test]
fn test_capture_failure_abandons_cycle() {
    let mut m = machine_at_offering();
    m.on_new_offer();
    m.on_offer_format("text/plain".to_string());
    assert!(m.on_selection_finalized().is_some());
    assert!(m.pending_capture);
    m.on_capture_failed(CaptureError::PipeCreationFailed);
    assert!(!m.pending_capture);
    assert_eq!(m.snapshot, Vec::new());

    assert!(m.on_selection_finalized().is_some());
    m.on_capture_failed(CaptureError::HandshakeFailed);
    assert!(!m.pending_capture);

    // A drain report with no capture pending is ignored.
    assert!(!m.on_drained(Ok(b"stray".to_vec())));
    assert_eq!(m.snapshot, Vec::new());
}

#[test]
fn test_no_second_receive_while_pending() {
    let mut m = machine_at_offering();
    m.on_new_offer();
    m.on_offer_format("text/plain".to_string());
    assert!(m.on_selection_finalized().is_some());
    assert!(m.pending_capture);

    // A second external selection arrives while the capture is still
    // outstanding: no second receive is issued, the handle count stays
    // at one until the first capture is drained.
    m.on_new_offer();
    m.on_offer_format("text/html".to_string());
    assert_eq!(m.on_selection_finalized(), None);
    assert!(m.pending_capture);
    assert_eq!(m.on_selection_finalized(), None);

    assert!(m.on_drained(Ok(b"late".to_vec())));
    assert!(!m.pending_capture);
}

#[test]
fn test_selection_with_no_usable_format() {
    let mut m = machine_at_offering();
    m.on_new_offer();
    m.on_offer_format("application/x-unknown".to_string());
    assert_eq!(m.on_selection_finalized(), None);
    assert!(!m.pending_capture);
    assert_eq!(m.snapshot, Vec::new());
}
