use ctxlog::Context;
use ctxlog::EventType;

#[test]
fn test_get_last_error() {
    let mut t = Context::new();

    assert_eq!(t.get_last_error(), "");

    t.log_error("foo-error");
    assert_eq!(t.get_last_error(), "foo-error");

    t.log_warn("src/log.rs", 171, "foo-warning");
    assert_eq!(t.get_last_error(), "foo-error");

    t.log_info("src/log.rs", 174, "foo-info");
    assert_eq!(t.get_last_error(), "foo-error");

    t.log_error("bar-error");
    t.log_error("baz-error");
    assert_eq!(t.get_last_error(), "baz-error");
}

#[test]
fn fresh_context_has_empty_register_and_no_events() {
    let t = Context::new();
    assert_eq!(t.get_last_error(), "");
    assert_eq!(t.events().len(), 0);
}

#[test]
fn error_updates_register_and_emits() {
    let mut t = Context::new();
    t.log_error("foo-error");
    assert_eq!(t.get_last_error(), "foo-error");
    assert_eq!(t.events().len(), 1);
    match &t.events()[0] {
        EventType::Error(s) => assert_eq!(s, "foo-error"),
        _ => panic!("expected an error event"),
    }
}

#[test]
fn warn_and_info_do_not_update_register() {
    let mut t = Context::new();
    t.log_error("foo-error");
    t.log_warn("a.rs", 1, "foo-warning");
    assert_eq!(t.get_last_error(), "foo-error");
    t.log_info("a.rs", 2, "foo-info");
    assert_eq!(t.get_last_error(), "foo-error");
    assert_eq!(t.events().len(), 3);
}

#[test]
fn last_write_wins_sequentially() {
    let mut t = Context::new();
    t.log_error("bar-error");
    t.log_error("baz-error");
    assert_eq!(t.get_last_error(), "baz-error");
}

#[test]
fn info_event_text_is_located() {
    let mut t = Context::new();
    t.log_info("a.rs", 105, "hi");
    match &t.events()[0] {
        EventType::Info(s) => assert_eq!(s, "a.rs:105: hi"),
        _ => panic!("expected an info event"),
    }
}

#[test]
fn warn_event_text_is_located() {
    let mut t = Context::new();
    t.log_warn("dir/b.rs", 7, "watch out");
    match &t.events()[0] {
        EventType::Warning(s) => assert_eq!(s, "dir/b.rs:7: watch out"),
        _ => panic!("expected a warning event"),
    }
}

#[test]
fn error_event_text_has_no_location_prefix() {
    let mut t = Context::new();
    t.log_error("plain failure");
    match &t.events()[0] {
        EventType::Error(s) => assert_eq!(s, "plain failure"),
        _ => panic!("expected an error event"),
    }
}

#[test]
fn set_last_error_overwrites_without_emitting() {
    let mut t = Context::new();
    t.set_last_error("direct");
    assert_eq!(t.get_last_error(), "direct");
    assert_eq!(t.events().len(), 0);
}

#[test]
fn emit_event_appends_and_leaves_register() {
    let mut t = Context::new();
    t.set_last_error("kept");
    t.emit_event(EventType::Info(String::from("raw")));
    assert_eq!(t.get_last_error(), "kept");
    assert_eq!(t.events().len(), 1);
    match &t.events()[0] {
        EventType::Info(s) => assert_eq!(s, "raw"),
        _ => panic!("expected an info event"),
    }
}

#[test]
fn bare_message_equals_empty_argument_list() {
    let mut bare = Context::new();
    bare.log_error("plain-msg");

    let mut formatted = Context::new();
    formatted.log_error(&format!("plain-msg"));

    assert_eq!(bare.get_last_error(), formatted.get_last_error());
    assert_eq!(bare.events().len(), formatted.events().len());
    match (&bare.events()[0], &formatted.events()[0]) {
        (EventType::Error(a), EventType::Error(b)) => assert_eq!(a, b),
        _ => panic!("expected two error events"),
    }
}

#[test]
fn number_rendering_is_decimal() {
    assert_eq!(ctxlog::u64_to_string(0), "0");
    assert_eq!(ctxlog::u64_to_string(7), "7");
    assert_eq!(ctxlog::u64_to_string(10), "10");
    assert_eq!(ctxlog::u64_to_string(105), "105");
    assert_eq!(ctxlog::u64_to_string(18446744073709551615), "18446744073709551615");
}

#[test]
fn located_rendering_is_exact() {
    assert_eq!(ctxlog::render_located("src/log.rs", 42, "msg"), "src/log.rs:42: msg");
    assert_eq!(ctxlog::render_located("", 0, ""), ":0: ");
}
