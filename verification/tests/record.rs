use test_runner::record::{emission, entry, tee_record, Emission};
use test_runner::Level;

#[test]
fn entry_is_level_target_message() {
    assert_eq!(entry(Level::Info, "my_module", "hello world"), "INFO my_module hello world");
}

#[test]
fn entry_names_each_level_in_upper_case() {
    assert_eq!(entry(Level::Error, "t", "m"), "ERROR t m");
    assert_eq!(entry(Level::Warn, "t", "m"), "WARN t m");
    assert_eq!(entry(Level::Info, "t", "m"), "INFO t m");
    assert_eq!(entry(Level::Debug, "t", "m"), "DEBUG t m");
    assert_eq!(entry(Level::Trace, "t", "m"), "TRACE t m");
}

#[test]
fn entry_keeps_both_spaces_around_an_empty_target() {
    assert_eq!(entry(Level::Error, "", ""), "ERROR  ");
    assert_eq!(entry(Level::Warn, "", "lost"), "WARN  lost");
}

#[test]
fn entry_keeps_message_text_as_it_is() {
    assert_eq!(
        entry(Level::Debug, "node::import", "block #12 \u{2713} imported\nwith 3 extrinsics"),
        "DEBUG node::import block #12 \u{2713} imported\nwith 3 extrinsics"
    );
}

#[test]
fn emission_carries_one_console_line_and_one_sink_message() {
    let out = emission(Level::Info, "my_module", "started");
    assert_eq!(out.console, "INFO my_module started\n");
    assert_eq!(out.sink, "INFO my_module started");
}

#[test]
fn console_line_is_the_sink_message_and_a_line_feed() {
    let out = emission(Level::Trace, "a::b", "x y z");
    assert_eq!(out.console, format!("{}\n", out.sink));
    assert_eq!(out.sink, entry(Level::Trace, "a::b", "x y z"));
}

#[test]
fn tee_sends_nothing_for_a_rejected_record() {
    assert_eq!(tee_record(false, Level::Error, "my_module", "boom"), None);
}

#[test]
fn tee_sends_one_emission_for_an_admitted_record() {
    assert_eq!(
        tee_record(true, Level::Error, "my_module", "boom"),
        Some(Emission {
            console: "ERROR my_module boom\n".to_string(),
            sink: "ERROR my_module boom".to_string(),
        })
    );
}
