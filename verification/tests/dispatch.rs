use wakeword::dispatch::{dispatch_window, format_log_line, phrase_matches, Segment};

const PHRASE: &str = "the octopus has escaped";

fn seg(text: &str, t0: i64, t1: i64) -> Segment {
    Segment { text: String::from(text), start_time: t0, end_time: t1 }
}

#[test]
fn trigger_matching_is_case_insensitive() {
    assert!(phrase_matches("The Octopus Has Escaped now", PHRASE));
}

#[test]
fn trigger_matching_is_substring_containment() {
    assert!(phrase_matches(
        "I repeat: the octopus has escaped, all hands on deck",
        PHRASE
    ));
    assert!(phrase_matches("the octopus has escaped", PHRASE));
    assert!(!phrase_matches("the octopus is asleep", PHRASE));
    assert!(!phrase_matches("", PHRASE));
}

#[test]
fn log_line_format_is_exact() {
    assert_eq!(
        format_log_line("2001-09-09T01:46:40Z", 0, 150, " hello there"),
        "[2001-09-09T01:46:40Z | 0 - 150]:  hello there"
    );
    assert_eq!(format_log_line("ts", -7, 12, "x"), "[ts | -7 - 12]: x");
}

#[test]
fn dispatch_concatenates_segments_in_order() {
    let segments = vec![seg(" the octopus", 0, 80), seg(" has escaped", 80, 150)];
    let out = dispatch_window(&segments, PHRASE, false);
    assert_eq!(out.transcript, " the octopus has escaped");
    assert!(out.fired);
    assert_eq!(out.log_lines.len(), 0);
}

#[test]
fn dispatch_without_match_does_not_fire() {
    let segments = vec![seg("nothing to", 0, 50), seg(" report", 50, 90)];
    let out = dispatch_window(&segments, PHRASE, false);
    assert_eq!(out.transcript, "nothing to report");
    assert!(!out.fired);
}

#[test]
fn dispatch_writes_one_log_line_per_segment() {
    let segments = vec![seg(" first", 0, 60), seg(" second", 60, 120)];
    let out = dispatch_window(&segments, PHRASE, true);
    assert_eq!(out.log_lines.len(), 2);
    assert!(out.log_lines[0].starts_with("["));
    assert!(out.log_lines[0].ends_with(" | 0 - 60]:  first"));
    assert!(out.log_lines[1].starts_with("["));
    assert!(out.log_lines[1].ends_with(" | 60 - 120]:  second"));
}

#[test]
fn dispatch_fires_only_on_concatenated_text() {
    // The phrase spans a segment boundary: only the concatenation holds it.
    let segments = vec![seg("THE OCTOPUS", 0, 70), seg(" HAS ESCAPED", 70, 140)];
    let out = dispatch_window(&segments, PHRASE, false);
    assert!(out.fired);
}
