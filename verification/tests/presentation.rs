use tendril_core::presentation::{format_duration, should_search_live, should_search_now, stage_label, stage_rgb, wants_debug_logging};
use tendril_core::progress::{PipelineStage, ProgressEvent};

#[test]
fn durations_are_minutes_and_two_digit_seconds() {
    assert_eq!(format_duration(0), "");
    assert_eq!(format_duration(5), "0:05");
    assert_eq!(format_duration(59), "0:59");
    assert_eq!(format_duration(60), "1:00");
    assert_eq!(format_duration(215), "3:35");
    assert_eq!(format_duration(3725), "62:05");
    assert_eq!(format_duration(u32::MAX), format!("{}:{:02}", u32::MAX / 60, u32::MAX % 60));
}

#[test]
fn stage_labels_and_colours() {
    assert_eq!(stage_label(PipelineStage::Queued), "Queued");
    assert_eq!(stage_label(PipelineStage::Splitting), "Splitting");
    assert_eq!(stage_label(PipelineStage::Complete), "Done");
    assert_eq!(stage_label(PipelineStage::Failed), "Failed");
    assert_eq!(stage_rgb(PipelineStage::Downloading), (0x5b, 0x94, 0xd4));
    assert_eq!(stage_rgb(PipelineStage::Failed), (0xd4, 0x6b, 0x6b));
}

#[test]
fn live_search_needs_two_bytes() {
    assert!(!should_search_live(""));
    assert!(!should_search_live("   a  "));
    assert!(should_search_live(" ab "));
    // One non-ASCII character is already two bytes long.
    assert!(should_search_live("é"));
    for q in ["", "x", " xy", "ü", "日本", "  \t "] {
        assert_eq!(should_search_live(q), q.trim().len() >= 2, "query {q:?}");
    }
}

#[test]
fn explicit_search_needs_any_text() {
    assert!(!should_search_now("  \n"));
    assert!(should_search_now(" a "));
}

#[test]
fn debug_logging_flags() {
    let args = |a: &[&str]| a.iter().map(|s| s.to_string()).collect::<Vec<String>>();
    assert!(wants_debug_logging(&args(&["tendril", "--debug"])));
    assert!(wants_debug_logging(&args(&["tendril", "x", "-v"])));
    assert!(!wants_debug_logging(&args(&["tendril"])));
    assert!(!wants_debug_logging(&args(&["--debug"])));
    assert!(!wants_debug_logging(&args(&["tendril", "--Debug"])));
}

#[test]
fn default_progress_event_is_queued_at_zero() {
    let e = ProgressEvent::default();
    assert_eq!(e.stage, PipelineStage::Queued);
    assert_eq!(e.fraction_bp, 0);
    assert!(e.message.is_empty());
}
