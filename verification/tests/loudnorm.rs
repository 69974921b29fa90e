use tendril_core::audio::loudnorm::{measurement_json, measurement_span};

const SAMPLE_STDERR: &str = r#"
ffmpeg version 7.1.1 Copyright (c) 2000-2025 the FFmpeg developers
[Parsed_loudnorm_0 @ 0x600003204000]
{
	"input_i" : "-9.45",
	"input_tp" : "-2.28",
	"target_offset" : "0.65"
}
"#;

#[test]
fn measurement_is_the_last_brace_pair() {
    let j = measurement_json(SAMPLE_STDERR).unwrap();
    assert!(j.starts_with('{') && j.ends_with('}'));
    assert!(j.contains("\"input_i\" : \"-9.45\""));
    let start = SAMPLE_STDERR.rfind('{').unwrap();
    let end = SAMPLE_STDERR.rfind('}').unwrap();
    assert_eq!(j, &SAMPLE_STDERR[start..=end]);
}

#[test]
fn no_measurement_without_an_ordered_brace_pair() {
    assert!(measurement_json("").is_none());
    assert!(measurement_json("ffmpeg version 7.1.1 nothing else").is_none());
    assert!(measurement_json("} prefix garbage {").is_none());
    assert!(measurement_json("only { open").is_none());
    assert!(measurement_json("only } close").is_none());
}

#[test]
fn span_counts_characters() {
    assert_eq!(measurement_span("é{a}"), Some((1, 3)));
    assert_eq!(measurement_span("{x}{y}"), Some((3, 5)));
    assert_eq!(measurement_json("{x}{y}").as_deref(), Some("{y}"));
    assert_eq!(measurement_json("{a}}").as_deref(), Some("{a}}"));
}
