use tendril_core::audio::mix::instrumental_filter;

#[test]
fn instrumental_filter_disables_amix_normalization() {
    let filter = instrumental_filter();
    assert!(
        filter.contains("normalize=0"),
        "filter must disable amix normalization to avoid ~9.54 dB attenuation, got: {filter}"
    );
}

#[test]
fn instrumental_filter_sums_three_inputs() {
    let filter = instrumental_filter();
    assert!(
        filter.contains("amix=inputs=3"),
        "filter must sum exactly 3 inputs (drums+bass+other), got: {filter}"
    );
}

#[test]
fn instrumental_filter_uses_longest_duration() {
    let filter = instrumental_filter();
    assert!(
        filter.contains("duration=longest"),
        "filter must use longest input duration, got: {filter}"
    );
}

#[test]
fn instrumental_filter_is_the_whole_amix_expression() {
    assert_eq!(instrumental_filter(), "amix=inputs=3:duration=longest:normalize=0");
}
