use bustop::sources::ioreport::IOReportSample;

#[test]
fn sample_from_complete_record() {
    let s = IOReportSample::from_fields(
        Some("Energy Model".to_string()),
        Some("".to_string()),
        Some("GPU Energy".to_string()),
        Some("mJ".to_string()),
        Some(-42),
    );
    assert_eq!(s.group, "Energy Model");
    assert_eq!(s.subgroup, "");
    assert_eq!(s.channel, "GPU Energy");
    assert_eq!(s.unit, "mJ");
    assert_eq!(s.value, -42);
}

#[test]
fn sample_from_empty_record() {
    let s = IOReportSample::from_fields(None, None, None, None, None);
    assert_eq!(s.group, "");
    assert_eq!(s.subgroup, "");
    assert_eq!(s.channel, "");
    assert_eq!(s.unit, "");
    assert_eq!(s.value, 0);
}

#[test]
fn sample_from_partial_record() {
    let s = IOReportSample::from_fields(
        Some("CPU Stats".to_string()),
        None,
        Some("ECPU".to_string()),
        None,
        Some(i64::MAX),
    );
    assert_eq!(s.group, "CPU Stats");
    assert_eq!(s.subgroup, "");
    assert_eq!(s.channel, "ECPU");
    assert_eq!(s.unit, "");
    assert_eq!(s.value, i64::MAX);
}
