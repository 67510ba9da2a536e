use sands_timer::display::format_mmss;

#[test]
fn clock_pads_to_two_digits() {
    assert_eq!(format_mmss(0), "00:00");
    assert_eq!(format_mmss(1), "00:01");
    assert_eq!(format_mmss(9), "00:09");
    assert_eq!(format_mmss(10), "00:10");
    assert_eq!(format_mmss(59), "00:59");
    assert_eq!(format_mmss(60), "01:00");
    assert_eq!(format_mmss(61), "01:01");
    assert_eq!(format_mmss(599), "09:59");
    assert_eq!(format_mmss(600), "10:00");
    assert_eq!(format_mmss(1500), "25:00");
    assert_eq!(format_mmss(1800), "30:00");
    assert_eq!(format_mmss(5999), "99:59");
}

#[test]
fn clock_grows_past_99_minutes() {
    assert_eq!(format_mmss(6000), "100:00");
    assert_eq!(format_mmss(7200), "120:00");
    assert_eq!(format_mmss(7265), "121:05");
    assert_eq!(format_mmss(u64::MAX), "307445734561825860:15");
}

#[test]
fn clock_agrees_with_std_formatting() {
    let mut secs: u64 = 0;
    while secs < 20_000 {
        assert_eq!(format_mmss(secs), format!("{:02}:{:02}", secs / 60, secs % 60));
        secs += 7;
    }
}
