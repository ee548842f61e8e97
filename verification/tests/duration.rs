use desktoprecorder::cli::Span;
use desktoprecorder::duration::{parse_duration, text_in_range, DurationError};

#[test]
fn durations_are_read_as_people_write_them() {
    assert_eq!(parse_duration("10s"), Ok(Span { secs: 10, nanos: 0 }));
    assert_eq!(parse_duration("2m30s"), Ok(Span { secs: 150, nanos: 0 }));
    assert_eq!(parse_duration("1h"), Ok(Span { secs: 3600, nanos: 0 }));
    assert_eq!(parse_duration("32ms"), Ok(Span { secs: 0, nanos: 32_000_000 }));
    assert_eq!(parse_duration("4.2s"), Ok(Span { secs: 4, nanos: 200_000_000 }));
    assert_eq!(parse_duration("0"), Ok(Span { secs: 0, nanos: 0 }));
}

#[test]
fn what_is_no_duration_is_refused() {
    for text in ["", "not-a-duration", "10", "10x", "s", "-1s"] {
        assert_eq!(parse_duration(text), Err(DurationError::Malformed), "{text:?}");
    }
}

#[test]
fn the_longest_durations_still_count() {
    for text in [
        "600000000000h",
        "600000000000000ns 1h",
        "18446744073709551615ns",
        "18446744073709551615s",
        "18446744073709551615.5s",
        "18446744073709551615s 1ns",
        "18446744073709551615s 999999999ns",
        "18446744073709551614.5s 500ms 999millis",
        "307445734561825860m 15.999s",
        "18446744072000000000ns 18446744072000000000ns",
        "500000000000years 1ms",
        "1month 1us",
    ] {
        assert!(text_in_range(text), "{text:?}");
        let expected = text.parse::<humantime::Duration>().unwrap();
        let span = Span { secs: expected.as_secs(), nanos: expected.subsec_nanos() };
        assert_eq!(parse_duration(text), Ok(span), "{text:?}");
    }
}

#[test]
fn durations_beyond_all_seconds_are_refused() {
    for text in [
        "18446744073709551615s 999999999ns 1ns",
        "18446744073709551616s",
        "18446744073709551615s 1s",
        "18446744073709551615.5s 500ms",
        "307445734561825861m",
        "99999999999999999999999999999999999999999s",
        "600000000000years",
    ] {
        assert_eq!(parse_duration(text), Err(DurationError::OutOfRange), "{text:?}");
    }
}

#[test]
fn usual_durations_agree_with_humantime() {
    for text in [
        "1ns", "1us", "1\u{b5}s", "5msec", "7 min", "3days 4hours", "2w", "1M", "1y", "1 000s", "1.5h",
        "0.25m", "1month", "10mins", "90seconds", "1h1h",
    ] {
        let expected = text.parse::<humantime::Duration>().unwrap();
        let span = Span { secs: expected.as_secs(), nanos: expected.subsec_nanos() };
        assert_eq!(parse_duration(text), Ok(span), "{text:?}");
    }
}

#[test]
fn only_what_humantime_refuses_is_out_of_range() {
    // Close to the limit from either side, in every unit and with fractions.
    let units: [(&str, u128); 9] = [
        ("s", 1),
        ("m", 60),
        ("min", 60),
        ("h", 3_600),
        ("d", 86_400),
        ("w", 604_800),
        ("M", 2_630_016),
        ("months", 2_630_016),
        ("y", 31_557_600),
    ];
    for (name, seconds) in units {
        let most = (1u128 << 64) / seconds;
        for n in [most - 1, most, most + 1] {
            for text in [format!("{n}{name}"), format!("{n}.5{name}"), format!("{n}.25 {name} 1s"), format!("{n}{name}1h")] {
                let expected = text.parse::<humantime::Duration>().ok();
                let read = parse_duration(&text).ok();
                assert_eq!(
                    read,
                    expected.map(|d| Span { secs: d.as_secs(), nanos: d.subsec_nanos() }),
                    "{text:?}"
                );
            }
        }
    }
}

#[test]
fn fractions_too_fine_are_left_to_humantime() {
    for text in ["0.00000000000000000001s", "1.5ns", "0.1us", "1.0000000001s", "1..5s", "1.s", ".5s"] {
        let expected = text.parse::<humantime::Duration>().ok();
        let read = parse_duration(text).ok();
        assert_eq!(read, expected.map(|d| Span { secs: d.as_secs(), nanos: d.subsec_nanos() }), "{text:?}");
    }
}
