use shutdown_timer::resolver::hhmm_string;
use shutdown_timer::resolver::parse_hhmm;
use shutdown_timer::resolver::resolve;
use shutdown_timer::resolver::ParseError;
use shutdown_timer::stamp::LocalStamp;

fn at(day: i64, hour: u32, minute: u32) -> LocalStamp {
    LocalStamp { day, sec: hour * 3600 + minute * 60 }
}

#[test]
fn parse_accepts_exact_hhmm() {
    assert_eq!(parse_hhmm("00:00"), Some(0));
    assert_eq!(parse_hhmm("23:59"), Some(23 * 3600 + 59 * 60));
    assert_eq!(parse_hhmm("14:05"), Some(14 * 3600 + 5 * 60));
    assert_eq!(parse_hhmm("09:30"), Some(9 * 3600 + 30 * 60));
}

#[test]
fn parse_rejects_malformed_input() {
    assert_eq!(parse_hhmm("25:99"), None);
    assert_eq!(parse_hhmm("abc"), None);
    assert_eq!(parse_hhmm(""), None);
    assert_eq!(parse_hhmm("24:00"), None);
    assert_eq!(parse_hhmm("00:60"), None);
    assert_eq!(parse_hhmm("7:05"), None);
    assert_eq!(parse_hhmm("07:5"), None);
    assert_eq!(parse_hhmm("07-05"), None);
    assert_eq!(parse_hhmm("0a:05"), None);
    assert_eq!(parse_hhmm("07:05 "), None);
}

#[test]
fn resolve_later_time_is_same_day() {
    let now = at(100, 14, 0);
    assert_eq!(resolve("14:05", now), Ok(at(100, 14, 5)));
    assert_eq!(resolve("23:59", now), Ok(at(100, 23, 59)));
}

#[test]
fn resolve_earlier_time_rolls_to_next_day() {
    let now = at(100, 14, 0);
    assert_eq!(resolve("13:59", now), Ok(at(101, 13, 59)));
    assert_eq!(resolve("00:00", now), Ok(at(101, 0, 0)));
}

#[test]
fn resolve_equal_time_rolls_to_next_day() {
    // Equality to the second counts as already past: strict inequality.
    let now = at(100, 14, 0);
    assert_eq!(resolve("14:00", now), Ok(at(101, 14, 0)));
}

#[test]
fn resolve_result_is_strictly_future() {
    let inputs = ["00:00", "06:30", "12:00", "17:45", "23:59"];
    let now = at(50, 12, 0);
    let now_total = now.day * 86400 + now.sec as i64;
    for input in inputs {
        let t = resolve(input, now).unwrap();
        let total = t.day * 86400 + t.sec as i64;
        assert!(total > now_total);
        assert!(t.day == now.day || t.day == now.day + 1);
        assert_eq!(t.sec, parse_hhmm(input).unwrap());
    }
}

#[test]
fn resolve_rejects_malformed_input() {
    let now = at(100, 14, 0);
    assert_eq!(resolve("25:99", now), Err(ParseError));
    assert_eq!(resolve("abc", now), Err(ParseError));
    assert_eq!(resolve("", now), Err(ParseError));
}

#[test]
fn formats_seconds_of_day_as_hhmm() {
    assert_eq!(hhmm_string(9 * 3600 + 5 * 60), "09:05");
    assert_eq!(hhmm_string(0), "00:00");
    assert_eq!(hhmm_string(23 * 3600 + 59 * 60 + 59), "23:59");
    assert_eq!(hhmm_string(14 * 3600 + 10 * 60 + 30), "14:10");
}

#[test]
fn format_then_parse_drops_seconds_only() {
    for &sec in &[0u32, 59, 60, 3599, 3600, 50400, 86399] {
        let text = hhmm_string(sec);
        assert_eq!(parse_hhmm(&text), Some(sec - sec % 60));
    }
}
