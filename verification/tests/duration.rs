use fterm::util::duration;

#[test]
fn zero_seconds() {
        assert_eq!(duration::format(0), "0s");
    }

#[test]
fn only_seconds() {
        assert_eq!(duration::format(45), "45s");
    }

#[test]
fn minutes_and_seconds() {
        assert_eq!(duration::format(330), "5m30s");
    }

#[test]
fn hours_minutes_seconds() {
        assert_eq!(duration::format(3665), "1h1m5s");
    }

#[test]
fn days_hours_minutes_seconds() {
        // 3d=259200, 23h=82800, 37m=2220, 29s => 344249
        assert_eq!(duration::format(344_249), "3d 23h37m29s");
    }

#[test]
fn exact_one_day() {
        assert_eq!(duration::format(86400), "1d 0h0m0s");
    }

#[test]
fn exact_one_hour() {
        assert_eq!(duration::format(3600), "1h0m0s");
    }

#[test]
fn exact_one_minute() {
        assert_eq!(duration::format(60), "1m0s");
    }

#[test]
fn one_second() {
        assert_eq!(duration::format(1), "1s");
    }
