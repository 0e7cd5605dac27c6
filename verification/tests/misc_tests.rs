use player_core::clock::{greeting_for_hour, greeting_text, Greeting};
use player_core::text::{min_sec, mm_ss, round_ms_to_secs};

#[test]
fn greeting_by_hour() {
    assert_eq!(greeting_for_hour(5), Greeting::Night);
    assert_eq!(greeting_for_hour(6), Greeting::Morning);
    assert_eq!(greeting_for_hour(11), Greeting::Morning);
    assert_eq!(greeting_for_hour(12), Greeting::Afternoon);
    assert_eq!(greeting_for_hour(17), Greeting::Afternoon);
    assert_eq!(greeting_for_hour(18), Greeting::Night);
    assert_eq!(greeting_for_hour(0), Greeting::Night);
    assert_eq!(Greeting::Morning.text(), "Buenos días");
    assert_eq!(Greeting::Afternoon.text(), "Buenas tardes");
    assert_eq!(Greeting::Night.text(), "Buenas noches");
}

#[test]
fn greeting_text_is_one_of_the_three() {
    let g = greeting_text();
    assert!(g == "Buenos días" || g == "Buenas tardes" || g == "Buenas noches");
}

#[test]
fn clock_texts() {
    assert_eq!(min_sec(0), "0:00");
    assert_eq!(min_sec(61), "1:01");
    assert_eq!(min_sec(600), "10:00");
    assert_eq!(mm_ss(5), "00:05");
    assert_eq!(mm_ss(59 * 60 + 59), "59:59");
    assert_eq!(mm_ss(123 * 60), "123:00");
    assert_eq!(round_ms_to_secs(499), 0);
    assert_eq!(round_ms_to_secs(500), 1);
    assert_eq!(round_ms_to_secs(1_499), 1);
    assert_eq!(round_ms_to_secs(u64::MAX), u64::MAX / 1000 + 1);
}
