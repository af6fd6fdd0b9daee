use uintr::arguments::{message_count, DEFAULT_MESSAGE_COUNT};

fn args(a: &[&str]) -> Vec<String> {
    a.iter().map(|s| s.to_string()).collect()
}

#[test]
fn default_count() {
    assert_eq!(message_count(&args(&["server"])), DEFAULT_MESSAGE_COUNT);
    assert_eq!(DEFAULT_MESSAGE_COUNT, 1000);
    assert_eq!(message_count(&args(&["server", "many"])), 1000);
}

#[test]
fn last_number_wins() {
    assert_eq!(message_count(&args(&["client", "10"])), 10);
    assert_eq!(message_count(&args(&["client", "10", "x", "25", "y"])), 25);
    assert_eq!(message_count(&args(&["client", "+7"])), 7);
    assert_eq!(message_count(&args(&["client", "0"])), 0);
}

#[test]
fn the_program_name_is_not_read() {
    assert_eq!(message_count(&args(&["5"])), 1000);
}
