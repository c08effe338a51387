use rproc::ui::settings::{format_ms, State};

#[test]
fn interval_labels() {
    assert_eq!(format_ms(0), Some("0 ms".to_string()));
    assert_eq!(format_ms(250), Some("250 ms".to_string()));
    assert_eq!(format_ms(999), Some("999 ms".to_string()));
    assert_eq!(format_ms(1000), Some("1 s".to_string()));
    assert_eq!(format_ms(60000), Some("60 s".to_string()));
    assert_eq!(format_ms(1500), None);
    let _state = State::default();
}
