use display_switch::switch_executor::{must_write, INPUT_SELECT, RETRY_DELAY_MS};

#[test]
fn no_write_when_read_matches() {
    let read: Result<u16, String> = Ok(0x01);
    assert!(!must_write(&read, 0x01));
}

#[test]
fn wide_read_values_are_masked_to_the_low_byte() {
    let read: Result<u16, String> = Ok(0xff01);
    assert!(!must_write(&read, 0x01));
}

#[test]
fn one_write_on_mismatched_value() {
    let read: Result<u16, String> = Ok(0x02);
    assert!(must_write(&read, 0x01));
}

#[test]
fn one_write_when_the_read_fails() {
    let read: Result<u16, String> = Err("transport error".to_string());
    assert!(must_write(&read, 0x01));
}

#[test]
fn masking_does_not_help_a_mismatched_low_byte() {
    let read: Result<u16, String> = Ok(0x0102);
    assert!(must_write(&read, 0x01));
}

#[test]
fn protocol_constants() {
    assert_eq!(INPUT_SELECT, 0x60);
    assert_eq!(RETRY_DELAY_MS, 3000);
}
