use alumet_plugins::quarch::poll_to_sample;
use alumet_plugins::quarch_link::{
    averaging_command, frame_command, output_readings, read_answer, take_chunk, LinkError, Quantity,
};

#[test]
fn commands_are_framed_with_their_length() {
    let mut expected = vec![12u8, 0u8];
    expected.extend_from_slice(b"RECord:RUN\r\n");
    assert_eq!(frame_command("RECord:RUN"), expected);
    assert_eq!(frame_command(""), vec![2, 0, 13, 10]);
    // the length byte wraps around for long commands
    let long = "x".repeat(300);
    assert_eq!(frame_command(&long)[0], (302 % 256) as u8);
    assert_eq!(frame_command(&long).len(), 304);
}

#[test]
fn averaging_is_asked_in_thousands_of_samples() {
    let (sample, _) = poll_to_sample(1_000_000_000);
    assert_eq!(averaging_command(sample), "RECord:AVEraging 32768K");
    assert_eq!(averaging_command(32), "RECord:AVEraging 32K");
}

#[test]
fn answers_are_put_back_together() {
    let mut buffer = Vec::new();
    assert!(!take_chunk(&mut buffer, b"\x05\x00 OK"));
    assert!(!take_chunk(&mut buffer, b"ab"));
    assert!(take_chunk(&mut buffer, b"\x03\x00\r\n>"));
    assert_eq!(buffer, b" OK\r\n>".to_vec());
    assert_eq!(read_answer(&buffer), Ok("OK".to_string()));
    assert_eq!(read_answer(b"value\r\n>\r\n>"), Ok("value".to_string()));
    assert_eq!(read_answer(&[]), Err(LinkError::EmptyAnswer));
}

#[test]
fn output_lines_give_voltages_and_currents() {
    let outputs = "+12V:\r\nVoltage = 12003 mV\r\nCurrent = 1500uA\r\nnothing here\r\n+5V:V=5000mV";
    assert_eq!(
        output_readings(outputs),
        vec![
            (Quantity::Voltage, "12003".to_string()),
            (Quantity::Current, "1500".to_string()),
            (Quantity::Voltage, "5000".to_string()),
        ]
    );
    assert!(output_readings("").is_empty());
    // a line with no number still names its quantity; its value does not parse
    assert_eq!(output_readings("mV"), vec![(Quantity::Voltage, "".to_string())]);
}

#[test]
fn answers_with_invalid_bytes_are_read_lossily() {
    assert_eq!(read_answer(b"\xffok \r\n>"), Ok("\u{FFFD}ok".to_string()));
}

#[test]
fn numbers_keep_every_numeric_character() {
    // `²` is numeric for Unicode; the value then fails to parse as a float, and is skipped
    assert_eq!(output_readings("V = 1.5² mV"), vec![(Quantity::Voltage, "1.5²".to_string())]);
}
