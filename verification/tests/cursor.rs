use own_view::cursor::{
    get_cursor_position, parse_i32, point_or_origin, position_from_text, read_position, IntFault,
};

fn parse(text: &str) -> Result<i32, IntFault> {
    let chars: Vec<char> = text.chars().collect();
    parse_i32(&chars)
}

#[test]
fn integers_are_read() {
    assert_eq!(parse("0"), Ok(0));
    assert_eq!(parse("+12"), Ok(12));
    assert_eq!(parse("-12"), Ok(-12));
    assert_eq!(parse("0000000000000001"), Ok(1));
    assert_eq!(parse("2147483647"), Ok(i32::MAX));
    assert_eq!(parse("-2147483648"), Ok(i32::MIN));
}

#[test]
fn integer_faults_are_told_apart() {
    assert_eq!(parse(""), Err(IntFault::Empty));
    assert_eq!(parse("-"), Err(IntFault::InvalidDigit));
    assert_eq!(parse("+"), Err(IntFault::InvalidDigit));
    assert_eq!(parse("12 "), Err(IntFault::InvalidDigit));
    assert_eq!(parse("--1"), Err(IntFault::InvalidDigit));
    assert_eq!(parse("2147483648"), Err(IntFault::TooLarge));
    assert_eq!(parse("-2147483649"), Err(IntFault::TooSmall));
    assert_eq!(parse("99999999999x"), Err(IntFault::TooLarge));
    assert_eq!(parse("x99999999999"), Err(IntFault::InvalidDigit));
}

#[test]
fn integers_and_messages_agree_with_the_standard_library() {
    let samples = vec![
        "", "+", "-", "+-1", "-+1", "1+", " 1", "1 ", "1_000", "0x10", "१", "0", "-0", "+0", "7",
        "-7", "2147483646", "2147483647", "2147483648", "2147483649", "-2147483647", "-2147483648",
        "-2147483649", "21474836470", "-21474836480", "99999999999999999999999999",
        "-99999999999999999999999999", "2147483648x", "214748364x", "214748364x999999", "-214748364x",
        "-2147483649x", "00000000000000000000002147483647", "00000000000000000000002147483648",
        "1\r", "12a4", "+2147483647", "+2147483648",
    ];
    for text in samples {
        let expected = text.parse::<i32>().map_err(|e| e.to_string());
        assert_eq!(parse(text).map_err(|fault| fault.message()), expected, "{:?}", text);
    }
}

#[test]
fn decimal_text_is_read_back() {
    for n in vec![0, 1, -1, 9, 10, -10, 99, 12345, i32::MAX, i32::MIN] {
        assert_eq!(parse(&n.to_string()), Ok(n));
    }
}

#[test]
fn report_gives_the_position() {
    let report = "X=640\nY=-12\nSCREEN=0\nWINDOW=60817412\n";
    assert_eq!(read_position(report), Ok((640, -12)));
    assert_eq!(get_cursor_position(Ok(report.as_bytes().to_vec())), Ok((640, -12)));
}

#[test]
fn missing_coordinates_are_zero() {
    assert_eq!(read_position(""), Ok((0, 0)));
    assert_eq!(read_position("SCREEN=0\n"), Ok((0, 0)));
    assert_eq!(read_position("Y=5"), Ok((0, 5)));
}

#[test]
fn later_lines_win() {
    assert_eq!(read_position("X=1\nX=2\nY=3\n"), Ok((2, 3)));
}

#[test]
fn line_endings_may_be_crlf_or_missing() {
    assert_eq!(read_position("X=1\r\nY=2\r\n"), Ok((1, 2)));
    assert_eq!(read_position("X=1\r\nY=2"), Ok((1, 2)));
    assert_eq!(read_position("\n\nX=1\n\nY=2\n\n"), Ok((1, 2)));
    assert_eq!(read_position("X=1\nY=2\r"), Err(IntFault::InvalidDigit));
    assert_eq!(read_position("X=1\r\r\n"), Err(IntFault::InvalidDigit));
}

#[test]
fn other_lines_are_passed_over() {
    assert_eq!(read_position(" X=1\nx=2\nXY=3\nX\n"), Ok((0, 0)));
}

#[test]
fn first_fault_is_reported() {
    assert_eq!(read_position("X=a\nY=\n"), Err(IntFault::InvalidDigit));
    assert_eq!(read_position("Y=\nX=a\n"), Err(IntFault::Empty));
    let failed = get_cursor_position(Ok(b"X=99999999999\n".to_vec()));
    assert_eq!(failed, Err("number too large to fit in target type".to_string()));
    let failed = get_cursor_position(Ok(b"X=1\nY=-99999999999\n".to_vec()));
    assert_eq!(failed, Err("number too small to fit in target type".to_string()));
}

#[test]
fn output_that_is_no_text_is_reported() {
    let bytes = vec![b'X', b'=', 0xff, b'1'];
    let expected = String::from_utf8(bytes.clone()).unwrap_err().to_string();
    assert_eq!(get_cursor_position(Ok(bytes)), Err(expected));
}

#[test]
fn output_beyond_ascii_is_decoded() {
    let report = "NAME=größe\nX=3\nY=4\n";
    assert_eq!(get_cursor_position(Ok(report.as_bytes().to_vec())), Ok((3, 4)));
}

#[test]
fn tool_that_does_not_run_is_reported() {
    let failed = get_cursor_position(Err("No such file or directory".to_string()));
    assert_eq!(failed, Err("xdotool error: No such file or directory".to_string()));
}

#[test]
fn decoder_message_is_passed_on() {
    assert_eq!(position_from_text(Err("bad".to_string())), Err("bad".to_string()));
    assert_eq!(position_from_text(Ok("X=8\n".to_string())), Ok((8, 0)));
}

#[test]
fn unreadable_point_is_the_origin() {
    assert_eq!(point_or_origin(Some((-5, 7))), (-5, 7));
    assert_eq!(point_or_origin(None), (0, 0));
}
