use at_commands::builder::CommandBuilder;
use sim7020::at_command::parse_int_reply;
use sim7020::builder::{decimal_len, execute_command, query_command, test_command, SetCommand};

#[test]
fn one_shot_commands_match_the_builder() {
    let mut ours = [0u8; 32];
    let mut theirs = [0u8; 32];
    assert_eq!(
        query_command(&mut ours, "+X"),
        CommandBuilder::create_query(&mut theirs, true).named("+X").finish()
    );
    let mut ours = [0u8; 32];
    let mut theirs = [0u8; 32];
    assert_eq!(
        test_command(&mut ours, "+X"),
        CommandBuilder::create_test(&mut theirs, true).named("+X").finish()
    );
    let mut ours = [0u8; 32];
    let mut theirs = [0u8; 32];
    assert_eq!(
        execute_command(&mut ours, "+X"),
        CommandBuilder::create_execute(&mut theirs, true).named("+X").finish()
    );
}

#[test]
fn one_shot_commands_have_their_suffix() {
    let mut buffer = [0u8; 32];
    assert_eq!(query_command(&mut buffer, "+X").unwrap(), b"AT+X?\r\n");
    let mut buffer = [0u8; 32];
    assert_eq!(test_command(&mut buffer, "+X").unwrap(), b"AT+X=?\r\n");
    let mut buffer = [0u8; 32];
    assert_eq!(execute_command(&mut buffer, "+X").unwrap(), b"AT+X\r\n");
    let mut buffer = [0u8; 32];
    assert_eq!(execute_command(&mut buffer, "").unwrap(), b"AT\r\n");
}

#[test]
fn an_execute_command_loses_a_comma_that_ends_its_name() {
    let mut buffer = [0u8; 32];
    assert_eq!(execute_command(&mut buffer, "+X,").unwrap(), b"AT+X\r\n");
}

#[test]
fn one_shot_commands_in_small_buffers() {
    let mut buffer = [0u8; 7];
    assert_eq!(query_command(&mut buffer, "+X").unwrap(), b"AT+X?\r\n");
    let mut buffer = [0u8; 6];
    assert_eq!(query_command(&mut buffer, "+X"), Err(7));
    let mut buffer = [0u8; 0];
    assert_eq!(query_command(&mut buffer, "+X"), Err(7));
    let mut buffer = [0u8; 7];
    assert_eq!(test_command(&mut buffer, "+X"), Err(8));
    let mut buffer = [0u8; 5];
    assert_eq!(execute_command(&mut buffer, "+X"), Err(6));
}

#[test]
fn the_last_comma_is_dropped_only_where_the_text_fits() {
    // the text before finishing is `AT+X=5,` with 7 bytes
    let mut buffer = [0u8; 8];
    assert_eq!(SetCommand::begin(&mut buffer, "+X").integer(5).finish().unwrap(), b"AT+X=5\r\n");
    let mut buffer = [0u8; 7];
    assert_eq!(SetCommand::begin(&mut buffer, "+X").integer(5).finish(), Err(8));
    let mut buffer = [0u8; 6];
    assert_eq!(SetCommand::begin(&mut buffer, "+X").integer(5).finish(), Err(9));
}

#[test]
fn parameters_of_every_kind() {
    let mut buffer = [0u8; 64];
    let line = SetCommand::begin(&mut buffer, "+P")
        .integer(-42)
        .string(b"text")
        .optional_string(None)
        .optional_string(Some(b"opt"))
        .hex(&[0x00, 0x0f, 0xa5, 0xff])
        .finish()
        .unwrap();
    assert_eq!(line, b"AT+P=-42,\"text\",,\"opt\",000fa5ff\r\n");
}

#[test]
fn parameters_match_the_builder() {
    let mut ours = [0u8; 64];
    let mut theirs = [0u8; 64];
    let expected = CommandBuilder::create_set(&mut theirs, true)
        .named("+P")
        .with_int_parameter(i32::MIN)
        .with_string_parameter(b"a\"b")
        .with_optional_string_parameter(None::<&[u8]>)
        .with_rax_hex_parameter([0x12u8, 0xab])
        .finish();
    let got = SetCommand::begin(&mut ours, "+P")
        .integer(i32::MIN)
        .string(b"a\"b")
        .optional_string(None)
        .hex(&[0x12, 0xab])
        .finish();
    assert_eq!(got, expected);
    assert_eq!(got.unwrap(), b"AT+P=-2147483648,\"a\"b\",,12ab\r\n");
}

#[test]
fn empty_hex_parameter_is_a_lone_comma() {
    let mut buffer = [0u8; 16];
    assert_eq!(SetCommand::begin(&mut buffer, "+H").integer(1).hex(&[]).finish().unwrap(), b"AT+H=1,\r\n");
}

#[test]
fn decimal_length_counts_digits_and_sign() {
    assert_eq!(decimal_len(0), 1);
    assert_eq!(decimal_len(9), 1);
    assert_eq!(decimal_len(10), 2);
    assert_eq!(decimal_len(-1), 2);
    assert_eq!(decimal_len(-10), 3);
    assert_eq!(decimal_len(99999), 5);
    assert_eq!(decimal_len(i32::MAX), 10);
    assert_eq!(decimal_len(i32::MIN), 11);
}

#[test]
fn numbers_that_are_written_are_read_back() {
    for value in [0, 1, -1, 9, 10, -10, 99, 100, 65535, -65536, i32::MAX, i32::MIN, 2147483646] {
        let mut buffer = [0u8; 32];
        let line = SetCommand::begin(&mut buffer, "+N").integer(value).finish().unwrap();
        assert_eq!(parse_int_reply(line, "AT+N=", "\r\n"), Ok(value));
    }
}
