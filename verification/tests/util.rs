use pomodoro::command::util::read_input;

#[test]
fn test_read_command() {
    let mut input = &b"list"[..];
    let mut output = Vec::new();

    let command = read_input(&mut output, &mut input);
    assert_eq!(Some("list".to_string()), command);
    assert_eq!(b"> ".to_vec(), output);
}
