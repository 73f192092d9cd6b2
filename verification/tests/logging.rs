use pomodoro::logging::get_binary_name;

#[test]
fn test_get_binary_name() {
    let binary_name = get_binary_name();
    assert_eq!("pomodoro", binary_name);
}
