use clap::{Arg, Command};
use pomodoro::command::action::ActionType;
use pomodoro::command::application::{DEFAULT_BREAK_TIME, DEFAULT_WORK_TIME};
use pomodoro::command::output::{OutputAccumulater, OutputType};
use pomodoro::command::util::{
    clean_line, get_arg, parse_arg, parse_work_and_break_time, read_input, write_output,
};
use pomodoro::configuration::Configuration;
use pomodoro::error::ParseError;

#[test]
fn util_test_parse_arg() {
    let m = Command::new("myapp")
        .arg(Arg::new("id").num_args(1))
        .get_matches_from("myapp abc".split_whitespace());
    let value = m.get_one::<String>("id").map(|s| s.as_str());

    // parse as expected
    let id = get_arg(value, "id").unwrap_or_else(|e| panic!("An error occurs: {}", e.describe()));
    assert!(id.eq("abc"));

    let m = Command::new("myapp")
        .arg(Arg::new("id").num_args(1))
        .get_matches_from("myapp abc".split_whitespace());
    let value = m.get_one::<String>("id").map(|s| s.as_str());

    // error when parsing
    let id = parse_arg(value, "id");
    assert!(id.is_err());
    assert!(id.err().unwrap().describe().contains("failed to parse arg"));
}

#[test]
fn argument_test_parse_arg() {
    let m = Command::new("myapp")
        .arg(Arg::new("id").num_args(1))
        .get_matches_from("myapp abc".split_whitespace());
    let value = m.get_one::<String>("id").map(|s| s.as_str());

    // parse as expected
    let id = get_arg(value, "id").unwrap_or_else(|e| panic!("An error occurs: {}", e.describe()));
    assert!(id.eq("abc"));

    // error when parsing
    let id = parse_arg(value, "id");
    assert!(id.is_err());
    assert!(id.err().unwrap().describe().contains("failed to parse arg"));
}

#[test]
fn arguments_are_numbers_below_65536() {
    assert_eq!(Some(0), parse_arg(Some("0"), "id").ok());
    assert_eq!(Some(7), parse_arg(Some("007"), "id").ok());
    assert_eq!(Some(7), parse_arg(Some("+7"), "id").ok());
    assert_eq!(Some(65535), parse_arg(Some("65535"), "id").ok());
    assert_eq!(Some(65535), parse_arg(Some("0000000000000000000065535"), "id").ok());
    for bad in ["", "+", "-0", "-1", "65536", "99999999999999999999", " 7", "7 ", "7a", "0x7", "1_0", "++1", "٣"] {
        let e = parse_arg(Some(bad), "id").unwrap_err();
        assert_eq!(
            format!("error occurred while parsing: failed to parse arg ({})", bad),
            e.describe()
        );
    }
    let e = parse_arg(None, "id").unwrap_err();
    assert_eq!("error occurred while parsing: failed to get (id) from cli", e.describe());
    let e = get_arg(None, "work").unwrap_err();
    assert_eq!("error occurred while parsing: failed to get (work) from cli", e.describe());
    assert_eq!("x", get_arg(Some("x"), "work").unwrap());
    assert_eq!("error occurred while parsing: because", ParseError::new("because".to_string()).describe());
}

#[test]
fn minutes_come_from_the_line_then_the_configuration_then_the_defaults() {
    let configured = Configuration::new(None, None, None, Some(30), Some(10));
    let half = Configuration::new(None, None, None, None, Some(10));
    let empty = Configuration::default();
    assert_eq!((25, 5), (DEFAULT_WORK_TIME, DEFAULT_BREAK_TIME));

    let resolve = |work, rest, conf| parse_work_and_break_time(work, rest, conf).unwrap();
    assert_eq!((Some(30), Some(10)), resolve(None, None, Some(&configured)));
    assert_eq!((Some(25), Some(10)), resolve(None, None, Some(&half)));
    assert_eq!((Some(25), Some(5)), resolve(None, None, Some(&empty)));
    assert_eq!((Some(50), Some(10)), resolve(Some("50"), None, Some(&configured)));
    assert_eq!((Some(30), Some(0)), resolve(None, Some("0"), Some(&configured)));
    assert_eq!((Some(50), Some(25)), resolve(Some("50"), Some("25"), Some(&empty)));
    assert_eq!((Some(7), Some(65535)), resolve(Some("+7"), Some("65535"), Some(&empty)));

    assert_eq!((None, None), resolve(None, None, None));
    assert_eq!((Some(50), None), resolve(Some("50"), None, None));
    assert_eq!((None, Some(25)), resolve(None, Some("25"), None));
}

#[test]
fn malformed_minutes_are_refused() {
    let configured = Configuration::new(None, None, None, Some(30), Some(10));
    let refused = |work, rest, conf| {
        parse_work_and_break_time(work, rest, conf).unwrap_err().describe()
    };
    for conf in [Some(&configured), None] {
        for bad in ["abc", "-1", "70000", "65536", "", " 5", "5 ", "fifty"] {
            let text = format!("error occurred while parsing: failed to parse arg ({})", bad);
            assert_eq!(text, refused(Some(bad), None, conf));
            assert_eq!(text, refused(Some(bad), Some("5"), conf));
            assert_eq!(text, refused(None, Some(bad), conf));
            assert_eq!(text, refused(Some("25"), Some(bad), conf));
        }
        assert_eq!(
            "error occurred while parsing: failed to parse arg (x)",
            refused(Some("x"), Some("65536"), conf)
        );
    }
}

#[test]
fn actions_are_named_in_any_case() {
    let table = [
        ("create", ActionType::Create),
        ("CREATE", ActionType::Create),
        ("Create", ActionType::Create),
        ("q", ActionType::Queue),
        ("Q", ActionType::Queue),
        ("queue", ActionType::Queue),
        ("QuEuE", ActionType::Queue),
        ("delete", ActionType::Delete),
        ("ls", ActionType::List),
        ("LS", ActionType::List),
        ("list", ActionType::List),
        ("test", ActionType::Test),
        ("exit", ActionType::Exit),
        ("clear", ActionType::Clear),
        ("HISTORY", ActionType::History),
    ];
    for (word, action) in table {
        assert_eq!(Some(action), ActionType::parse(word).ok(), "word {}", word);
    }
    for word in ["", "c", "d", "creat", "create ", " list", "lists", "queue2", "ｌｓ"] {
        let e = ActionType::parse(word).unwrap_err();
        assert_eq!(
            format!("error occurred while parsing: failed to parse str ({}) to ActionType", word),
            e.describe()
        );
    }
    // the keyword is taken as it is, the word only quoted
    assert_eq!(Some(ActionType::List), ActionType::from_keyword("ls", "LS").ok());
    assert!(ActionType::from_keyword("LS", "ls").is_err());
}

#[test]
fn actions_have_their_keywords() {
    let table = [
        (ActionType::Create, "create"),
        (ActionType::Queue, "queue"),
        (ActionType::Delete, "delete"),
        (ActionType::List, "list"),
        (ActionType::Test, "test"),
        (ActionType::Exit, "exit"),
        (ActionType::Clear, "clear"),
        (ActionType::History, "history"),
    ];
    for (action, keyword) in table {
        assert_eq!(keyword, action.keyword());
        assert_eq!(keyword, String::from(action));
        assert_eq!(Some(action), ActionType::parse(keyword).ok());
    }
}

#[test]
fn the_accumulator_hands_out_its_lines_once() {
    let mut output = OutputAccumulater::new();
    assert!(output.take_body().is_empty());
    output.push(OutputType::Info, "one".to_string());
    output.push(OutputType::Error, "two".to_string());
    output.push(OutputType::Print, "".to_string());
    output.push(OutputType::Println, "four".to_string());
    assert_eq!(
        &vec![OutputType::Info, OutputType::Error, OutputType::Print, OutputType::Println],
        output.kinds()
    );
    assert_eq!(&vec!["one", "two", "", "four"], output.body());
    assert_eq!(vec!["one", "two", "", "four"], output.take_body());
    assert!(output.kinds().is_empty());
    assert!(output.body().is_empty());
    assert!(output.take_body().is_empty());
    output.push(OutputType::Println, "five".to_string());
    assert_eq!(vec!["five"], output.take_body());
}

#[test]
fn the_prompt_is_written_before_the_line_is_read() {
    let mut input = &b"  delete -i 7 \t\r\nlist\n"[..];
    let mut output = Vec::new();
    assert_eq!(Some("delete -i 7".to_string()), read_input(&mut output, &mut input));
    assert_eq!(Some("list".to_string()), read_input(&mut output, &mut input));
    assert_eq!(Some("".to_string()), read_input(&mut output, &mut input));
    assert_eq!(b"> > > ".to_vec(), output);

    let mut output = Vec::new();
    assert!(write_output(&mut output));
    assert_eq!(b"> ".to_vec(), output);

    let mut full = [0u8; 1];
    let mut cursor = std::io::Cursor::new(&mut full[..]);
    assert!(!write_output(&mut cursor));
    let mut input = &b"list"[..];
    assert_eq!(None, read_input(&mut cursor, &mut input));

    let mut broken = &[0xffu8, 0xfe, b'\n'][..];
    let mut output = Vec::new();
    assert_eq!(None, read_input(&mut output, &mut broken));

    assert_eq!("a  b", clean_line("\u{3000} a  b\u{a0}\n"));
}

#[test]
fn lines_lose_the_white_space_around_them() {
    let white: Vec<char> = [
        0x09u32, 0x0A, 0x0B, 0x0C, 0x0D, 0x20, 0x85, 0xA0, 0x1680, 0x2000, 0x2001, 0x2002, 0x2003,
        0x2004, 0x2005, 0x2006, 0x2007, 0x2008, 0x2009, 0x200A, 0x2028, 0x2029, 0x202F, 0x205F,
        0x3000,
    ]
    .iter()
    .map(|code| char::from_u32(*code).unwrap())
    .collect();
    assert_eq!(25, white.len());
    for c in &white {
        assert_eq!("list", clean_line(&format!("{}list{}", c, c)));
        assert_eq!("a b", clean_line(&format!("{}{}a b", c, c)));
        assert_eq!(format!("a{}b", c), clean_line(&format!("a{}b{}", c, c)));
        assert_eq!("", clean_line(&format!("{}", c)));
    }
    let all: String = white.iter().collect();
    assert_eq!("", clean_line(&all));
    assert_eq!("x", clean_line(&format!("{}x{}", all, all)));

    // what only looks like white space stays
    for code in [0x00u32, 0x08, 0x0E, 0x1F, 0x7F, 0x84, 0x86, 0x180E, 0x200B, 0x200C, 0x2060, 0xFEFF] {
        let c = char::from_u32(code).unwrap();
        assert_eq!(format!("{}list{}", c, c), clean_line(&format!(" {}list{} ", c, c)));
    }
    assert_eq!("", clean_line(""));
    assert_eq!("delete -i 7", clean_line("delete -i 7"));
}
