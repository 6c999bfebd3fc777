use rlisp::error::LispError;
use rlisp::lisp::ExecutionTree;
use rlisp::lisp::ExecutionTreeNode;
use rlisp::lisp::ExecutionTreeObject;
use rlisp::string::decimal;
use rlisp::string::fraction;
use rlisp::string::text;

fn classify(token: &str) -> Result<ExecutionTreeObject, LispError> {
    ExecutionTree::visit_string(token)
}

fn numeric_failure(token: &str, expected_type: &str) {
    match classify(token) {
        Err(LispError::NumericTokenCannotBeParsed(error)) => {
            assert_eq!(error.token, token);
            assert_eq!(error.expected_type, expected_type);
        }
        other => panic!("{}: expected a numeric failure, got {:?}", token, other),
    }
}

#[test]
fn classify_examples() {
    assert_eq!(classify("5i8").unwrap(), ExecutionTreeObject::I8(5));
    numeric_failure("5i8000", "ExecutionTreeObject::I32");
    assert_eq!(classify("true").unwrap(), ExecutionTreeObject::Bool(true));
    match classify("'ab'") {
        Err(LispError::MultipleCharactersInSingleQuotes(error)) => assert_eq!(error.token, "ab"),
        other => panic!("expected several characters, got {:?}", other),
    }
}

#[test]
fn overflow_of_a_suffixed_number_fails() {
    numeric_failure("128i8", "ExecutionTreeObject::I8");
    numeric_failure("5000i8", "ExecutionTreeObject::I8");
    numeric_failure("256u8", "ExecutionTreeObject::U8");
    numeric_failure("99999999999999999999999999999999999999999u64", "ExecutionTreeObject::U64");
}

#[test]
fn booleans() {
    assert_eq!(classify("true").unwrap(), ExecutionTreeObject::Bool(true));
    assert_eq!(classify("false").unwrap(), ExecutionTreeObject::Bool(false));
    assert_eq!(classify("True").unwrap(), ExecutionTreeObject::Symbol("True".to_string()));
    assert_eq!(classify("truely").unwrap(), ExecutionTreeObject::Symbol("truely".to_string()));
}

#[test]
fn every_suffix_names_its_kind() {
    assert_eq!(classify("7i8").unwrap(), ExecutionTreeObject::I8(7));
    assert_eq!(classify("7i16").unwrap(), ExecutionTreeObject::I16(7));
    assert_eq!(classify("7i32").unwrap(), ExecutionTreeObject::I32(7));
    assert_eq!(classify("7i64").unwrap(), ExecutionTreeObject::I64(7));
    assert_eq!(classify("7isize").unwrap(), ExecutionTreeObject::ISize(7));
    assert_eq!(classify("7u8").unwrap(), ExecutionTreeObject::U8(7));
    assert_eq!(classify("7u16").unwrap(), ExecutionTreeObject::U16(7));
    assert_eq!(classify("7u32").unwrap(), ExecutionTreeObject::U32(7));
    assert_eq!(classify("7u64").unwrap(), ExecutionTreeObject::U64(7));
    assert_eq!(classify("7usize").unwrap(), ExecutionTreeObject::USize(7));
    assert_eq!(classify("7f32").unwrap(), ExecutionTreeObject::F32("7".to_string()));
    assert_eq!(classify("7.5f64").unwrap(), ExecutionTreeObject::F64("7.5".to_string()));
}

#[test]
fn number_without_suffix() {
    assert_eq!(classify("12").unwrap(), ExecutionTreeObject::I32(12));
    assert_eq!(classify("0").unwrap(), ExecutionTreeObject::I32(0));
    assert_eq!(classify("007").unwrap(), ExecutionTreeObject::I32(7));
    assert_eq!(classify("2.5").unwrap(), ExecutionTreeObject::F64("2.5".to_string()));
    assert_eq!(classify("2.").unwrap(), ExecutionTreeObject::F64("2.".to_string()));
    assert_eq!(classify("1.5e3").unwrap(), ExecutionTreeObject::F64("1.5e3".to_string()));
    numeric_failure("2147483648", "ExecutionTreeObject::I32");
    numeric_failure("1.2.3", "ExecutionTreeObject::F64");
    numeric_failure("12ab", "ExecutionTreeObject::I32");
    numeric_failure("1e3", "ExecutionTreeObject::I32");
    numeric_failure("1x.5", "ExecutionTreeObject::F64");
}

#[test]
fn sign_before_a_number() {
    assert_eq!(classify("-5").unwrap(), ExecutionTreeObject::I32(-5));
    assert_eq!(classify("+5").unwrap(), ExecutionTreeObject::I32(5));
    assert_eq!(classify("-128i8").unwrap(), ExecutionTreeObject::I8(-128));
    assert_eq!(classify("+255u8").unwrap(), ExecutionTreeObject::U8(255));
    assert_eq!(classify("-2.5").unwrap(), ExecutionTreeObject::F64("-2.5".to_string()));
    assert_eq!(classify("-inff64").unwrap(), ExecutionTreeObject::F64("-inf".to_string()));
    assert_eq!(classify("+nanf32").unwrap(), ExecutionTreeObject::F32("+nan".to_string()));
    numeric_failure("-5u8", "ExecutionTreeObject::U8");
    numeric_failure("-0u8", "ExecutionTreeObject::U8");
    numeric_failure("-129i8", "ExecutionTreeObject::I8");
    numeric_failure("--5", "ExecutionTreeObject::I32");
    numeric_failure("-x", "ExecutionTreeObject::I32");
    numeric_failure("+i8", "ExecutionTreeObject::I8");
    numeric_failure("-inf", "ExecutionTreeObject::I32");
    assert_eq!(classify("-").unwrap(), ExecutionTreeObject::Symbol("-".to_string()));
    assert_eq!(classify("+").unwrap(), ExecutionTreeObject::Symbol("+".to_string()));
}

#[test]
fn a_suffix_counts_only_after_something() {
    assert_eq!(classify("i8").unwrap(), ExecutionTreeObject::Symbol("i8".to_string()));
    assert_eq!(classify("usize").unwrap(), ExecutionTreeObject::Symbol("usize".to_string()));
    numeric_failure("1size", "ExecutionTreeObject::I32");
    numeric_failure("1f3", "ExecutionTreeObject::I32");
    numeric_failure("1ei8", "ExecutionTreeObject::I8");
    numeric_failure("1.5i32", "ExecutionTreeObject::I32");
}

#[test]
fn bounds_of_every_kind() {
    assert_eq!(classify("127i8").unwrap(), ExecutionTreeObject::I8(i8::MAX));
    assert_eq!(classify("-128i8").unwrap(), ExecutionTreeObject::I8(i8::MIN));
    assert_eq!(classify("32767i16").unwrap(), ExecutionTreeObject::I16(i16::MAX));
    assert_eq!(classify("-32768i16").unwrap(), ExecutionTreeObject::I16(i16::MIN));
    numeric_failure("32768i16", "ExecutionTreeObject::I16");
    assert_eq!(classify("2147483647i32").unwrap(), ExecutionTreeObject::I32(i32::MAX));
    assert_eq!(classify("-2147483648").unwrap(), ExecutionTreeObject::I32(i32::MIN));
    numeric_failure("-2147483649i32", "ExecutionTreeObject::I32");
    assert_eq!(classify("9223372036854775807i64").unwrap(), ExecutionTreeObject::I64(i64::MAX));
    assert_eq!(classify("-9223372036854775808i64").unwrap(), ExecutionTreeObject::I64(i64::MIN));
    numeric_failure("9223372036854775808i64", "ExecutionTreeObject::I64");
    assert_eq!(
        classify(&format!("{}isize", isize::MAX)).unwrap(),
        ExecutionTreeObject::ISize(isize::MAX)
    );
    assert_eq!(
        classify(&format!("{}isize", isize::MIN)).unwrap(),
        ExecutionTreeObject::ISize(isize::MIN)
    );
    assert_eq!(classify("255u8").unwrap(), ExecutionTreeObject::U8(u8::MAX));
    assert_eq!(classify("65535u16").unwrap(), ExecutionTreeObject::U16(u16::MAX));
    numeric_failure("65536u16", "ExecutionTreeObject::U16");
    assert_eq!(classify("4294967295u32").unwrap(), ExecutionTreeObject::U32(u32::MAX));
    numeric_failure("4294967296u32", "ExecutionTreeObject::U32");
    assert_eq!(classify("18446744073709551615u64").unwrap(), ExecutionTreeObject::U64(u64::MAX));
    numeric_failure("18446744073709551616u64", "ExecutionTreeObject::U64");
    assert_eq!(
        classify(&format!("{}usize", usize::MAX)).unwrap(),
        ExecutionTreeObject::USize(usize::MAX)
    );
    numeric_failure("18446744073709551616usize", "ExecutionTreeObject::USize");
}

#[test]
fn strings() {
    assert_eq!(classify("\"text\"").unwrap(), ExecutionTreeObject::String("text".to_string()));
    assert_eq!(classify("\"\"").unwrap(), ExecutionTreeObject::String(String::new()));
    assert_eq!(
        classify("\"a\\nb\\tc\\rd\\\\e\\0f\"").unwrap(),
        ExecutionTreeObject::String("a\nb\tc\rd\\e\0f".to_string())
    );
    assert_eq!(classify("\"a b\"").unwrap(), ExecutionTreeObject::String("a b".to_string()));
    assert_eq!(classify("\"ä\"").unwrap(), ExecutionTreeObject::String("ä".to_string()));
    match classify("\"open") {
        Err(LispError::NoClosingDoubleQuoteInExecutionTree(error)) => {
            assert_eq!(error.token, "\"open")
        }
        other => panic!("expected an open string, got {:?}", other),
    }
    assert!(matches!(classify("\""), Err(LispError::NoClosingDoubleQuoteInExecutionTree(_))));
    match classify("\"a\\qb\"") {
        Err(LispError::InvalidEscapeSequence(error)) => assert_eq!(error.escaped_character, 'q'),
        other => panic!("expected an invalid escape, got {:?}", other),
    }
    assert!(matches!(classify("\"a\\\""), Err(LispError::EmptyEscapeSequence(_))));
}

#[test]
fn characters() {
    assert_eq!(classify("'c'").unwrap(), ExecutionTreeObject::Char('c'));
    assert_eq!(classify("'\\n'").unwrap(), ExecutionTreeObject::Char('\n'));
    assert_eq!(classify("'\\\\'").unwrap(), ExecutionTreeObject::Char('\\'));
    assert_eq!(classify("'ä'").unwrap(), ExecutionTreeObject::Char('ä'));
    assert_eq!(classify("'''").unwrap(), ExecutionTreeObject::Char('\''));
    match classify("''") {
        Err(LispError::NoCharacterInSingleQuotes(error)) => assert_eq!(error.token, "''"),
        other => panic!("expected no character, got {:?}", other),
    }
    assert!(matches!(classify("'"), Err(LispError::NoCharacterInSingleQuotes(_))));
    match classify("'ab") {
        Err(LispError::NoClosingSingleQuoteInExecutionTree(error)) => {
            assert_eq!(error.token, "'ab")
        }
        other => panic!("expected an open character, got {:?}", other),
    }
    assert!(matches!(classify("'\\q'"), Err(LispError::InvalidEscapeSequence(_))));
    assert!(matches!(classify("'a\\'"), Err(LispError::EmptyEscapeSequence(_))));
    assert!(matches!(classify("'abc'"), Err(LispError::MultipleCharactersInSingleQuotes(_))));
}

#[test]
fn symbols_and_the_empty_token() {
    assert_eq!(classify("add").unwrap(), ExecutionTreeObject::Symbol("add".to_string()));
    assert_eq!(classify("a1").unwrap(), ExecutionTreeObject::Symbol("a1".to_string()));
    assert_eq!(classify(".5").unwrap(), ExecutionTreeObject::Symbol(".5".to_string()));
    assert_eq!(classify("inf").unwrap(), ExecutionTreeObject::Symbol("inf".to_string()));
    match classify("") {
        Err(LispError::EmptyStringDetected(error)) => assert_eq!(error.contents, ""),
        other => panic!("expected an empty token, got {:?}", other),
    }
}

#[test]
fn escape_sequences() {
    assert_eq!(ExecutionTree::convert_escape_sequences("").unwrap(), "");
    assert_eq!(ExecutionTree::convert_escape_sequences("plain").unwrap(), "plain");
    assert_eq!(ExecutionTree::convert_escape_sequences("\\n\\r\\t\\\\\\0").unwrap(), "\n\r\t\\\0");
    assert_eq!(ExecutionTree::convert_escape_sequences("a\\\\n").unwrap(), "a\\n");
    assert!(matches!(
        ExecutionTree::convert_escape_sequences("a\\"),
        Err(LispError::EmptyEscapeSequence(_))
    ));
    match ExecutionTree::convert_escape_sequences("a\\\"b\\x") {
        Err(LispError::InvalidEscapeSequence(error)) => assert_eq!(error.escaped_character, '"'),
        other => panic!("expected an invalid escape, got {:?}", other),
    }
}

#[test]
fn canonical_text_reads_back() {
    let objects = vec![
        ExecutionTreeObject::Bool(true),
        ExecutionTreeObject::Bool(false),
        ExecutionTreeObject::Char('c'),
        ExecutionTreeObject::Char('\n'),
        ExecutionTreeObject::Char(' '),
        ExecutionTreeObject::F32("1.5".to_string()),
        ExecutionTreeObject::F64("-2.25e-3".to_string()),
        ExecutionTreeObject::I8(-128),
        ExecutionTreeObject::I16(-1),
        ExecutionTreeObject::I32(0),
        ExecutionTreeObject::I64(i64::MIN),
        ExecutionTreeObject::ISize(isize::MAX),
        ExecutionTreeObject::Symbol("add".to_string()),
        ExecutionTreeObject::String("some text".to_string()),
        ExecutionTreeObject::String(String::new()),
        ExecutionTreeObject::U8(255),
        ExecutionTreeObject::U16(16),
        ExecutionTreeObject::U32(32),
        ExecutionTreeObject::U64(u64::MAX),
        ExecutionTreeObject::USize(0),
    ];
    for object in objects {
        let written = object.to_string().unwrap();
        assert_eq!(classify(&written).unwrap(), object, "{}", written);
    }
}

#[test]
fn canonical_text_of_some_objects_reads_back_otherwise() {
    let backslash = ExecutionTreeObject::Char('\\').to_string().unwrap();
    assert!(matches!(classify(&backslash), Err(LispError::EmptyEscapeSequence(_))));
    let escaped = ExecutionTreeObject::String("a\\nb".to_string()).to_string().unwrap();
    assert_eq!(classify(&escaped).unwrap(), ExecutionTreeObject::String("a\nb".to_string()));
    let point_first = ExecutionTreeObject::F64(".5".to_string()).to_string().unwrap();
    assert_eq!(classify(&point_first).unwrap(), ExecutionTreeObject::Symbol(".5f64".to_string()));
    let node = ExecutionTreeObject::Node(ExecutionTreeNode::nil()).to_string().unwrap();
    assert_eq!(classify(&node).unwrap(), ExecutionTreeObject::Symbol("()".to_string()));
}

#[test]
fn whole_numbers_are_read_as_the_standard_library_reads_them() {
    let samples = [
        "", "+", "-", "0", "-0", "+0", "00", "007", "-007", "+007", "127", "128", "-128", "-129",
        "255", "256", "32767", "32768", "-32768", "-32769", "65535", "65536", "2147483647",
        "2147483648", "-2147483648", "-2147483649", "4294967295", "4294967296",
        "9223372036854775807", "9223372036854775808", "-9223372036854775808",
        "-9223372036854775809", "18446744073709551615", "18446744073709551616",
        "340282366920938463463374607431768211456", "1 ", " 1", "1_0", "1a", "a1", "--1", "+-1",
        "-+1", "1-", "1.0", "0x10", "١٢", "000000000000000000000000000000000000000000005",
    ];
    for sample in samples {
        let characters: Vec<char> = sample.chars().collect();
        let to = characters.len();
        let read = |signed: bool, least: i128, greatest: i128| {
            decimal::parse_integer(&characters, to, signed, least, greatest)
        };
        assert_eq!(
            read(true, i8::MIN as i128, i8::MAX as i128),
            sample.parse::<i8>().ok().map(|value| value as i128),
            "{:?} as i8",
            sample
        );
        assert_eq!(
            read(true, i16::MIN as i128, i16::MAX as i128),
            sample.parse::<i16>().ok().map(|value| value as i128),
            "{:?} as i16",
            sample
        );
        assert_eq!(
            read(true, i32::MIN as i128, i32::MAX as i128),
            sample.parse::<i32>().ok().map(|value| value as i128),
            "{:?} as i32",
            sample
        );
        assert_eq!(
            read(true, i64::MIN as i128, i64::MAX as i128),
            sample.parse::<i64>().ok().map(|value| value as i128),
            "{:?} as i64",
            sample
        );
        assert_eq!(
            read(false, 0, u8::MAX as i128),
            sample.parse::<u8>().ok().map(|value| value as i128),
            "{:?} as u8",
            sample
        );
        assert_eq!(
            read(false, 0, u16::MAX as i128),
            sample.parse::<u16>().ok().map(|value| value as i128),
            "{:?} as u16",
            sample
        );
        assert_eq!(
            read(false, 0, u32::MAX as i128),
            sample.parse::<u32>().ok().map(|value| value as i128),
            "{:?} as u32",
            sample
        );
        assert_eq!(
            read(false, 0, u64::MAX as i128),
            sample.parse::<u64>().ok().map(|value| value as i128),
            "{:?} as u64",
            sample
        );
    }
}

#[test]
fn whole_numbers_are_written_as_the_standard_library_writes_them() {
    let unsigned = [0u64, 1, 9, 10, 11, 99, 100, 101, 255, 65535, 4294967295, u64::MAX];
    for value in unsigned {
        let mut written = String::new();
        decimal::push_unsigned(&mut written, value);
        assert_eq!(written, value.to_string());
    }
    let signed = [0i64, 1, -1, 9, -9, 10, -10, 127, -128, 32767, -32768, i64::MAX, i64::MIN];
    for value in signed {
        let mut written = String::new();
        decimal::push_signed(&mut written, value);
        assert_eq!(written, value.to_string());
    }
    let mut text = String::from("n=");
    decimal::push_signed(&mut text, -42);
    decimal::push_unsigned(&mut text, 7);
    assert_eq!(text, "n=-427");
}

#[test]
fn literals_with_a_fraction_are_those_of_the_standard_library() {
    let samples = [
        "", "+", "-", ".", "+.", "-.", "0", "1", "-1", "+1", "1.", ".1", "1.5", "-1.5", "+1.5",
        "1.5.", "1..5", "1e5", "1E5", "1e+5", "1e-5", "1e", "1e+", "1e-", "e5", ".e5", "1.e5",
        ".5e5", "1.5e5x", "1.5 ", " 1.5", "inf", "INF", "Inf", "-inf", "+inf", "infinity",
        "-Infinity", "INFINITY", "infinit", "infinityy", "nan", "NaN", "-nan", "+NAN", "nane",
        "in", "1_0.0", "0x1p3", "1,5", "١.٥", "1e5.5", "--1.5", "+-1.5", "1.5f", "1.5e5e5",
        "00001.50000", "123456789012345678901234567890.5", "1e400", "-1e-400",
    ];
    for sample in samples {
        let characters: Vec<char> = sample.chars().collect();
        assert_eq!(
            fraction::fraction_text(&characters),
            sample.parse::<f64>().is_ok(),
            "{:?} as f64",
            sample
        );
        assert_eq!(
            fraction::fraction_text(&characters),
            sample.parse::<f32>().is_ok(),
            "{:?} as f32",
            sample
        );
    }
}

#[test]
fn white_space_is_that_of_the_standard_library() {
    let mut code = 0u32;
    while code <= 0x10FFFF {
        if let Some(character) = char::from_u32(code) {
            assert_eq!(text::white_space(character), character.is_whitespace(), "{:x}", code);
        }
        code += 1;
    }
}

#[test]
fn digits_are_those_of_base_ten() {
    let mut code = 0u32;
    while code <= 0x10FFFF {
        if let Some(character) = char::from_u32(code) {
            assert_eq!(decimal::digit(character), character.is_digit(10), "{:x}", code);
        }
        code += 1;
    }
}

#[test]
fn text_helpers() {
    let characters = text::to_chars("häl lo");
    assert_eq!(characters, vec!['h', 'ä', 'l', ' ', 'l', 'o']);
    assert_eq!(text::from_chars(&characters, 1, 4), "äl ");
    assert_eq!(text::first_chars(&characters, 2), vec!['h', 'ä']);
    assert!(text::spells(&characters, "häl lo"));
    assert!(!text::spells(&characters, "häl l"));
    assert!(!text::spells(&characters, "häl lx"));
    assert!(text::ends_with(&characters, "lo"));
    assert!(!text::ends_with(&characters, "häl lo"));
    assert!(!text::ends_with(&characters, "la"));
    assert!(text::contains(&characters, ' '));
    assert!(!text::contains(&characters, '.'));
    let mut written = String::from(">");
    text::push_chars(&mut written, &characters, 0, 3);
    assert_eq!(written, ">häl");
}
