use rlisp::error::LispError;
use rlisp::lisp::AbstractSyntaxTree;
use rlisp::lisp::AbstractSyntaxTreeNode;
use rlisp::lisp::AbstractSyntaxTreeObject;
use rlisp::lisp::ExecutionTree;
use rlisp::lisp::LastCharType;

fn shape_of(node: &AbstractSyntaxTreeNode) -> String {
    let mut shape = String::from("[");
    for (index, object) in node.get_objects().iter().enumerate() {
        if index > 0 {
            shape.push(',');
        }
        match object {
            AbstractSyntaxTreeObject::Node(inner) => shape.push_str(&shape_of(inner)),
            AbstractSyntaxTreeObject::String(token) => {
                shape.push('<');
                shape.push_str(token);
                shape.push('>');
            }
        }
    }
    shape.push(']');
    shape
}

fn shape(program_text: &str) -> String {
    let tree = AbstractSyntaxTree::new(program_text).expect("a program");
    shape_of(tree.get_root())
}

fn failure(program_text: &str) -> LispError {
    match AbstractSyntaxTree::new(program_text) {
        Ok(tree) => panic!("{:?} was parsed as {}", program_text, shape_of(tree.get_root())),
        Err(error) => error,
    }
}

fn misplaced(program_text: &str, character: char, index: usize, previous: LastCharType) {
    match failure(program_text) {
        LispError::InvalidPreviousChar(error) => {
            assert_eq!(error.character, character);
            assert_eq!(error.index, index);
            assert_eq!(error.previous_char_type, previous);
        }
        other => panic!("{:?}: expected a misplaced character, got {:?}", program_text, other),
    }
}

#[test]
fn missing_closing_parenthesis_fails() {
    match failure("(a (b)") {
        LispError::NoClosingParenthesis(error) => assert_eq!(error.text, "(a (b)"),
        other => panic!("expected an open parenthesis, got {:?}", other),
    }
    assert!(matches!(failure("("), LispError::NoClosingParenthesis(_)));
    assert!(matches!(failure("(a b"), LispError::NoClosingParenthesis(_)));
    assert!(matches!(failure("((a) (b)"), LispError::NoClosingParenthesis(_)));
}

#[test]
fn quote_within_a_word_fails() {
    match failure("(a\"b)") {
        LispError::BeginningStringInWord(error) => {
            assert_eq!(error.character, '"');
            assert_eq!(error.index, 2);
        }
        other => panic!("expected a quote within a word, got {:?}", other),
    }
    match failure("(abc 'd' ef'g')") {
        LispError::BeginningStringInWord(error) => {
            assert_eq!(error.character, '\'');
            assert_eq!(error.index, 11);
        }
        other => panic!("expected a quote within a word, got {:?}", other),
    }
}

#[test]
fn program_has_to_begin_with_a_parenthesis() {
    match failure("a b") {
        LispError::NoProgramStartParenthesis(error) => assert_eq!(error.text, "a b"),
        other => panic!("expected a missing parenthesis, got {:?}", other),
    }
    assert!(matches!(failure(""), LispError::NoProgramStartParenthesis(_)));
    assert!(matches!(failure(" (a)"), LispError::NoProgramStartParenthesis(_)));
    assert!(matches!(failure(")"), LispError::NoProgramStartParenthesis(_)));
}

#[test]
fn groups_and_tokens() {
    assert_eq!(shape("()"), "[]");
    assert_eq!(shape("(a)"), "[<a>]");
    assert_eq!(shape("(add 1i32 2i32)"), "[<add>,<1i32>,<2i32>]");
    assert_eq!(shape("(a (b c) d)"), "[<a>,[<b>,<c>],<d>]");
    assert_eq!(shape("((()))"), "[[[]]]");
    assert_eq!(shape("(() ())"), "[[],[]]");
    assert_eq!(shape("((a)(b))"), "[[<a>],[<b>]]");
    assert_eq!(shape("(  a \t\n b  )"), "[<a>,<b>]");
    assert_eq!(shape("(a\u{a0}b\u{2003}c)"), "[<a>,<b>,<c>]");
}

#[test]
fn what_follows_the_program_is_not_read() {
    assert_eq!(shape("(a) b"), "[<a>]");
    assert_eq!(shape("(a))))"), "[<a>]");
    assert_eq!(shape("()\"open"), "[]");
}

#[test]
fn quoted_text_is_one_token_with_its_quotes() {
    assert_eq!(shape("(\"a b\")"), "[<\"a b\">]");
    assert_eq!(shape("(\"(a)\" 'c')"), "[<\"(a)\">,<'c'>]");
    assert_eq!(shape("(\"\" '')"), "[<\"\">,<''>]");
    assert_eq!(shape("(\"a\\\"b\")"), "[<\"a\\\"b\">]");
    assert_eq!(shape("('\\'' \"it's\")"), "[<'\\''>,<\"it's\">]");
    assert_eq!(shape("(\"a'b\" 'a\"b')"), "[<\"a'b\">,<'a\"b'>]");
    assert_eq!(shape("(\"ä ö\" x)"), "[<\"ä ö\">,<x>]");
}

#[test]
fn backslash_before_a_backslash_still_escapes_what_follows() {
    match failure("(\"a\\\\\")") {
        LispError::NoClosingDoubleQuote(error) => assert_eq!(error.text, "(\"a\\\\\")"),
        other => panic!("expected an open quote, got {:?}", other),
    }
    assert_eq!(shape("(\"a\\\\\" \")"), "[<\"a\\\\\" \">]");
}

#[test]
fn open_quote_fails() {
    match failure("(\"abc)") {
        LispError::NoClosingDoubleQuote(error) => assert_eq!(error.text, "(\"abc)"),
        other => panic!("expected an open quote, got {:?}", other),
    }
    match failure("(a 'bc)") {
        LispError::NoClosingSingleQuote(error) => assert_eq!(error.text, "(a 'bc)"),
        other => panic!("expected an open quote, got {:?}", other),
    }
    assert!(matches!(failure("(\""), LispError::NoClosingDoubleQuote(_)));
    assert!(matches!(failure("('"), LispError::NoClosingSingleQuote(_)));
    assert!(matches!(failure("(\"a\\\")"), LispError::NoClosingDoubleQuote(_)));
}

#[test]
fn characters_that_may_not_follow() {
    misplaced("((a)b)", 'b', 4, LastCharType::CloseParen);
    misplaced("((a)\"b\")", '"', 4, LastCharType::CloseParen);
    misplaced("(\"a\"b)", 'b', 4, LastCharType::Quote);
    misplaced("(\"a\"\"b\")", '"', 4, LastCharType::Quote);
    misplaced("(\"a\"(b))", '(', 4, LastCharType::Quote);
    misplaced("('a''b')", '\'', 4, LastCharType::Quote);
}

#[test]
fn opening_parenthesis_may_not_follow_a_word() {
    misplaced("(ab(c))", '(', 3, LastCharType::Word);
}

#[test]
fn places_are_counted_in_characters() {
    misplaced("(\"ä\"b)", 'b', 4, LastCharType::Quote);
    match failure("(äö\"b\")") {
        LispError::BeginningStringInWord(error) => assert_eq!(error.index, 3),
        other => panic!("expected a quote within a word, got {:?}", other),
    }
}

#[test]
fn parse_program_text_gives_the_root() {
    let root = AbstractSyntaxTree::parse_program_text("(a (b))").unwrap();
    assert_eq!(shape_of(&root), "[<a>,[<b>]]");
    assert_eq!(root.get_objects().len(), 2);
    assert!(matches!(
        AbstractSyntaxTree::parse_program_text("a"),
        Err(LispError::NoProgramStartParenthesis(_))
    ));
    let node = AbstractSyntaxTreeNode::new(vec![
        AbstractSyntaxTreeObject::String("x"),
        AbstractSyntaxTreeObject::Node(AbstractSyntaxTreeNode::new(Vec::new())),
    ]);
    assert_eq!(shape_of(&node), "[<x>,[]]");
}

#[test]
fn tokens_are_read_as_objects_from_left_to_right() {
    let tree = AbstractSyntaxTree::new("(add 1i8 (\"a\" 'b' (true)) 2.5)").unwrap();
    let execution_tree = ExecutionTree::new(&tree).unwrap();
    assert_eq!(
        execution_tree.get_root().to_string().unwrap(),
        "(add 1i8 (\"a\" 'b' (true)) 2.5f64)"
    );
    assert_eq!(execution_tree.get_root().get_objects().len(), 4);
    assert_eq!(
        execution_tree.into_root().to_string().unwrap(),
        "(add 1i8 (\"a\" 'b' (true)) 2.5f64)"
    );
    let tree = AbstractSyntaxTree::new("(1 (2 300i8 'ab') 1i8000)").unwrap();
    match ExecutionTree::new(&tree) {
        Err(LispError::NumericTokenCannotBeParsed(error)) => assert_eq!(error.token, "300i8"),
        _ => panic!("expected the first failure"),
    }
    let tree = AbstractSyntaxTree::new("(1 ('ab' 300i8) 1i8000)").unwrap();
    assert!(matches!(
        ExecutionTree::new(&tree),
        Err(LispError::MultipleCharactersInSingleQuotes(_))
    ));
}

#[test]
fn normalized_program_is_written_back_as_it_was() {
    let programs = [
        "()",
        "(add 1i32 2i32)",
        "(a (b c) ((d)) () \"text with (parens) and spaces\" 'c' true false)",
        "(-5i8 255u8 1.5f32 -2.5e3f64 7isize 8usize 9i16 10u16 11i64 12u64 13u32)",
    ];
    for program in programs {
        let tree = AbstractSyntaxTree::new(program).unwrap();
        let execution_tree = ExecutionTree::new(&tree).unwrap();
        assert_eq!(execution_tree.get_root().to_string().unwrap(), program);
    }
}

#[test]
fn program_is_written_back_normalized() {
    let written = |program: &str| {
        let tree = AbstractSyntaxTree::new(program).unwrap();
        ExecutionTree::new(&tree).unwrap().get_root().to_string().unwrap()
    };
    assert_eq!(written("(  add\t1\n+2   )"), "(add 1i32 2i32)");
    assert_eq!(written("(a (b)(c))"), "(a (b) (c))");
    assert_eq!(written("(007 2.5 \"a\\tb\")"), "(7i32 2.5f64 \"a\tb\")");
}
