use rlisp::error::LispError;
use rlisp::lisp::Environment;
use rlisp::lisp::BuiltInFunc;
use rlisp::lisp::ExecutionTreeNode;
use rlisp::lisp::ExecutionTreeObject;
use rlisp::lisp::Frame;
use rlisp::lisp::Symbol;

#[derive(Clone, Copy, PartialEq, Debug)]
struct Nothing(u8);

impl BuiltInFunc for Nothing {
    type Arg = ();

    fn invoke(
        &self,
        _arg: &(),
        _environment: &mut Environment<Nothing>,
        _arguments: Vec<ExecutionTreeObject>,
    ) -> Result<ExecutionTreeObject, LispError> {
        Ok(ExecutionTreeObject::U8(self.0))
    }
}

fn every_kind() -> Vec<(ExecutionTreeObject, &'static str, &'static str)> {
    vec![
        (ExecutionTreeObject::Bool(true), "ExecutionTreeObject::Bool", "true"),
        (ExecutionTreeObject::Bool(false), "ExecutionTreeObject::Bool", "false"),
        (ExecutionTreeObject::Char('c'), "ExecutionTreeObject::Char", "'c'"),
        (ExecutionTreeObject::F32("1.5".to_string()), "ExecutionTreeObject::F32", "1.5f32"),
        (ExecutionTreeObject::F64("2.5".to_string()), "ExecutionTreeObject::F64", "2.5f64"),
        (ExecutionTreeObject::I8(5), "ExecutionTreeObject::I8", "5i8"),
        (ExecutionTreeObject::I8(-128), "ExecutionTreeObject::I8", "-128i8"),
        (ExecutionTreeObject::I16(-300), "ExecutionTreeObject::I16", "-300i16"),
        (ExecutionTreeObject::I32(3), "ExecutionTreeObject::I32", "3i32"),
        (ExecutionTreeObject::I64(i64::MIN), "ExecutionTreeObject::I64", "-9223372036854775808i64"),
        (ExecutionTreeObject::ISize(-1), "ExecutionTreeObject::ISize", "-1isize"),
        (ExecutionTreeObject::nil(), "ExecutionTreeObject::Node", "()"),
        (ExecutionTreeObject::Symbol("add".to_string()), "ExecutionTreeObject::Symbol", "add"),
        (ExecutionTreeObject::String("a \"b\"".to_string()), "ExecutionTreeObject::String", "\"a \"b\"\""),
        (ExecutionTreeObject::U8(255), "ExecutionTreeObject::U8", "255u8"),
        (ExecutionTreeObject::U16(0), "ExecutionTreeObject::U16", "0u16"),
        (ExecutionTreeObject::U32(10), "ExecutionTreeObject::U32", "10u32"),
        (ExecutionTreeObject::U64(u64::MAX), "ExecutionTreeObject::U64", "18446744073709551615u64"),
        (ExecutionTreeObject::USize(100), "ExecutionTreeObject::USize", "100usize"),
    ]
}

#[test]
fn canonical_text_of_every_kind() {
    for (object, _, written) in every_kind() {
        assert_eq!(object.to_string().unwrap(), written);
    }
}

#[test]
fn name_of_every_kind() {
    for (object, name, _) in every_kind() {
        assert_eq!(object.enum_to_string(), name);
    }
    assert_eq!(ExecutionTreeObject::bool_str(), "ExecutionTreeObject::Bool");
    assert_eq!(ExecutionTreeObject::char_str(), "ExecutionTreeObject::Char");
    assert_eq!(ExecutionTreeObject::f32_str(), "ExecutionTreeObject::F32");
    assert_eq!(ExecutionTreeObject::f64_str(), "ExecutionTreeObject::F64");
    assert_eq!(ExecutionTreeObject::i8_str(), "ExecutionTreeObject::I8");
    assert_eq!(ExecutionTreeObject::i16_str(), "ExecutionTreeObject::I16");
    assert_eq!(ExecutionTreeObject::i32_str(), "ExecutionTreeObject::I32");
    assert_eq!(ExecutionTreeObject::i64_str(), "ExecutionTreeObject::I64");
    assert_eq!(ExecutionTreeObject::isize_str(), "ExecutionTreeObject::ISize");
    assert_eq!(ExecutionTreeObject::node_str(), "ExecutionTreeObject::Node");
    assert_eq!(ExecutionTreeObject::symbol_str(), "ExecutionTreeObject::Symbol");
    assert_eq!(ExecutionTreeObject::string_str(), "ExecutionTreeObject::String");
    assert_eq!(ExecutionTreeObject::u8_str(), "ExecutionTreeObject::U8");
    assert_eq!(ExecutionTreeObject::u16_str(), "ExecutionTreeObject::U16");
    assert_eq!(ExecutionTreeObject::u32_str(), "ExecutionTreeObject::U32");
    assert_eq!(ExecutionTreeObject::u64_str(), "ExecutionTreeObject::U64");
    assert_eq!(ExecutionTreeObject::usize_str(), "ExecutionTreeObject::USize");
}

#[test]
fn canonical_text_of_nodes() {
    assert_eq!(ExecutionTreeNode::nil().to_string().unwrap(), "()");
    assert_eq!(ExecutionTreeNode::new(Vec::new()).to_string().unwrap(), "()");
    let inner = ExecutionTreeNode::new(vec![
        ExecutionTreeObject::I8(1),
        ExecutionTreeObject::nil(),
    ]);
    let node = ExecutionTreeNode::new(vec![
        ExecutionTreeObject::Symbol("a".to_string()),
        ExecutionTreeObject::Node(inner),
        ExecutionTreeObject::Char(' '),
    ]);
    assert_eq!(node.to_string().unwrap(), "(a (1i8 ()) ' ')");
    assert_eq!(node.get_objects().len(), 3);
    let single = ExecutionTreeNode::new(vec![ExecutionTreeObject::Bool(true)]);
    assert_eq!(single.to_string().unwrap(), "(true)");
    assert_eq!(single.into_objects(), vec![ExecutionTreeObject::Bool(true)]);
}

#[test]
fn copies_hold_the_same() {
    for (object, _, _) in every_kind() {
        assert_eq!(object.clone(), object);
    }
    let node = ExecutionTreeNode::new(vec![
        ExecutionTreeObject::I8(1),
        ExecutionTreeObject::Node(ExecutionTreeNode::new(vec![ExecutionTreeObject::Char('x')])),
    ]);
    assert_eq!(node.clone(), node);
    let symbol: Symbol<Nothing> = Symbol::Object(ExecutionTreeObject::I8(1));
    assert!(matches!(symbol.clone(), Symbol::Object(ExecutionTreeObject::I8(1))));
    let function: Symbol<Nothing> = Symbol::BuiltInFunc(Nothing(3));
    assert!(matches!(function.clone(), Symbol::BuiltInFunc(Nothing(3))));
}

fn wrong_kind<T: std::fmt::Debug>(result: Result<T, LispError>, actual: &str, expected: &str) {
    match result {
        Err(LispError::InvalidExecutionTreeObjectConversion(error)) => {
            assert_eq!(error.actual, actual);
            assert_eq!(error.expected, expected);
        }
        other => panic!("expected a wrong kind, got {:?}", other),
    }
}

#[test]
fn value_of_an_object_of_the_kind_asked_for() {
    let truth: Result<bool, LispError> = ExecutionTreeObject::Bool(true).into();
    assert_eq!(truth.unwrap(), true);
    let character: Result<char, LispError> = ExecutionTreeObject::Char('c').into();
    assert_eq!(character.unwrap(), 'c');
    let value: Result<i8, LispError> = ExecutionTreeObject::I8(-8).into();
    assert_eq!(value.unwrap(), -8);
    let value: Result<i16, LispError> = ExecutionTreeObject::I16(-16).into();
    assert_eq!(value.unwrap(), -16);
    let value: Result<i32, LispError> = ExecutionTreeObject::I32(-32).into();
    assert_eq!(value.unwrap(), -32);
    let value: Result<i64, LispError> = ExecutionTreeObject::I64(-64).into();
    assert_eq!(value.unwrap(), -64);
    let value: Result<isize, LispError> = ExecutionTreeObject::ISize(-1).into();
    assert_eq!(value.unwrap(), -1);
    let value: Result<u8, LispError> = ExecutionTreeObject::U8(8).into();
    assert_eq!(value.unwrap(), 8);
    let value: Result<u16, LispError> = ExecutionTreeObject::U16(16).into();
    assert_eq!(value.unwrap(), 16);
    let value: Result<u32, LispError> = ExecutionTreeObject::U32(32).into();
    assert_eq!(value.unwrap(), 32);
    let value: Result<u64, LispError> = ExecutionTreeObject::U64(64).into();
    assert_eq!(value.unwrap(), 64);
    let value: Result<usize, LispError> = ExecutionTreeObject::USize(1).into();
    assert_eq!(value.unwrap(), 1);
    let text: Result<String, LispError> = ExecutionTreeObject::String("s".to_string()).into();
    assert_eq!(text.unwrap(), "s");
    let name: Result<String, LispError> = ExecutionTreeObject::Symbol("n".to_string()).into();
    assert_eq!(name.unwrap(), "n");
    let node: Result<ExecutionTreeNode, LispError> = ExecutionTreeObject::nil().into();
    assert_eq!(node.unwrap(), ExecutionTreeNode::nil());
}

#[test]
fn value_of_an_object_of_another_kind() {
    let object = || ExecutionTreeObject::String("s".to_string());
    let number = || ExecutionTreeObject::I32(1);
    wrong_kind::<bool>(object().into(), "ExecutionTreeObject::String", "ExecutionTreeObject::Bool");
    wrong_kind::<char>(object().into(), "ExecutionTreeObject::String", "ExecutionTreeObject::Char");
    wrong_kind::<i8>(object().into(), "ExecutionTreeObject::String", "ExecutionTreeObject::I8");
    wrong_kind::<i16>(number().into(), "ExecutionTreeObject::I32", "ExecutionTreeObject::I16");
    wrong_kind::<i32>(object().into(), "ExecutionTreeObject::String", "ExecutionTreeObject::I32");
    wrong_kind::<i64>(number().into(), "ExecutionTreeObject::I32", "ExecutionTreeObject::I64");
    wrong_kind::<isize>(number().into(), "ExecutionTreeObject::I32", "ExecutionTreeObject::ISize");
    wrong_kind::<u8>(number().into(), "ExecutionTreeObject::I32", "ExecutionTreeObject::U8");
    wrong_kind::<u16>(number().into(), "ExecutionTreeObject::I32", "ExecutionTreeObject::U16");
    wrong_kind::<u32>(number().into(), "ExecutionTreeObject::I32", "ExecutionTreeObject::U32");
    wrong_kind::<u64>(number().into(), "ExecutionTreeObject::I32", "ExecutionTreeObject::U64");
    wrong_kind::<usize>(number().into(), "ExecutionTreeObject::I32", "ExecutionTreeObject::USize");
    wrong_kind::<String>(number().into(), "ExecutionTreeObject::I32", "ExecutionTreeObject::String");
    wrong_kind::<ExecutionTreeNode>(
        number().into(),
        "ExecutionTreeObject::I32",
        "ExecutionTreeObject::Node",
    );
    let result: Result<bool, LispError> = ExecutionTreeObject::nil().into();
    match result {
        Err(error) => assert_eq!(
            error.to_string(),
            "Error converting from lisp execution tree object. The expected type of the object is, 'ExecutionTreeObject::Bool', but the actual type of the object is, 'ExecutionTreeObject::Node'."
        ),
        Ok(_) => panic!("expected a wrong kind"),
    }
}

#[test]
fn frame_binds_a_name_once() {
    let mut frame: Frame<Nothing> = Frame::new();
    assert!(frame.try_get("x").is_none());
    assert!(frame.insert("x".to_string(), Symbol::Object(ExecutionTreeObject::I8(1))).is_none());
    assert!(frame.insert("y".to_string(), Symbol::BuiltInFunc(Nothing(2))).is_none());
    assert!(matches!(frame.try_get("x"), Some(Symbol::Object(ExecutionTreeObject::I8(1)))));
    assert!(matches!(frame.try_get("y"), Some(Symbol::BuiltInFunc(Nothing(2)))));
    assert!(frame.try_get("z").is_none());
    assert!(frame.try_get("").is_none());
    let previous = frame.insert("x".to_string(), Symbol::Object(ExecutionTreeObject::I8(3)));
    assert!(matches!(previous, Some(Symbol::Object(ExecutionTreeObject::I8(1)))));
    assert!(matches!(frame.try_get("x"), Some(Symbol::Object(ExecutionTreeObject::I8(3)))));
    assert!(matches!(frame.try_get("y"), Some(Symbol::BuiltInFunc(Nothing(2)))));
    let previous = frame.insert("y".to_string(), Symbol::Object(ExecutionTreeObject::I8(4)));
    assert!(matches!(previous, Some(Symbol::BuiltInFunc(Nothing(2)))));
    let previous = frame.insert("x".to_string(), Symbol::Object(ExecutionTreeObject::I8(5)));
    assert!(matches!(previous, Some(Symbol::Object(ExecutionTreeObject::I8(3)))));
    assert!(matches!(frame.try_get("y"), Some(Symbol::Object(ExecutionTreeObject::I8(4)))));
}

#[test]
fn new_environment_is_empty() {
    let mut environment: Environment<Nothing> = Environment::new();
    assert!(environment.get_current_frame().is_none());
    assert!(environment.get_global_frame().try_get("x").is_none());
    environment.get_global_frame().insert("f".to_string(), Symbol::BuiltInFunc(Nothing(9)));
    assert!(environment.get_global_frame().try_get("f").is_some());
    assert_eq!(environment.parse_and_execute(&(), "(f 1 2)").unwrap(), "9u8");
    assert_eq!(
        environment.evaluate(&(), ExecutionTreeObject::Symbol("f".to_string())).unwrap(),
        ExecutionTreeObject::U8(9)
    );
    assert!(environment.get_current_frame().is_none());
}
