use rlisp::error::LispError;
use rlisp::lisp::BuiltInFunc;
use rlisp::lisp::Environment;
use rlisp::lisp::ExecutionTreeNode;
use rlisp::lisp::ExecutionTreeObject;
use rlisp::lisp::Symbol;

struct Host {
    offset: i32,
}

#[derive(Clone, Copy)]
struct Native(
    fn(
        &Host,
        &mut Environment<Native>,
        Vec<ExecutionTreeObject>,
    ) -> Result<ExecutionTreeObject, LispError>,
);

impl BuiltInFunc for Native {
    type Arg = Host;

    fn invoke(
        &self,
        arg: &Host,
        environment: &mut Environment<Native>,
        arguments: Vec<ExecutionTreeObject>,
    ) -> Result<ExecutionTreeObject, LispError> {
        (self.0)(arg, environment, arguments)
    }
}

fn add(
    arg: &Host,
    environment: &mut Environment<Native>,
    arguments: Vec<ExecutionTreeObject>,
) -> Result<ExecutionTreeObject, LispError> {
    let mut sum = arg.offset;
    for argument in arguments {
        match environment.evaluate(arg, argument)? {
            ExecutionTreeObject::I32(value) => sum += value,
            other => panic!("not a number: {}", other.to_string().unwrap()),
        }
    }
    Ok(ExecutionTreeObject::I32(sum))
}

fn depth(
    _arg: &Host,
    environment: &mut Environment<Native>,
    _arguments: Vec<ExecutionTreeObject>,
) -> Result<ExecutionTreeObject, LispError> {
    let mut frames = 0;
    let name = "probe".to_string();
    if environment.get_current_frame().is_some() {
        frames = 1;
    }
    let _ = name;
    Ok(ExecutionTreeObject::I32(frames))
}

fn count_arguments(
    _arg: &Host,
    _environment: &mut Environment<Native>,
    arguments: Vec<ExecutionTreeObject>,
) -> Result<ExecutionTreeObject, LispError> {
    Ok(ExecutionTreeObject::USize(arguments.len()))
}

fn quote(
    _arg: &Host,
    _environment: &mut Environment<Native>,
    arguments: Vec<ExecutionTreeObject>,
) -> Result<ExecutionTreeObject, LispError> {
    Ok(ExecutionTreeObject::Node(ExecutionTreeNode::new(arguments)))
}

fn with_x(
    arg: &Host,
    environment: &mut Environment<Native>,
    arguments: Vec<ExecutionTreeObject>,
) -> Result<ExecutionTreeObject, LispError> {
    let frame = environment.get_current_frame().expect("a frame of its own");
    assert!(frame.try_get("x").is_none());
    frame.insert("x".to_string(), Symbol::Object(ExecutionTreeObject::I32(7)));
    let mut given = Vec::new();
    for argument in arguments {
        given.push(environment.evaluate(arg, argument)?);
    }
    Ok(ExecutionTreeObject::Node(ExecutionTreeNode::new(given)))
}

fn environment() -> Environment<Native> {
    let mut environment = Environment::new();
    let global = environment.get_global_frame();
    global.insert("add".to_string(), Symbol::BuiltInFunc(Native(add)));
    global.insert("depth".to_string(), Symbol::BuiltInFunc(Native(depth)));
    global.insert("count".to_string(), Symbol::BuiltInFunc(Native(count_arguments)));
    global.insert("quote".to_string(), Symbol::BuiltInFunc(Native(quote)));
    global.insert("with-x".to_string(), Symbol::BuiltInFunc(Native(with_x)));
    global.insert("seven".to_string(), Symbol::Object(ExecutionTreeObject::I32(7)));
    environment
}

fn run(source: &str) -> Result<String, LispError> {
    environment().parse_and_execute(&Host { offset: 0 }, source)
}

#[test]
fn empty_node_evaluates_to_itself() {
    let mut environment = environment();
    let host = Host { offset: 0 };
    let result = environment.evaluate(&host, ExecutionTreeObject::nil()).unwrap();
    match &result {
        ExecutionTreeObject::Node(node) => assert!(node.get_objects().is_empty()),
        _ => panic!("not a node"),
    }
    assert_eq!(result.to_string().unwrap(), "()");
    assert_eq!(run("()").unwrap(), "()");
    assert!(environment.get_current_frame().is_none());
}

#[test]
fn native_function_sums_its_arguments() {
    assert_eq!(run("(add 1i32 2i32)").unwrap(), "3i32");
    assert_eq!(run("(add 1 2 3 4)").unwrap(), "10i32");
    assert_eq!(run("(add 1 (add 2 3))").unwrap(), "6i32");
    assert_eq!(run("(add seven -8)").unwrap(), "-1i32");
}

#[test]
fn host_context_reaches_the_native_function() {
    let mut environment = environment();
    let result = environment.parse_and_execute(&Host { offset: 100 }, "(add 1 2)");
    assert_eq!(result.unwrap(), "103i32");
}

#[test]
fn native_function_gets_its_arguments_unevaluated() {
    assert_eq!(run("(quote nobody (add 1 2) 'c')").unwrap(), "(nobody (add 1i32 2i32) 'c')");
    assert_eq!(run("(count a b c)").unwrap(), "3usize");
}

#[test]
fn lone_symbol_bound_to_native_function_is_invoked_without_arguments() {
    assert_eq!(run("(count)").unwrap(), "0usize");
    assert_eq!(run("(add)").unwrap(), "0i32");
    assert_eq!(run("((count))").unwrap(), "0usize");
}

#[test]
fn literals_evaluate_to_themselves() {
    assert_eq!(run("(5i8)").unwrap(), "5i8");
    assert_eq!(run("(true)").unwrap(), "true");
    assert_eq!(run("(\"text\")").unwrap(), "\"text\"");
    assert_eq!(run("('c')").unwrap(), "'c'");
    assert_eq!(run("(2.5)").unwrap(), "2.5f64");
    assert_eq!(run("(1.25f32)").unwrap(), "1.25f32");
}

#[test]
fn node_of_one_object_is_transparent() {
    assert_eq!(run("(((5)))").unwrap(), "5i32");
    assert_eq!(run("((seven))").unwrap(), "7i32");
}

#[test]
fn list_with_a_literal_first_evaluates_each_object() {
    assert_eq!(run("(1 2 3)").unwrap(), "(1i32 2i32 3i32)");
    assert_eq!(run("(1 (add 1 1) seven)").unwrap(), "(1i32 2i32 7i32)");
    assert_eq!(run("((add 1 1) (2) ())").unwrap(), "(2i32 2i32 ())");
    assert_eq!(run("(\"a\" seven)").unwrap(), "(\"a\" 7i32)");
}

#[test]
fn list_with_a_value_symbol_first_puts_the_value_first() {
    assert_eq!(run("(seven 1 (add 1 1))").unwrap(), "(7i32 1i32 2i32)");
    assert_eq!(run("(seven seven)").unwrap(), "(7i32 7i32)");
}

#[test]
fn unbound_symbol_fails_and_leaves_no_frame() {
    let mut environment = environment();
    let host = Host { offset: 0 };
    let result = environment.parse_and_execute(&host, "(nobody)");
    match result {
        Err(LispError::SymbolNotOnStack(error)) => {
            assert_eq!(error.symbol, "nobody");
            assert_eq!(
                error.to_string(),
                "Error locating symbol. The symbol, 'nobody', cannot be found on the stack."
            );
        }
        _ => panic!("expected the symbol to be unbound"),
    }
    assert!(environment.get_current_frame().is_none());
    let result = environment.parse_and_execute(&host, "(1 (2 (add 1 nobody)))");
    assert!(matches!(result, Err(LispError::SymbolNotOnStack(_))));
    assert!(environment.get_current_frame().is_none());
    let result = environment.parse_and_execute(&host, "(nobody 1 2)");
    assert!(matches!(result, Err(LispError::SymbolNotOnStack(_))));
    assert!(environment.get_current_frame().is_none());
    let result = environment.parse_and_execute(&host, "(seven nobody)");
    assert!(matches!(result, Err(LispError::SymbolNotOnStack(_))));
    assert!(environment.get_current_frame().is_none());
}

#[test]
fn first_failure_stops_the_evaluation() {
    let result = run("(1 first second)");
    match result {
        Err(LispError::SymbolNotOnStack(error)) => assert_eq!(error.symbol, "first"),
        _ => panic!("expected the symbol to be unbound"),
    }
}

#[test]
fn binding_in_the_frame_of_an_invocation_is_seen_within_it_only() {
    let mut environment = environment();
    let host = Host { offset: 0 };
    assert_eq!(environment.parse_and_execute(&host, "(with-x x (add x 1))").unwrap(), "(7i32 8i32)");
    let result = environment.parse_and_execute(&host, "(1 (with-x x) x)");
    match result {
        Err(LispError::SymbolNotOnStack(error)) => assert_eq!(error.symbol, "x"),
        _ => panic!("expected x to be unbound outside the invocation"),
    }
    assert!(environment.get_current_frame().is_none());
}

#[test]
fn global_binding_is_found_before_one_of_the_call_stack() {
    let mut environment = environment();
    let host = Host { offset: 0 };
    environment
        .get_global_frame()
        .insert("x".to_string(), Symbol::Object(ExecutionTreeObject::I32(1)));
    assert_eq!(environment.parse_and_execute(&host, "(with-x x)").unwrap(), "(1i32)");
}

#[test]
fn native_function_sees_a_frame_of_its_own() {
    assert_eq!(run("(depth 1)").unwrap(), "1i32");
    assert_eq!(run("(depth)").unwrap(), "1i32");
}

#[test]
fn parse_failure_comes_through() {
    assert!(matches!(run("add 1 2"), Err(LispError::NoProgramStartParenthesis(_))));
    assert!(matches!(run("(add 1 2"), Err(LispError::NoClosingParenthesis(_))));
    assert!(matches!(run("(add 1i8000 2)"), Err(LispError::NumericTokenCannotBeParsed(_))));
}
