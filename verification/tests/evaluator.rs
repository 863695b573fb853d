//! End-to-end tests of the evaluator: composition rules, control-flow
//! signals, function dispatch, and the error taxonomy.

use lorgn::ast::{
    Assignment, BExpr, Block, Break, Condition, Expr, FnCall, FnDef, Invoke, Litteral, Loop, Name,
    Path, Return, TopLevel,
};
use lorgn::{Error, Module, NativeHost, Runtime, Value};

/// A host that records every native call and replies with a fixed value.
struct RecordingHost {
    calls: Vec<(String, String, Vec<Value>)>,
    reply: Value,
}

impl RecordingHost {
    fn new(reply: Value) -> Self {
        RecordingHost { calls: Vec::new(), reply }
    }
}

impl NativeHost for RecordingHost {
    fn call_native(&mut self, module: &Name, item: &Name, args: Vec<Value>) -> Value {
        self.calls.push((module.0.clone(), item.0.clone(), args));
        self.reply.clone()
    }
}

fn lit(l: Litteral) -> BExpr {
    Expr::Litteral(l).boxed()
}

fn num(i: i32) -> BExpr {
    lit(Litteral::Integer(i))
}

fn block(expressions: Vec<BExpr>) -> BExpr {
    Expr::Block(Block { expressions }).boxed()
}

fn assign(name: &str, value: BExpr) -> BExpr {
    Expr::Assignment(Assignment { variable_name: name.into(), value }).boxed()
}

fn invoke(name: &str) -> BExpr {
    Expr::Invoke(Invoke { variable_name: name.into() }).boxed()
}

fn call(module: &str, item: &str, arguments: Vec<BExpr>) -> BExpr {
    Expr::FnCall(FnCall {
        fn_path: Path { module: module.into(), item: item.into() },
        arguments,
    })
    .boxed()
}

fn cond(c: BExpr, t: BExpr, f: BExpr) -> BExpr {
    Expr::Condition(Condition { condition: c, true_case: t, false_case: f }).boxed()
}

fn defined(name: &str, parameters: Vec<&str>, body: Vec<BExpr>) -> TopLevel {
    TopLevel::FnDef(FnDef {
        name: name.into(),
        parameters: parameters.into_iter().map(Name::from).collect(),
        expressions: Block { expressions: body },
    })
}

fn runtime_with(module_name: &str, items: Vec<TopLevel>) -> Runtime {
    let mut runtime = Runtime::default();
    let module = Module::from_ast(module_name.into(), lorgn::ast::Module { items });
    runtime.register(module);
    runtime
}

#[test]
fn test_runtime() {
    let mut runtime = Runtime::default();
    let mut module = Module::new_empty("std".into());
    module.push_native("print".into(), 1);
    runtime.register(module);
    let mut host = RecordingHost::new(Value::Unit);
    let result = runtime.evaluate(
        Expr::FnCall(FnCall {
            fn_path: Path { module: "std".into(), item: "print".into() },
            arguments: vec![Expr::Litteral("hello yorld".into()).boxed()],
        }),
        &mut host,
    );
    assert_eq!(result, Ok(Value::Unit));
    assert_eq!(host.calls.len(), 1);
    println!("{:?}", host.calls[0].2[0].clone().into_string());
    assert_eq!(host.calls[0].2[0], Value::String("hello yorld".to_string()));
}

#[test]
fn empty_block_yields_unit() {
    let mut runtime = Runtime::default();
    let mut host = RecordingHost::new(Value::Unit);
    let result = runtime.evaluate(Expr::Block(Block { expressions: vec![] }), &mut host);
    assert_eq!(result, Ok(Value::Unit));
}

#[test]
fn block_yields_last_value() {
    let mut runtime = Runtime::default();
    let mut host = RecordingHost::new(Value::Unit);
    let result = runtime.evaluate(Expr::Block(Block { expressions: vec![num(1), num(2)] }), &mut host);
    assert_eq!(result, Ok(Value::Integer(2)));
}

#[test]
fn block_short_circuits_on_signal() {
    // A return in the middle of a function body: the native call after it
    // must never run.
    let mut runtime = runtime_with(
        "m",
        vec![defined(
            "f",
            vec![],
            vec![
                Expr::Return(Return { expression: num(1) }).boxed(),
                call("std", "effect", vec![]),
            ],
        )],
    );
    let mut std_module = Module::new_empty("std".into());
    std_module.push_native("effect".into(), 0);
    runtime.register(std_module);
    let mut host = RecordingHost::new(Value::Unit);
    let result = runtime.evaluate(*call("m", "f", vec![]), &mut host);
    assert_eq!(result, Ok(Value::Integer(1)));
    assert_eq!(host.calls.len(), 0);
}

#[test]
fn loop_breaks_with_value() {
    let mut runtime = Runtime::default();
    let mut host = RecordingHost::new(Value::Unit);
    let result = runtime.evaluate(
        Expr::Loop(Loop { body: Expr::Break(Break { expression: num(42) }).boxed() }),
        &mut host,
    );
    assert_eq!(result, Ok(Value::Integer(42)));
}

#[test]
fn immediate_break_runs_the_body_once() {
    // Loop body: tick, then break. The loop's value is the break's value
    // and the body ran exactly once.
    let body = vec![Expr::Loop(Loop {
        body: block(vec![
            call("std", "tick", vec![]),
            Expr::Break(Break { expression: num(42) }).boxed(),
        ]),
    })
    .boxed()];
    let mut runtime = runtime_with("m", vec![defined("f", vec![], body)]);
    let mut std_module = Module::new_empty("std".into());
    std_module.push_native("tick".into(), 0);
    runtime.register(std_module);
    let mut host = RecordingHost::new(Value::Unit);
    let result = runtime.evaluate(*call("m", "f", vec![]), &mut host);
    assert_eq!(result, Ok(Value::Integer(42)));
    assert_eq!(host.calls.len(), 1);
}

#[test]
fn nested_return_is_transparent() {
    let body = vec![Expr::Return(Return {
        expression: Expr::Return(Return { expression: num(1) }).boxed(),
    })
    .boxed()];
    let mut runtime = runtime_with("m", vec![defined("f", vec![], body)]);
    let mut host = RecordingHost::new(Value::Unit);
    let result = runtime.evaluate(*call("m", "f", vec![]), &mut host);
    assert_eq!(result, Ok(Value::Integer(1)));
}

#[test]
fn loop_iterates_until_break() {
    // First pass: the flag is false, so the loop ticks and sets it; second
    // pass: the flag is true and the loop breaks. The tick count shows the
    // body ran more than once and ended only on the break.
    let body = vec![
        assign("done", lit(Litteral::Bool(false))),
        Expr::Loop(Loop {
            body: block(vec![
                call("std", "tick", vec![]),
                cond(invoke("done"), Expr::Break(Break { expression: num(7) }).boxed(), num(0)),
                assign("done", lit(Litteral::Bool(true))),
            ]),
        })
        .boxed(),
    ];
    let mut runtime = runtime_with("m", vec![defined("f", vec![], body)]);
    let mut std_module = Module::new_empty("std".into());
    std_module.push_native("tick".into(), 0);
    runtime.register(std_module);
    let mut host = RecordingHost::new(Value::Unit);
    let result = runtime.evaluate(*call("m", "f", vec![]), &mut host);
    assert_eq!(result, Ok(Value::Integer(7)));
    assert_eq!(host.calls.len(), 2);
}

#[test]
fn early_return_skips_rest_of_body() {
    let body = vec![
        cond(
            lit(Litteral::Bool(true)),
            Expr::Return(Return { expression: num(1) }).boxed(),
            num(0),
        ),
        num(999),
    ];
    let mut runtime = runtime_with("m", vec![defined("f", vec![], body)]);
    let mut host = RecordingHost::new(Value::Unit);
    let result = runtime.evaluate(*call("m", "f", vec![]), &mut host);
    assert_eq!(result, Ok(Value::Integer(1)));
}

#[test]
fn break_outside_loop_is_control_flow_error() {
    let body = vec![Expr::Break(Break { expression: num(0) }).boxed()];
    let mut runtime = runtime_with("m", vec![defined("f", vec![], body)]);
    let mut host = RecordingHost::new(Value::Unit);
    let result = runtime.evaluate(*call("m", "f", vec![]), &mut host);
    assert_eq!(result, Err(Error::ControlFlowError));
}

#[test]
fn missing_function_and_module_are_distinguished() {
    let mut runtime = runtime_with("m", vec![defined("f", vec![], vec![num(0)])]);
    let mut host = RecordingHost::new(Value::Unit);
    let result = runtime.evaluate(*call("m", "missing", vec![]), &mut host);
    assert_eq!(result, Err(Error::UnboundFunction));
    let result = runtime.evaluate(*call("nowhere", "f", vec![]), &mut host);
    assert_eq!(result, Err(Error::UnknownModule));
}

#[test]
fn native_arity_is_checked_before_the_host_runs() {
    let mut runtime = Runtime::default();
    let mut module = Module::new_empty("std".into());
    module.push_native("one".into(), 1);
    runtime.register(module);
    let mut host = RecordingHost::new(Value::Integer(99));

    let result = runtime.evaluate(*call("std", "one", vec![]), &mut host);
    assert_eq!(result, Err(Error::ArityError));
    let result = runtime.evaluate(*call("std", "one", vec![num(1), num(2)]), &mut host);
    assert_eq!(result, Err(Error::ArityError));
    assert_eq!(host.calls.len(), 0);

    let result = runtime.evaluate(*call("std", "one", vec![num(5)]), &mut host);
    assert_eq!(result, Ok(Value::Integer(99)));
    assert_eq!(host.calls.len(), 1);
    assert_eq!(host.calls[0].2, vec![Value::Integer(5)]);
}

#[test]
fn defined_arity_is_checked() {
    let mut runtime = runtime_with("m", vec![defined("f", vec!["a"], vec![invoke("a")])]);
    let mut host = RecordingHost::new(Value::Unit);
    let result = runtime.evaluate(*call("m", "f", vec![num(1), num(2)]), &mut host);
    assert_eq!(result, Err(Error::ArityError));
    let result = runtime.evaluate(*call("m", "f", vec![num(1)]), &mut host);
    assert_eq!(result, Ok(Value::Integer(1)));
}

#[test]
fn imported_function_is_unsupported() {
    let mut runtime = Runtime::default();
    let mut module = Module::new_empty("m".into());
    let imported = lorgn::Function::new_imported("g".into(), "other".into());
    module.functions.insert("g".into(), imported);
    runtime.register(module);
    let mut host = RecordingHost::new(Value::Unit);
    let result = runtime.evaluate(*call("m", "g", vec![]), &mut host);
    assert_eq!(result, Err(Error::UnsupportedOperation));
}

#[test]
fn unbound_variable_fails() {
    let mut runtime = Runtime::default();
    let mut host = RecordingHost::new(Value::Unit);
    let result = runtime.evaluate(Expr::Invoke(Invoke { variable_name: "nope".into() }), &mut host);
    assert_eq!(result, Err(Error::UnboundVariable));
}

#[test]
fn non_bool_condition_is_a_type_error() {
    let mut runtime = Runtime::default();
    let mut host = RecordingHost::new(Value::Unit);
    let result = runtime.evaluate(
        Expr::Condition(Condition { condition: num(1), true_case: num(2), false_case: num(3) }),
        &mut host,
    );
    assert_eq!(result, Err(Error::TypeError));
}

#[test]
fn condition_reading_a_parameter_picks_the_right_branch() {
    let body = vec![cond(invoke("p"), num(1), num(2))];
    let mut runtime = runtime_with("m", vec![defined("f", vec!["p"], body)]);
    let mut host = RecordingHost::new(Value::Unit);
    let result = runtime.evaluate(*call("m", "f", vec![lit(Litteral::Bool(true))]), &mut host);
    assert_eq!(result, Ok(Value::Integer(1)));
    let result = runtime.evaluate(*call("m", "f", vec![lit(Litteral::Bool(false))]), &mut host);
    assert_eq!(result, Ok(Value::Integer(2)));
}

#[test]
fn non_bool_condition_from_a_variable_is_a_type_error() {
    let body = vec![cond(invoke("p"), num(1), num(2))];
    let mut runtime = runtime_with("m", vec![defined("f", vec!["p"], body)]);
    let mut host = RecordingHost::new(Value::Unit);
    let result = runtime.evaluate(*call("m", "f", vec![num(3)]), &mut host);
    assert_eq!(result, Err(Error::TypeError));
}

#[test]
fn caller_chosen_fuel_bounds_the_evaluation() {
    let mut runtime = Runtime::default();
    let mut host = RecordingHost::new(Value::Unit);
    let result = runtime.evaluate_with_fuel(Expr::Loop(Loop { body: num(0) }), &mut host, 10);
    assert_eq!(result, Err(Error::RecursionLimit));
}

#[test]
fn signals_at_top_level_are_control_flow_errors() {
    let mut runtime = Runtime::default();
    let mut host = RecordingHost::new(Value::Unit);
    let result = runtime.evaluate(Expr::Return(Return { expression: num(1) }), &mut host);
    assert_eq!(result, Err(Error::ControlFlowError));
    let result = runtime.evaluate(Expr::Break(Break { expression: num(1) }), &mut host);
    assert_eq!(result, Err(Error::ControlFlowError));
}

#[test]
fn assignment_without_a_frame_is_a_control_flow_error() {
    // The top-level context opens no scope frame; only function bodies do.
    let mut runtime = Runtime::default();
    let mut host = RecordingHost::new(Value::Unit);
    let result = runtime.evaluate(*assign("x", num(1)), &mut host);
    assert_eq!(result, Err(Error::ControlFlowError));
}

#[test]
fn return_of_break_propagates_the_break() {
    // Return propagates an inner signal unchanged, so the break reaches
    // the loop and the loop yields the break's value.
    let mut runtime = Runtime::default();
    let mut host = RecordingHost::new(Value::Unit);
    let result = runtime.evaluate(
        Expr::Loop(Loop {
            body: Expr::Return(Return {
                expression: Expr::Break(Break { expression: num(42) }).boxed(),
            })
            .boxed(),
        }),
        &mut host,
    );
    assert_eq!(result, Ok(Value::Integer(42)));
}

#[test]
fn return_dominates_break() {
    // Break(Return(x)) propagates the return, so the function yields x.
    let body = vec![Expr::Loop(Loop {
        body: Expr::Break(Break {
            expression: Expr::Return(Return { expression: num(3) }).boxed(),
        })
        .boxed(),
    })
    .boxed()];
    let mut runtime = runtime_with("m", vec![defined("f", vec![], body)]);
    let mut host = RecordingHost::new(Value::Unit);
    let result = runtime.evaluate(*call("m", "f", vec![]), &mut host);
    assert_eq!(result, Ok(Value::Integer(3)));
}

#[test]
fn argument_signal_skips_the_callee() {
    // The first argument returns early: the call's arguments stop there,
    // the callee is never invoked, and the function yields 7.
    let body = vec![call("std", "g", vec![
        Expr::Return(Return { expression: num(7) }).boxed(),
        num(1),
    ])];
    let mut runtime = runtime_with("m", vec![defined("f", vec![], body)]);
    let mut std_module = Module::new_empty("std".into());
    std_module.push_native("g".into(), 2);
    runtime.register(std_module);
    let mut host = RecordingHost::new(Value::Unit);
    let result = runtime.evaluate(*call("m", "f", vec![]), &mut host);
    assert_eq!(result, Ok(Value::Integer(7)));
    assert_eq!(host.calls.len(), 0);
}

#[test]
fn element_signal_allocates_nothing() {
    // A return among list elements is the literal's result and no backing
    // store is created.
    let body = vec![lit(Litteral::List(vec![
        num(1),
        Expr::Return(Return { expression: num(5) }).boxed(),
        num(9),
    ]))];
    let mut runtime = runtime_with("m", vec![defined("f", vec![], body)]);
    let mut host = RecordingHost::new(Value::Unit);
    let result = runtime.evaluate(*call("m", "f", vec![]), &mut host);
    assert_eq!(result, Ok(Value::Integer(5)));
    assert_eq!(runtime.heap.cells.len(), 0);
}

#[test]
fn identity_function_returns_its_argument() {
    let mut runtime = runtime_with("m", vec![defined("id", vec!["a"], vec![invoke("a")])]);
    let mut host = RecordingHost::new(Value::Unit);
    let result = runtime.evaluate(*call("m", "id", vec![num(31)]), &mut host);
    assert_eq!(result, Ok(Value::Integer(31)));
}

#[test]
fn endless_loop_hits_the_recursion_limit() {
    let mut runtime = Runtime::default();
    let mut host = RecordingHost::new(Value::Unit);
    let result = runtime.evaluate(Expr::Loop(Loop { body: num(0) }), &mut host);
    assert_eq!(result, Err(Error::RecursionLimit));
}

#[test]
fn list_literal_preserves_order_and_count() {
    let mut runtime = Runtime::default();
    let mut host = RecordingHost::new(Value::Unit);
    let result = runtime.evaluate(
        Expr::Litteral(Litteral::List(vec![num(1), num(2), num(3)])),
        &mut host,
    );
    let handle = match result {
        Ok(Value::List(h)) => h,
        other => panic!("expected a list value, got {:?}", other),
    };
    let items = runtime.heap.get_list(handle).expect("list cell");
    assert_eq!(
        items,
        &vec![Value::Integer(1), Value::Integer(2), Value::Integer(3)]
    );
}

#[test]
fn object_literal_preserves_associations() {
    let mut runtime = Runtime::default();
    let mut host = RecordingHost::new(Value::Unit);
    let result = runtime.evaluate(
        Expr::Litteral(Litteral::Object(vec![
            ("a".into(), num(1)),
            ("b".into(), num(2)),
        ])),
        &mut host,
    );
    let handle = match result {
        Ok(Value::Object(h)) => h,
        other => panic!("expected an object value, got {:?}", other),
    };
    assert_eq!(
        runtime.heap.get_object_entry(handle, &"a".into()),
        Some(&Value::Integer(1))
    );
    assert_eq!(
        runtime.heap.get_object_entry(handle, &"b".into()),
        Some(&Value::Integer(2))
    );
    assert_eq!(runtime.heap.get_object_entry(handle, &"c".into()), None);
}

#[test]
fn compound_values_are_shared_not_copied() {
    // x is a list; y = x copies only the handle. Reading both back shows
    // the same backing cell and the same contents.
    let body = vec![
        assign("x", lit(Litteral::List(vec![num(1), num(2), num(3)]))),
        assign("y", invoke("x")),
        lit(Litteral::List(vec![invoke("x"), invoke("y")])),
    ];
    let mut runtime = runtime_with("m", vec![defined("f", vec![], body)]);
    let mut host = RecordingHost::new(Value::Unit);
    let result = runtime.evaluate(*call("m", "f", vec![]), &mut host);
    let pair_handle = match result {
        Ok(Value::List(h)) => h,
        other => panic!("expected a list value, got {:?}", other),
    };
    let pair = runtime.heap.get_list(pair_handle).expect("pair cell").clone();
    assert_eq!(pair.len(), 2);
    assert_eq!(pair[0], pair[1]);
    let inner = match pair[0] {
        Value::List(h) => h,
        ref other => panic!("expected a list value, got {:?}", other),
    };
    let items = runtime.heap.get_list(inner).expect("inner cell");
    assert_eq!(
        items,
        &vec![Value::Integer(1), Value::Integer(2), Value::Integer(3)]
    );
}

#[test]
fn float_literals_carry_their_bits() {
    let mut runtime = Runtime::default();
    let mut host = RecordingHost::new(Value::Unit);
    let bits = 1.5f32.to_bits();
    let result = runtime.evaluate(Expr::Litteral(Litteral::Float(bits)), &mut host);
    match result {
        Ok(Value::Float(b)) => assert_eq!(f32::from_bits(b), 1.5f32),
        other => panic!("expected a float value, got {:?}", other),
    }
}

#[test]
fn parameters_are_visible_and_callers_locals_are_not() {
    // g reads its own parameter; h tries to read the caller's local and
    // fails, because function frames do not bubble.
    let items = vec![
        defined("g", vec!["a"], vec![invoke("a")]),
        defined("h", vec![], vec![invoke("x")]),
        defined(
            "f",
            vec![],
            vec![assign("x", num(5)), call("m", "h", vec![])],
        ),
    ];
    let mut runtime = runtime_with("m", items);
    let mut host = RecordingHost::new(Value::Unit);
    let result = runtime.evaluate(*call("m", "g", vec![num(11)]), &mut host);
    assert_eq!(result, Ok(Value::Integer(11)));
    let result = runtime.evaluate(*call("m", "f", vec![]), &mut host);
    assert_eq!(result, Err(Error::UnboundVariable));
}

#[test]
fn assignment_is_an_expression() {
    let body = vec![assign("x", num(9))];
    let mut runtime = runtime_with("m", vec![defined("f", vec![], body)]);
    let mut host = RecordingHost::new(Value::Unit);
    let result = runtime.evaluate(*call("m", "f", vec![]), &mut host);
    assert_eq!(result, Ok(Value::Integer(9)));
}

#[test]
fn from_ast_collects_functions_and_exports() {
    let items = vec![
        TopLevel::Export(lorgn::ast::Export { items: vec!["f".into()] }),
        defined("f", vec![], vec![num(4)]),
    ];
    let module = Module::from_ast("m".into(), lorgn::ast::Module { items });
    assert_eq!(module.name().0, "m");
    assert!(module.get_function(&"f".into()).is_some());
    assert!(module.get_function(&"g".into()).is_none());
    assert!(module.exports.contains(&"f".into()));
    assert!(!module.exports.contains(&"g".into()));

    let mut runtime = Runtime::default();
    runtime.register(module);
    let mut host = RecordingHost::new(Value::Unit);
    let result = runtime.evaluate(*call("m", "f", vec![]), &mut host);
    assert_eq!(result, Ok(Value::Integer(4)));
}
