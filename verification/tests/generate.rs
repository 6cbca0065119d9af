use rhai::dynamic::Dynamic;
use rhai::engine::{Dispatcher, Engine, NativeCallContext};
use rhai::error::{EvalAltResult, Position};
use rhai::export::classify;
use rhai::plugin::{
    extract, synthesize, wrap_result, Adapter, Argument, NativeFunction, PluginFunction,
};
use rhai::rules::{PassingMode, ReturnKind};
use rhai::signature::{FnDecl, TypeDecl};
use std::cell::RefCell;
use std::rc::Rc;

/// A dispatcher that knows no function.
struct Nothing;

impl Dispatcher for Nothing {
    fn call_fn(&self, fn_name: &str, _args: Vec<Dynamic>) -> Result<Dynamic, Box<EvalAltResult>> {
        Err(Box::new(EvalAltResult::ErrorFunctionNotFound(fn_name.to_string(), Position::none())))
    }

    fn call_method(
        &self,
        fn_name: &str,
        this: Dynamic,
        _args: Vec<Dynamic>,
    ) -> (Dynamic, Result<Dynamic, Box<EvalAltResult>>) {
        (
            this,
            Err(Box::new(EvalAltResult::ErrorFunctionNotFound(
                fn_name.to_string(),
                Position::none(),
            ))),
        )
    }
}

/// What a host function saw of one call.
#[derive(Debug, PartialEq)]
struct Seen {
    context: bool,
    receiver: Option<Dynamic>,
    args: Vec<Argument>,
}

/// A host function that notes what it is handed and then does its work.
#[derive(Clone)]
struct Host {
    seen: Rc<RefCell<Vec<Seen>>>,
    work: fn(Option<&mut Dynamic>, &[Argument]) -> Result<Dynamic, Box<EvalAltResult>>,
}

impl Host {
    fn new(
        work: fn(Option<&mut Dynamic>, &[Argument]) -> Result<Dynamic, Box<EvalAltResult>>,
    ) -> Host {
        Host { seen: Rc::new(RefCell::new(Vec::new())), work }
    }
}

fn copy_of(arg: &Argument) -> Argument {
    match arg {
        Argument::Value(d) => Argument::Value(d.clone()),
        Argument::Text(s) => Argument::Text(s.clone()),
    }
}

impl NativeFunction for Host {
    fn call<D: Dispatcher>(
        &self,
        context: Option<&NativeCallContext<D>>,
        args: Vec<Argument>,
    ) -> Result<Dynamic, Box<EvalAltResult>> {
        self.seen.borrow_mut().push(Seen {
            context: context.is_some(),
            receiver: None,
            args: args.iter().map(copy_of).collect(),
        });
        (self.work)(None, &args)
    }

    fn call_method<D: Dispatcher>(
        &self,
        context: Option<&NativeCallContext<D>>,
        this: Dynamic,
        args: Vec<Argument>,
    ) -> (Dynamic, Result<Dynamic, Box<EvalAltResult>>) {
        self.seen.borrow_mut().push(Seen {
            context: context.is_some(),
            receiver: Some(this.clone()),
            args: args.iter().map(copy_of).collect(),
        });
        let mut this = this;
        let res = (self.work)(Some(&mut this), &args);
        (this, res)
    }
}

fn int_of(arg: &Argument) -> i64 {
    match arg {
        Argument::Value(d) => d.as_int().unwrap(),
        Argument::Text(_) => panic!("an integer was expected"),
    }
}

fn nothing(_: Option<&mut Dynamic>, _: &[Argument]) -> Result<Dynamic, Box<EvalAltResult>> {
    Ok(Dynamic::unit())
}

fn add_together(_: Option<&mut Dynamic>, args: &[Argument]) -> Result<Dynamic, Box<EvalAltResult>> {
    Ok(Dynamic::from_int(int_of(&args[0]) + int_of(&args[1])))
}

fn increment(this: Option<&mut Dynamic>, args: &[Argument]) -> Result<Dynamic, Box<EvalAltResult>> {
    let x = this.unwrap();
    *x = Dynamic::from_int(x.as_int().unwrap() + int_of(&args[0]));
    Ok(Dynamic::from_int(-1))
}

fn fail(_: Option<&mut Dynamic>, _: &[Argument]) -> Result<Dynamic, Box<EvalAltResult>> {
    Err(Box::new(EvalAltResult::ErrorRuntime(Dynamic::from_int(7), Position::none())))
}

fn adapter(decl: FnDecl, host: &Host) -> Adapter<Host> {
    synthesize(classify(decl).unwrap(), host.clone())
}

fn usize_type() -> TypeDecl {
    TypeDecl::path("usize")
}

fn empty() -> Vec<String> {
    Vec::new()
}

#[test]
fn minimal_fn() {
    // pub fn do_nothing() { }
    let host = Host::new(nothing);
    let token = adapter(FnDecl::new("do_nothing", true), &host);
    let engine = Engine::new(0, Nothing);
    let context = NativeCallContext::new(&engine, None);

    let mut args: Vec<Dynamic> = vec![];
    assert_eq!(token.call(&context, &mut args), Ok(Dynamic::unit()));
    assert_eq!(*host.seen.borrow(), vec![Seen { context: false, receiver: None, args: vec![] }]);

    assert!(!token.is_method_call());
    assert!(!token.is_variadic());
    assert_eq!(token.param_names(), vec!["()"]);
    assert_eq!(token.input_types(), empty());
    assert_eq!(token.extraction_order(), Vec::<usize>::new());
    assert_eq!(token.dynamic_result_fn(&context, vec![]), Ok(Dynamic::unit()));
}

#[test]
fn one_arg_usize_fn() {
    // pub fn do_something(x: usize) { }
    let host = Host::new(nothing);
    let token = adapter(FnDecl::new("do_something", true).with_param("x", usize_type()), &host);
    let engine = Engine::new(0, Nothing);
    let context = NativeCallContext::new(&engine, None);

    let mut args = vec![Dynamic::from_int(42)];
    assert_eq!(token.call(&context, &mut args), Ok(Dynamic::unit()));
    assert_eq!(args, vec![Dynamic::unit()]);
    assert_eq!(
        *host.seen.borrow(),
        vec![Seen {
            context: false,
            receiver: None,
            args: vec![Argument::Value(Dynamic::from_int(42))],
        }]
    );

    assert!(!token.is_method_call());
    assert!(!token.is_variadic());
    assert_eq!(token.param_names(), vec!["x: usize", "()"]);
    assert_eq!(token.input_types(), vec!["usize"]);
    assert_eq!(token.extraction_order(), vec![0]);
    assert_eq!(
        token.dynamic_result_fn(&context, vec![Argument::Value(Dynamic::from_int(1))]),
        Ok(Dynamic::unit())
    );
}

#[test]
fn one_arg_fn_with_context() {
    // pub fn do_something(context: NativeCallContext, x: usize) {}
    let host = Host::new(nothing);
    let decl = FnDecl::new("do_something", true)
        .with_param("context", TypeDecl::path("NativeCallContext"))
        .with_param("x", usize_type());
    let item_fn = classify(decl).unwrap();
    assert!(item_fn.pass_context());
    let token = synthesize(item_fn, host.clone());
    let engine = Engine::new(0, Nothing);
    let context = NativeCallContext::new(&engine, None);

    let mut args = vec![Dynamic::from_int(42)];
    assert_eq!(token.call(&context, &mut args), Ok(Dynamic::unit()));
    assert_eq!(args, vec![Dynamic::unit()]);
    assert_eq!(
        *host.seen.borrow(),
        vec![Seen {
            context: true,
            receiver: None,
            args: vec![Argument::Value(Dynamic::from_int(42))],
        }]
    );

    assert!(!token.is_method_call());
    assert!(!token.is_variadic());
    assert_eq!(token.param_names(), vec!["x: usize", "()"]);
    assert_eq!(token.input_types(), vec!["usize"]);
}

#[test]
fn return_dynamic() {
    // pub fn return_dynamic() -> (((rhai::Dynamic))) { ().into() }
    let host = Host::new(nothing);
    let ty = TypeDecl::paren(TypeDecl::paren(TypeDecl::paren(TypeDecl::path("rhai::Dynamic"))));
    let token = adapter(FnDecl::new("return_dynamic", true).returning(ty), &host);
    let engine = Engine::new(0, Nothing);
    let context = NativeCallContext::new(&engine, None);

    let mut args: Vec<Dynamic> = vec![];
    assert_eq!(token.call(&context, &mut args), Ok(Dynamic::unit()));
    assert!(!token.is_method_call());
    assert!(!token.is_variadic());
    assert_eq!(token.param_names(), vec!["rhai::Dynamic"]);
    assert_eq!(token.input_types(), empty());
}

#[test]
fn one_arg_usize_fn_impl() {
    // pub fn do_something(x: usize) { }
    let host = Host::new(nothing);
    let first = adapter(FnDecl::new("do_something", true).with_param("x", usize_type()), &host);
    let test_struct = first.clone();
    let engine = Engine::new(0, Nothing);
    let context = NativeCallContext::new(&engine, None);

    let mut args = vec![Dynamic::from_int(42)];
    assert_eq!(test_struct.call(&context, &mut args), Ok(Dynamic::unit()));
    assert_eq!(args, vec![Dynamic::unit()]);
    assert!(!test_struct.is_method_call());
    assert!(!test_struct.is_variadic());
    assert_eq!(test_struct.param_names(), vec!["x: usize", "()"]);
    assert_eq!(test_struct.input_types(), vec!["usize"]);
    assert_eq!(test_struct.param_names(), first.param_names());
}

#[test]
fn two_arg_returning_usize_fn() {
    // pub fn add_together(x: usize, y: usize) -> usize { x + y }
    let host = Host::new(add_together);
    let decl = FnDecl::new("add_together", true)
        .with_param("x", usize_type())
        .with_param("y", usize_type())
        .returning(usize_type());
    let token = adapter(decl, &host);
    let engine = Engine::new(0, Nothing);
    let context = NativeCallContext::new(&engine, None);

    let mut args = vec![Dynamic::from_int(2), Dynamic::from_int(3)];
    assert_eq!(token.call(&context, &mut args), Ok(Dynamic::from_int(5)));
    assert_eq!(args, vec![Dynamic::unit(), Dynamic::unit()]);
    assert_eq!(
        *host.seen.borrow(),
        vec![Seen {
            context: false,
            receiver: None,
            args: vec![
                Argument::Value(Dynamic::from_int(2)),
                Argument::Value(Dynamic::from_int(3)),
            ],
        }]
    );

    assert!(!token.is_method_call());
    assert!(!token.is_variadic());
    assert_eq!(token.param_names(), vec!["x: usize", "y: usize", "usize"]);
    assert_eq!(token.input_types(), vec!["usize", "usize"]);
    assert_eq!(token.extraction_order(), vec![0, 1]);
    assert_eq!(
        token.dynamic_result_fn(
            &context,
            vec![Argument::Value(Dynamic::from_int(20)), Argument::Value(Dynamic::from_int(22))]
        ),
        Ok(Dynamic::from_int(42))
    );
}

#[test]
fn mut_arg_usize_fn() {
    // pub fn increment(x: &mut usize, y: usize) { *x += y; }
    let host = Host::new(increment);
    let decl = FnDecl::new("increment", true)
        .with_param("x", TypeDecl::reference_mut(usize_type()))
        .with_param("y", usize_type());
    let item_fn = classify(decl).unwrap();
    assert!(item_fn.mutable_receiver());
    let token = synthesize(item_fn, host.clone());
    let engine = Engine::new(0, Nothing);
    let context = NativeCallContext::new(&engine, None);

    // A receiver that is a constant ends the call before anything is taken.
    let mut args = vec![Dynamic::from_int(40).into_read_only(), Dynamic::from_int(2)];
    assert_eq!(
        token.call(&context, &mut args),
        Err(Box::new(EvalAltResult::ErrorAssignmentToConstant("x".to_string(), Position::none())))
    );
    assert_eq!(args, vec![Dynamic::from_int(40).into_read_only(), Dynamic::from_int(2)]);
    assert!(host.seen.borrow().is_empty());

    let mut args = vec![Dynamic::from_int(40), Dynamic::from_int(2)];
    assert_eq!(token.call(&context, &mut args), Ok(Dynamic::unit()));
    assert_eq!(args, vec![Dynamic::from_int(42), Dynamic::unit()]);
    assert_eq!(
        *host.seen.borrow(),
        vec![Seen {
            context: false,
            receiver: Some(Dynamic::from_int(40)),
            args: vec![Argument::Value(Dynamic::from_int(2))],
        }]
    );

    assert!(token.is_method_call());
    assert!(!token.is_variadic());
    assert_eq!(token.param_names(), vec!["x: &mut usize", "y: usize", "()"]);
    assert_eq!(token.input_types(), vec!["usize", "usize"]);
    // The receiver is taken after the other argument.
    assert_eq!(token.extraction_order(), vec![1, 0]);

    let mut x = Dynamic::from_int(1);
    assert_eq!(
        token.dynamic_result_method(
            &context,
            &mut x,
            vec![Argument::Value(Dynamic::from_int(2))]
        ),
        Ok(Dynamic::unit())
    );
    assert_eq!(x, Dynamic::from_int(3));
}

#[test]
fn str_arg_fn() {
    // pub fn special_print(message: &str) { eprintln!("----{}----", message); }
    let host = Host::new(nothing);
    let decl = FnDecl::new("special_print", true)
        .with_param("message", TypeDecl::reference(TypeDecl::path("str")));
    let item_fn = classify(decl).unwrap();
    assert!(!item_fn.mutable_receiver());
    let token = synthesize(item_fn, host.clone());
    let engine = Engine::new(0, Nothing);
    let context = NativeCallContext::new(&engine, None);

    let mut args = vec![Dynamic::from_string("hello".to_string())];
    assert_eq!(token.call(&context, &mut args), Ok(Dynamic::unit()));
    assert_eq!(args, vec![Dynamic::unit()]);
    assert_eq!(
        *host.seen.borrow(),
        vec![Seen { context: false, receiver: None, args: vec![Argument::Text("hello".to_string())] }]
    );

    assert!(!token.is_method_call());
    assert!(!token.is_variadic());
    assert_eq!(token.param_names(), vec!["message: &str", "()"]);
    assert_eq!(token.input_types(), vec!["ImmutableString"]);
}

#[test]
fn self_receivers_are_borrowed_exclusively() {
    for mutable in [false, true] {
        let host = Host::new(increment);
        let decl = FnDecl::new("bump", true).with_receiver(mutable).with_param("by", usize_type());
        let token = adapter(decl, &host);
        let engine = Engine::new(0, Nothing);
        let context = NativeCallContext::new(&engine, None);
        assert!(token.is_method_call());

        let mut args = vec![Dynamic::from_int(1), Dynamic::from_int(2)];
        assert_eq!(token.call(&context, &mut args), Ok(Dynamic::unit()));
        assert_eq!(args, vec![Dynamic::from_int(3), Dynamic::unit()]);

        let mut args = vec![Dynamic::from_int(1).into_read_only(), Dynamic::from_int(2)];
        assert_eq!(
            token.call(&context, &mut args),
            Err(Box::new(EvalAltResult::ErrorAssignmentToConstant(
                "self".to_string(),
                Position::none()
            )))
        );
        assert_eq!(args[1], Dynamic::from_int(2));
    }
}

#[test]
fn errors_of_the_function_come_back_unchanged() {
    let raised =
        || Box::new(EvalAltResult::ErrorRuntime(Dynamic::from_int(7), Position::none()));
    for raw in [false, true] {
        let host = Host::new(fail);
        let mut decl = FnDecl::new("fail", true)
            .with_param("x", TypeDecl::reference_mut(usize_type()))
            .returning(TypeDecl::path("Dynamic"));
        if raw {
            decl = decl.return_raw();
        }
        let token = adapter(decl, &host);
        let engine = Engine::new(0, Nothing);
        let context = NativeCallContext::new(&engine, None);
        let mut args = vec![Dynamic::from_int(1)];
        assert_eq!(token.call(&context, &mut args), Err(raised()));
        assert_eq!(args, vec![Dynamic::from_int(1)]);
    }
}

#[test]
fn results_are_wrapped_by_kind() {
    let raised =
        || Box::new(EvalAltResult::ErrorRuntime(Dynamic::from_int(7), Position::none()));
    assert_eq!(wrap_result(ReturnKind::Unit, Ok(Dynamic::from_int(1))), Ok(Dynamic::unit()));
    assert_eq!(wrap_result(ReturnKind::Value, Ok(Dynamic::from_int(1))), Ok(Dynamic::from_int(1)));
    assert_eq!(
        wrap_result(ReturnKind::Fallible, Ok(Dynamic::from_int(1))),
        Ok(Dynamic::from_int(1))
    );
    assert_eq!(wrap_result(ReturnKind::Unit, Err(raised())), Err(raised()));
    assert_eq!(wrap_result(ReturnKind::Value, Err(raised())), Err(raised()));
    assert_eq!(wrap_result(ReturnKind::Fallible, Err(raised())), Err(raised()));
}

#[test]
fn arguments_are_taken_by_mode() {
    let mut slot = Dynamic::from_int(5).into_read_only();
    assert_eq!(
        extract(PassingMode::Value, &mut slot),
        Argument::Value(Dynamic::from_int(5).into_read_only())
    );
    assert_eq!(slot, Dynamic::unit());

    let mut slot = Dynamic::from_string("abc".to_string());
    assert_eq!(
        extract(PassingMode::StringByReference, &mut slot),
        Argument::Text("abc".to_string())
    );
    assert_eq!(slot, Dynamic::unit());

    let mut slot = Dynamic::from_string("abc".to_string());
    assert_eq!(
        extract(PassingMode::Value, &mut slot),
        Argument::Value(Dynamic::from_string("abc".to_string()))
    );
}

#[test]
fn text_behind_a_receiver() {
    // pub fn rename(x: &mut Person, level: usize, name: &str) -> bool
    let host = Host::new(nothing);
    let decl = FnDecl::new("rename", true)
        .with_param("x", TypeDecl::reference_mut(TypeDecl::path("Person")))
        .with_param("level", usize_type())
        .with_param("name", TypeDecl::reference(TypeDecl::path("str")))
        .returning(TypeDecl::path("bool"));
    let token = adapter(decl, &host);
    let engine = Engine::new(0, Nothing);
    let context = NativeCallContext::new(&engine, Some("script".to_string()));

    assert_eq!(token.extraction_order(), vec![1, 2, 0]);
    assert_eq!(token.input_types(), vec!["Person", "usize", "ImmutableString"]);
    let mut args = vec![
        Dynamic::from_bool(true),
        Dynamic::from_int(3),
        Dynamic::from_string("Ann".to_string()),
    ];
    assert_eq!(token.call(&context, &mut args), Ok(Dynamic::unit()));
    assert_eq!(args, vec![Dynamic::from_bool(true), Dynamic::unit(), Dynamic::unit()]);
    assert_eq!(
        *host.seen.borrow(),
        vec![Seen {
            context: false,
            receiver: Some(Dynamic::from_bool(true)),
            args: vec![Argument::Value(Dynamic::from_int(3)), Argument::Text("Ann".to_string())],
        }]
    );
}

#[test]
fn calling_twice_gives_the_same() {
    let host = Host::new(add_together);
    let decl = FnDecl::new("add_together", true)
        .with_param("x", usize_type())
        .with_param("y", usize_type())
        .returning(usize_type());
    let exported = classify(decl).unwrap();
    let kept = exported.clone();
    let token = synthesize(exported, host.clone());
    let engine = Engine::new(0, Nothing);
    let context = NativeCallContext::new(&engine, None);

    let mut first = vec![Dynamic::from_int(2), Dynamic::from_int(3)];
    let mut second = vec![Dynamic::from_int(2), Dynamic::from_int(3)];
    let a = token.call(&context, &mut first);
    let b = token.call(&context, &mut second);
    assert_eq!(a, b);
    assert_eq!(first, second);
    assert_eq!(token.param_names(), kept.param_names());
    assert_eq!(token.input_types(), kept.input_types());
    assert_eq!(token.is_method_call(), kept.mutable_receiver());
}

#[test]
fn slots_are_checked_before_a_call() {
    let host = Host::new(nothing);
    let decl = FnDecl::new("rename", true)
        .with_param("x", TypeDecl::reference_mut(TypeDecl::path("Person")))
        .with_param("name", TypeDecl::reference(TypeDecl::path("str")));
    let token = adapter(decl, &host);
    let text = || Dynamic::from_string("Ann".to_string());
    assert!(token.can_call(&vec![Dynamic::from_int(1), text()]));
    assert!(token.can_call(&vec![text(), text()]));
    assert!(token.can_call(&vec![Dynamic::from_int(1).into_read_only(), text()]));
    assert!(!token.can_call(&vec![Dynamic::from_int(1), Dynamic::from_int(2)]));
    assert!(!token.can_call(&vec![Dynamic::from_int(1)]));
    assert!(!token.can_call(&vec![]));
    assert!(!token.can_call(&vec![Dynamic::from_int(1), text(), text()]));

    let none = adapter(FnDecl::new("do_nothing", true), &host);
    assert!(none.can_call(&vec![]));
    assert!(!none.can_call(&vec![Dynamic::unit()]));
}

#[test]
fn adapter_keeps_its_findings() {
    let host = Host::new(nothing);
    let decl = || FnDecl::new("log", false).with_param("x", usize_type()).renamed("print");
    let token = adapter(decl(), &host);
    assert_eq!(token.exported_fn(), &classify(decl()).unwrap());
    assert_eq!(token.exported_fn().name(), "log");
    assert!(!token.exported_fn().is_public());
    assert_eq!(token.exported_fn().exported_names(), vec!["print"]);
    assert_eq!(token.exported_fn().return_kind(), ReturnKind::Unit);
}
