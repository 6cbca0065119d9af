use rhai::export::{classify, ExportedFn};
use rhai::rules::{
    declared_form, is_call_context, is_text_reference, parameter_rule, return_rule, DeclaredForm,
    DefinitionError, PassingMode, ReturnKind,
};
use rhai::signature::{FnArg, FnDecl, Param, TypeDecl};

fn typed(name: &str, ty: TypeDecl) -> FnArg {
    FnArg::Typed(Param::new(name, ty))
}

fn person() -> TypeDecl {
    TypeDecl::path("Person")
}

fn text() -> TypeDecl {
    TypeDecl::reference(TypeDecl::path("str"))
}

#[test]
fn function_minimal_fn() {
    // pub fn do_nothing() { }
    let item_fn = classify(FnDecl::new("do_nothing", true)).unwrap();
    assert_eq!(item_fn.name(), "do_nothing");
    assert!(!item_fn.mutable_receiver());
    assert!(item_fn.is_public());
    assert!(item_fn.return_type().is_none());
    assert_eq!(item_fn.arg_list().len(), 0);
}

#[test]
fn one_arg_fn() {
    // pub fn do_something(x: usize) { }
    let decl = FnDecl::new("do_something", true).with_param("x", TypeDecl::path("usize"));
    let item_fn = classify(decl).unwrap();
    assert_eq!(item_fn.name(), "do_something");
    assert_eq!(item_fn.arg_list().len(), 1);
    assert!(!item_fn.mutable_receiver());
    assert!(item_fn.is_public());
    assert!(item_fn.return_type().is_none());

    assert_eq!(item_fn.arg_list()[0], typed("x", TypeDecl::path("usize")));
}

#[test]
fn two_arg_fn() {
    // pub fn do_something(x: usize, y: f32) { }
    let decl = FnDecl::new("do_something", true)
        .with_param("x", TypeDecl::path("usize"))
        .with_param("y", TypeDecl::path("f32"));
    let item_fn = classify(decl).unwrap();
    assert_eq!(item_fn.name(), "do_something");
    assert_eq!(item_fn.arg_list().len(), 2);
    assert!(!item_fn.mutable_receiver());
    assert!(item_fn.is_public());
    assert!(item_fn.return_type().is_none());

    assert_eq!(item_fn.arg_list()[0], typed("x", TypeDecl::path("usize")));
    assert_eq!(item_fn.arg_list()[1], typed("y", TypeDecl::path("f32")));
}

#[test]
fn usize_returning_fn() {
    // pub fn get_magic_number() -> usize { 42 }
    let decl = FnDecl::new("get_magic_number", true).returning(TypeDecl::path("usize"));
    let item_fn = classify(decl).unwrap();
    assert_eq!(item_fn.name(), "get_magic_number");
    assert!(!item_fn.mutable_receiver());
    assert!(item_fn.is_public());
    assert_eq!(item_fn.arg_list().len(), 0);
    assert_eq!(item_fn.return_type().unwrap(), &TypeDecl::path("usize"));
}

#[test]
fn ref_returning_fn() {
    // pub fn get_magic_phrase() -> &'static str { "open sesame" }
    let decl = FnDecl::new("get_magic_phrase", true).returning(text());
    let err = classify(decl).unwrap_err();
    assert_eq!(err.message(), "Rhai functions cannot return references");
}

#[test]
fn ptr_returning_fn() {
    // pub fn get_magic_phrase() -> *const str { "open sesame" }
    let decl = FnDecl::new("get_magic_phrase", true)
        .returning(TypeDecl::pointer(false, TypeDecl::path("str")));
    let err = classify(decl).unwrap_err();
    assert_eq!(err.message(), "Rhai functions cannot return pointers");
}

#[test]
fn ref_arg_fn() {
    // pub fn greet(who: &Person) { }
    let decl = FnDecl::new("greet", true).with_param("who", TypeDecl::reference(person()));
    let err = classify(decl).unwrap_err();
    assert_eq!(
        err.message(),
        "references from Rhai in this position must be mutable"
    );
}

#[test]
fn ref_second_arg_fn() {
    // pub fn greet(count: usize, who: &Person) { }
    let decl = FnDecl::new("greet", true)
        .with_param("count", TypeDecl::path("usize"))
        .with_param("who", TypeDecl::reference(person()));
    let err = classify(decl).unwrap_err();
    assert_eq!(
        err.message(),
        "this type in this position passes from Rhai by value"
    );
}

#[test]
fn mut_ref_second_arg_fn() {
    // pub fn give(item_name: &str, who: &mut Person) { }
    let decl = FnDecl::new("give", true)
        .with_param("item_name", text())
        .with_param("who", TypeDecl::reference_mut(person()));
    let err = classify(decl).unwrap_err();
    assert_eq!(
        err.message(),
        "this type in this position passes from Rhai by value"
    );
}

#[test]
fn function_str_arg_fn() {
    // pub fn log(message: &str) { }
    let decl = FnDecl::new("log", true).with_param("message", text());
    let item_fn = classify(decl).unwrap();
    assert_eq!(item_fn.name(), "log");
    assert_eq!(item_fn.arg_list().len(), 1);
    assert!(!item_fn.mutable_receiver());
    assert!(item_fn.is_public());
    assert!(item_fn.return_type().is_none());

    assert_eq!(item_fn.arg_list()[0], typed("message", text()));
}

#[test]
fn str_second_arg_fn() {
    // pub fn log(level: usize, message: &str) { }
    let decl = FnDecl::new("log", true)
        .with_param("level", TypeDecl::path("usize"))
        .with_param("message", text());
    let item_fn = classify(decl).unwrap();
    assert_eq!(item_fn.name(), "log");
    assert_eq!(item_fn.arg_list().len(), 2);
    assert!(!item_fn.mutable_receiver());
    assert!(item_fn.is_public());
    assert!(item_fn.return_type().is_none());

    assert_eq!(item_fn.arg_list()[0], typed("level", TypeDecl::path("usize")));
    assert_eq!(item_fn.arg_list()[1], typed("message", text()));
}

#[test]
fn private_fn() {
    // fn do_nothing() { }
    let item_fn = classify(FnDecl::new("do_nothing", false)).unwrap();
    assert_eq!(item_fn.name(), "do_nothing");
    assert!(!item_fn.mutable_receiver());
    assert!(!item_fn.is_public());
    assert!(item_fn.return_type().is_none());
    assert_eq!(item_fn.arg_list().len(), 0);
}

#[test]
fn receiver_fn() {
    // pub fn act_upon(&mut self) { }
    let item_fn = classify(FnDecl::new("act_upon", true).with_receiver(true)).unwrap();
    assert_eq!(item_fn.name(), "act_upon");
    assert!(item_fn.mutable_receiver());
    assert!(item_fn.is_public());
    assert!(item_fn.return_type().is_none());
    assert_eq!(item_fn.arg_list().len(), 1);
}

#[test]
fn immutable_receiver_fn() {
    // pub fn act_upon(&self) { }
    let item_fn = classify(FnDecl::new("act_upon", true).with_receiver(false)).unwrap();
    assert_eq!(item_fn.name(), "act_upon");
    assert!(item_fn.mutable_receiver());
    assert!(item_fn.is_public());
    assert!(item_fn.return_type().is_none());
    assert_eq!(item_fn.arg_list().len(), 1);
}

#[test]
fn receivers_are_listed_as_declared() {
    let shared = classify(FnDecl::new("act_upon", true).with_receiver(false)).unwrap();
    let exclusive = classify(FnDecl::new("act_upon", true).with_receiver(true)).unwrap();
    assert_eq!(shared.arg_list(), vec![FnArg::Receiver { mutable: false }]);
    assert_eq!(exclusive.arg_list(), vec![FnArg::Receiver { mutable: true }]);
    assert_eq!(shared.mode(0), PassingMode::ReceiverMutable);
    assert_eq!(exclusive.mode(0), PassingMode::ReceiverMutable);
    assert_eq!(shared.param_names(), vec!["&self", "()"]);
    assert_eq!(exclusive.param_names(), vec!["&mut self", "()"]);
    assert_eq!(exclusive.input_types(), vec!["Self"]);
    assert_eq!(exclusive.receiver_name(), "self");
}

#[test]
fn exclusive_reference_behind_self_is_refused() {
    let decl = FnDecl::new("merge", true)
        .with_receiver(true)
        .with_param("other", TypeDecl::reference_mut(person()));
    assert_eq!(classify(decl), Err(DefinitionError::PassedByValue));
}

#[test]
fn shared_reference_behind_self_is_refused() {
    let decl = FnDecl::new("merge", true)
        .with_receiver(false)
        .with_param("other", TypeDecl::reference(person()));
    assert_eq!(classify(decl), Err(DefinitionError::PassedByValue));
}

#[test]
fn first_refusal_wins() {
    // fn f(a: &Person, b: &mut Person) -> &str
    let decl = FnDecl::new("f", false)
        .with_param("a", TypeDecl::reference(person()))
        .with_param("b", TypeDecl::reference_mut(person()))
        .returning(text());
    assert_eq!(classify(decl), Err(DefinitionError::MustBeMutable));

    // fn f(a: usize, b: &mut Person) -> *mut u8
    let decl = FnDecl::new("f", false)
        .with_param("a", TypeDecl::path("usize"))
        .with_param("b", TypeDecl::reference_mut(person()))
        .returning(TypeDecl::pointer(true, TypeDecl::path("u8")));
    assert_eq!(classify(decl), Err(DefinitionError::PassedByValue));

    // fn f(a: usize) -> *mut u8
    let decl = FnDecl::new("f", false)
        .with_param("a", TypeDecl::path("usize"))
        .returning(TypeDecl::pointer(true, TypeDecl::path("u8")));
    assert_eq!(classify(decl), Err(DefinitionError::ReturnsPointer));
}

#[test]
fn parentheses_do_not_hide_a_reference() {
    let decl = FnDecl::new("get", true)
        .returning(TypeDecl::paren(TypeDecl::paren(TypeDecl::reference(person()))));
    assert_eq!(classify(decl), Err(DefinitionError::ReturnsReference));

    let decl = FnDecl::new("greet", true)
        .with_param("who", TypeDecl::paren(TypeDecl::reference(person())));
    assert_eq!(classify(decl), Err(DefinitionError::MustBeMutable));

    let decl = FnDecl::new("log", true).with_param(
        "message",
        TypeDecl::paren(TypeDecl::reference(TypeDecl::paren(TypeDecl::path("str")))),
    );
    assert_eq!(classify(decl).unwrap().mode(0), PassingMode::StringByReference);
}

#[test]
fn context_is_seen_only_in_front() {
    let ctx = || TypeDecl::path("NativeCallContext");
    let full = || TypeDecl::path("rhai::NativeCallContext");

    let f = classify(FnDecl::new("f", true).with_param("ctx", ctx()).with_param("x", person()))
        .unwrap();
    assert!(f.pass_context());
    assert_eq!(f.arg_count(), 1);
    assert_eq!(f.arg_list(), vec![typed("x", person())]);

    let f = classify(FnDecl::new("f", true).with_param("ctx", full())).unwrap();
    assert!(f.pass_context());
    assert_eq!(f.arg_count(), 0);

    let f = classify(FnDecl::new("f", true).with_param("x", person()).with_param("ctx", ctx()))
        .unwrap();
    assert!(!f.pass_context());
    assert_eq!(f.arg_count(), 2);

    let f = classify(FnDecl::new("f", true).with_receiver(true).with_param("ctx", ctx())).unwrap();
    assert!(!f.pass_context());
    assert_eq!(f.arg_count(), 2);

    // The receiver may follow the context.
    let f = classify(
        FnDecl::new("f", true)
            .with_param("ctx", ctx())
            .with_param("x", TypeDecl::reference_mut(person()))
            .with_param("y", person()),
    )
    .unwrap();
    assert!(f.pass_context());
    assert!(f.mutable_receiver());
    assert_eq!(f.mode(0), PassingMode::ReceiverMutable);
    assert_eq!(f.mode(1), PassingMode::Value);
    assert_eq!(f.receiver_name(), "x");
    assert_eq!(f.param_names(), vec!["x: &mut Person", "y: Person", "()"]);
    assert_eq!(f.input_types(), vec!["Person", "Person"]);
}

#[test]
fn rules_table() {
    let (owned, shared, exclusive) = (
        DeclaredForm::Owned,
        DeclaredForm::SharedReference,
        DeclaredForm::ExclusiveReference,
    );
    for first in [true, false] {
        for text in [true, false] {
            assert_eq!(parameter_rule(first, owned, text), Ok(PassingMode::Value));
        }
    }
    assert_eq!(parameter_rule(true, exclusive, false), Ok(PassingMode::ReceiverMutable));
    assert_eq!(
        parameter_rule(false, exclusive, false),
        Err(DefinitionError::PassedByValue)
    );
    assert_eq!(parameter_rule(true, shared, true), Ok(PassingMode::StringByReference));
    assert_eq!(parameter_rule(false, shared, true), Ok(PassingMode::StringByReference));
    assert_eq!(parameter_rule(true, shared, false), Err(DefinitionError::MustBeMutable));
    assert_eq!(parameter_rule(false, shared, false), Err(DefinitionError::PassedByValue));
}

#[test]
fn return_rules() {
    assert_eq!(return_rule(&None, false), Ok(ReturnKind::Unit));
    assert_eq!(return_rule(&None, true), Ok(ReturnKind::Unit));
    assert_eq!(return_rule(&Some(TypeDecl::Unit), false), Ok(ReturnKind::Unit));
    assert_eq!(return_rule(&Some(TypeDecl::path("usize")), false), Ok(ReturnKind::Value));
    assert_eq!(return_rule(&Some(TypeDecl::path("usize")), true), Ok(ReturnKind::Fallible));
    assert_eq!(
        return_rule(&Some(TypeDecl::Other("Result<Dynamic, Box<EvalAltResult>>".to_string())), true),
        Ok(ReturnKind::Fallible)
    );
    assert_eq!(return_rule(&Some(text()), true), Err(DefinitionError::ReturnsReference));
    assert_eq!(
        return_rule(&Some(TypeDecl::pointer(true, person())), false),
        Err(DefinitionError::ReturnsPointer)
    );
}

#[test]
fn forms_and_special_types() {
    assert_eq!(declared_form(&person()), DeclaredForm::Owned);
    assert_eq!(declared_form(&TypeDecl::reference(person())), DeclaredForm::SharedReference);
    assert_eq!(declared_form(&TypeDecl::reference_mut(person())), DeclaredForm::ExclusiveReference);
    assert_eq!(declared_form(&TypeDecl::pointer(true, person())), DeclaredForm::Owned);
    assert!(is_text_reference(&text()));
    assert!(!is_text_reference(&TypeDecl::reference_mut(TypeDecl::path("str"))));
    assert!(!is_text_reference(&TypeDecl::reference(TypeDecl::path("String"))));
    assert!(!is_text_reference(&TypeDecl::path("str")));
    assert!(is_call_context(&TypeDecl::path("NativeCallContext")));
    assert!(is_call_context(&TypeDecl::paren(TypeDecl::path("rhai::NativeCallContext"))));
    assert!(!is_call_context(&TypeDecl::path("Context")));
    assert!(!is_call_context(&TypeDecl::reference(TypeDecl::path("NativeCallContext"))));
}

#[test]
fn each_error_has_its_message() {
    assert_eq!(
        DefinitionError::ReturnsReference.message(),
        "Rhai functions cannot return references"
    );
    assert_eq!(DefinitionError::ReturnsPointer.message(), "Rhai functions cannot return pointers");
    assert_eq!(
        DefinitionError::MustBeMutable.message(),
        "references from Rhai in this position must be mutable"
    );
    assert_eq!(
        DefinitionError::PassedByValue.message(),
        "this type in this position passes from Rhai by value"
    );
}

#[test]
fn types_are_written_out() {
    assert_eq!(TypeDecl::Unit.render(), "()");
    assert_eq!(TypeDecl::path("rhai::Dynamic").render(), "rhai::Dynamic");
    assert_eq!(TypeDecl::reference(person()).render(), "&Person");
    assert_eq!(TypeDecl::reference_mut(person()).render(), "&mut Person");
    assert_eq!(TypeDecl::pointer(false, person()).render(), "*const Person");
    assert_eq!(TypeDecl::pointer(true, person()).render(), "*mut Person");
    assert_eq!(TypeDecl::paren(TypeDecl::paren(person())).render(), "Person");
    assert_eq!(TypeDecl::Other("[u8; 4]".to_string()).render(), "[u8; 4]");
    assert_eq!(
        TypeDecl::reference(TypeDecl::paren(TypeDecl::reference_mut(person()))).render(),
        "&&mut Person"
    );
    assert_eq!(TypeDecl::paren(person()).flatten(), &person());
    assert!(TypeDecl::paren(person()).is_path("Person"));
    assert!(!person().is_path("Persons"));
    assert!(!person().is_path("Perso"));
}

#[test]
fn exported_names() {
    let plain = classify(FnDecl::new("len", true)).unwrap();
    assert_eq!(plain.exported_names(), vec!["len"]);

    let renamed = classify(FnDecl::new("push", true).renamed("push").renamed("+=")).unwrap();
    assert_eq!(renamed.exported_names(), vec!["push", "+="]);

    let getter = classify(FnDecl::new("len", true).renamed("len").getter("len").pure()).unwrap();
    assert_eq!(getter.exported_names(), vec!["len", "get$len"]);

    let setter = classify(FnDecl::new("set_x", true).setter("x")).unwrap();
    assert_eq!(setter.exported_names(), vec!["set$x"]);
}

#[test]
fn classifying_twice_gives_the_same() {
    let make = || {
        FnDecl::new("log", true)
            .with_param("level", TypeDecl::path("usize"))
            .with_param("message", text())
            .returning(TypeDecl::path("bool"))
    };
    let first: ExportedFn = classify(make()).unwrap();
    let second: ExportedFn = classify(make()).unwrap();
    assert_eq!(first, second);
    assert_eq!(first.param_names(), second.param_names());
    assert_eq!(first.input_types(), second.input_types());
    assert_eq!(first.mutable_receiver(), second.mutable_receiver());
    assert_eq!(first.clone(), first);
    assert_eq!(make().clone(), make());
    assert_eq!(first.return_kind(), ReturnKind::Value);
}

#[test]
fn findings_can_be_checked() {
    let decl = || {
        FnDecl::new("increment", true)
            .with_param("x", TypeDecl::reference_mut(TypeDecl::path("usize")))
            .with_param("y", TypeDecl::path("usize"))
    };
    let found = classify(decl()).unwrap();
    assert!(found.is_classified());

    let mut tampered = classify(decl()).unwrap();
    tampered.mut_receiver = false;
    assert!(!tampered.is_classified());

    let mut tampered = classify(decl()).unwrap();
    tampered.modes.pop();
    assert!(!tampered.is_classified());

    let mut tampered = classify(decl()).unwrap();
    tampered.modes[1] = PassingMode::StringByReference;
    assert!(!tampered.is_classified());

    let mut tampered = classify(decl()).unwrap();
    tampered.pass_context = true;
    assert!(!tampered.is_classified());

    let mut tampered = classify(decl()).unwrap();
    tampered.return_kind = ReturnKind::Fallible;
    assert!(!tampered.is_classified());

    // A declaration that cannot be exported has no findings.
    let mut refused = classify(decl()).unwrap();
    refused.decl = decl().returning(text());
    assert!(!refused.is_classified());
}
