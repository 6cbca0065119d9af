//! The adapter through which the engine calls a host function: it checks
//! and takes the arguments of a script, calls the function, and hands back
//! what came of it.

use crate::dynamic::{Dynamic, Payload};
use crate::engine::{Dispatcher, NativeCallContext};
use crate::error::{ErrorValue, EvalAltResult, Position};
use crate::export::{
    arg_mode, arity, first_name, input_types_of, lemma_classified, param_names_of, ExportedFn,
};
use crate::rules::{DefinitionError, PassingMode, ReturnKind};
use crate::signature::texts;
use vstd::prelude::*;
use vstd::string::*;

verus! {

/// An argument as a host function gets it.
#[derive(Debug, PartialEq)]
pub enum Argument {
    /// A value, moved out of the slot that held it.
    Value(Dynamic),
    /// The text of a string, moved out of the slot that held it, for the
    /// function to read.
    Text(String),
}

/// A host function in the form in which an adapter can call it. The adapter
/// hands it the arguments that it took from a script; what the function
/// makes of them is its own business.
pub trait NativeFunction {
    /// Runs the function on `args`. The call context is there where the
    /// function is declared to take it.
    fn call<D: Dispatcher>(
        &self,
        context: Option<&NativeCallContext<D>>,
        args: Vec<Argument>,
    ) -> Result<Dynamic, Box<EvalAltResult>>;

    /// Runs the function on the receiver `this` and on `args`. The receiver
    /// comes back as the function left it, together with the result.
    fn call_method<D: Dispatcher>(
        &self,
        context: Option<&NativeCallContext<D>>,
        this: Dynamic,
        args: Vec<Argument>,
    ) -> (Dynamic, Result<Dynamic, Box<EvalAltResult>>);
}

/// What the engine asks of a function that it can call.
pub trait PluginFunction {
    /// Whether the function may be called with the slots `args`.
    spec fn accepts(&self, args: Seq<Dynamic>) -> bool;

    /// Calls the function with the arguments in the slots `args`.
    fn call<D: Dispatcher>(&self, context: &NativeCallContext<D>, args: &mut Vec<Dynamic>) -> Result<
        Dynamic,
        Box<EvalAltResult>,
    >
        requires
            self.accepts(old(args)@),
    ;

    /// Whether the first argument is a receiver, which the function may
    /// change.
    fn is_method_call(&self) -> bool;

    /// Whether the function takes any number of arguments.
    fn is_variadic(&self) -> bool;

    /// The descriptions of the parameters, and after them that of the
    /// return type.
    fn param_names(&self) -> Vec<String>;

    /// The names of the types of the arguments.
    fn input_types(&self) -> Vec<String>;
}

/// Whether a slot can be taken in the mode `mode`: text is taken from a
/// string alone.
pub open spec fn fits(mode: PassingMode, slot: Dynamic) -> bool {
    mode == PassingMode::StringByReference ==> slot.payload is Str
}

/// Whether `arg` is what taking `slot` in the mode `mode` gives: the text of
/// the string, or the value itself.
pub open spec fn extracted(mode: PassingMode, slot: Dynamic, arg: Argument) -> bool {
    if mode == PassingMode::StringByReference {
        match arg {
            Argument::Text(s) => slot.payload == Payload::Str(s),
            Argument::Value(_) => false,
        }
    } else {
        arg == Argument::Value(slot)
    }
}

/// The slots in the order in which a call takes them: each in its turn,
/// but the receiver, which is the first slot, after all others.
pub open spec fn extraction_order_of(count: int, method: bool) -> Seq<int> {
    Seq::new(
        count as nat,
        |k: int|
            if method {
                if k < count - 1 {
                    k + 1
                } else {
                    0
                }
            } else {
                k
            },
    )
}

/// What an adapter hands back for what the function gave: an error as it
/// is, the unit value for a function that returns nothing, and any other
/// value as it is.
pub open spec fn wrapped(kind: ReturnKind, outcome: Result<Dynamic, Box<EvalAltResult>>) -> Result<
    Dynamic,
    Box<EvalAltResult>,
> {
    match outcome {
        Err(e) => Err(e),
        Ok(v) => if kind == ReturnKind::Unit {
            Ok(Dynamic::spec_unit())
        } else {
            Ok(v)
        },
    }
}

/// Hands back what the function gave, as an adapter for a function of the
/// kind `kind` does.
pub fn wrap_result(kind: ReturnKind, outcome: Result<Dynamic, Box<EvalAltResult>>) -> (res: Result<
    Dynamic,
    Box<EvalAltResult>,
>)
    ensures
        res == wrapped(kind, outcome),
{
    match outcome {
        Err(e) => Err(e),
        Ok(v) => match kind {
            ReturnKind::Unit => Ok(Dynamic::unit()),
            _ => Ok(v),
        },
    }
}

/// Takes the argument out of `slot` in the mode `mode` and leaves the unit
/// value there.
pub fn extract(mode: PassingMode, slot: &mut Dynamic) -> (res: Argument)
    requires
        fits(mode, *old(slot)),
    ensures
        extracted(mode, *old(slot), res),
        *final(slot) == Dynamic::spec_unit(),
{
    let taken = slot.take();
    match mode {
        PassingMode::StringByReference => match taken.take_string() {
            Ok(s) => Argument::Text(s),
            Err(d) => Argument::Value(d),
        },
        _ => Argument::Value(taken),
    }
}

/// The adapter for one host function: what classifying found of it, and the
/// function itself.
pub struct Adapter<F: NativeFunction> {
    exported: ExportedFn,
    body: F,
}

/// Makes the adapter for the host function `body`, which was exported as
/// `exported`.
pub fn synthesize<F: NativeFunction>(exported: ExportedFn, body: F) -> (res: Adapter<F>)
    requires
        exported.wf(),
    ensures
        res.exported() == exported,
        res.body() == body,
{
    Adapter { exported, body }
}

impl<F: NativeFunction> Adapter<F> {
    /// An adapter is made only for a function that classifying its
    /// declaration gave.
    #[verifier::type_invariant]
    spec fn inv(self) -> bool {
        self.exported.wf()
    }

    /// What classifying found of the function.
    pub closed spec fn exported(&self) -> ExportedFn {
        self.exported
    }

    /// The host function.
    pub closed spec fn body(&self) -> F {
        self.body
    }

    /// The number of arguments that a call takes.
    pub open spec fn count(&self) -> int {
        arity(self.exported().decl@)
    }

    /// The number of slots in front that are not handed on as arguments:
    /// one where there is a receiver.
    pub open spec fn offset(&self) -> int {
        if self.exported().mut_receiver {
            1
        } else {
            0
        }
    }

    /// The call context as the function gets it: there where the function
    /// is declared to take it.
    pub open spec fn context_for<'a, D: Dispatcher>(
        &self,
        context: &'a NativeCallContext<'a, D>,
    ) -> Option<&'a NativeCallContext<'a, D>> {
        if self.exported().pass_context {
            Some(context)
        } else {
            None
        }
    }

    /// Whether `given` are the arguments that a call takes out of the slots
    /// `slots` for the function: one for each slot but the receiver, in
    /// order, each taken in the mode of its parameter.
    pub open spec fn handed(&self, slots: Seq<Dynamic>, given: Seq<Argument>) -> bool {
        &&& given.len() == self.count() - self.offset()
        &&& forall|k: int|
            0 <= k < given.len() ==> extracted(
                self.exported().modes@[k + self.offset()],
                slots[k + self.offset()],
                #[trigger] given[k],
            )
    }

    /// Whether a call with the slots `before` may hand back `res` and leave
    /// the slots as `after`. A receiver that is a constant ends the call
    /// with an error that names it, before any slot is touched. Otherwise
    /// the arguments are taken out of their slots, which leaves the unit
    /// value in each, the function runs on them, and the receiver's slot
    /// holds the receiver as the function left it.
    pub open spec fn called<D: Dispatcher>(
        &self,
        context: &NativeCallContext<D>,
        before: Seq<Dynamic>,
        after: Seq<Dynamic>,
        res: Result<Dynamic, Box<EvalAltResult>>,
    ) -> bool {
        if self.exported().mut_receiver && before[0].read_only {
            &&& after == before
            &&& match res {
                Err(e) => e@ == ErrorValue::AssignmentToConstant(
                    first_name(self.exported().decl@),
                    Position::none(),
                ),
                Ok(_) => false,
            }
        } else if self.exported().mut_receiver {
            exists|given: Vec<Argument>, left: Dynamic, outcome: Result<Dynamic, Box<EvalAltResult>>|
                {
                    &&& self.handed(before, given@)
                    &&& call_ensures(
                        F::call_method,
                        (&self.body(), self.context_for(context), before[0], given),
                        (left, outcome),
                    )
                    &&& after == Seq::new(
                        before.len(),
                        |i: int|
                            if i == 0 {
                                left
                            } else {
                                Dynamic::spec_unit()
                            },
                    )
                    &&& res == wrapped(self.exported().return_kind, outcome)
                }
        } else {
            exists|given: Vec<Argument>, outcome: Result<Dynamic, Box<EvalAltResult>>|
                {
                    &&& self.handed(before, given@)
                    &&& call_ensures(F::call, (&self.body(), self.context_for(context), given), outcome)
                    &&& after == Seq::new(before.len(), |i: int| Dynamic::spec_unit())
                    &&& res == wrapped(self.exported().return_kind, outcome)
                }
        }
    }

    /// What classifying found of the function.
    pub fn exported_fn(&self) -> (res: &ExportedFn)
        ensures
            *res == self.exported(),
            res.wf(),
    {
        proof {
            use_type_invariant(self);
        }
        &self.exported
    }

    /// Whether the function may be called with the slots `args`: there is
    /// one for each argument, and each whose text the function reads holds a
    /// string.
    pub fn can_call(&self, args: &Vec<Dynamic>) -> (res: bool)
        ensures
            res == self.accepts(args@),
    {
        proof {
            use_type_invariant(self);
            lemma_classified(self.exported);
        }
        if args.len() != self.exported.modes.len() {
            return false;
        }
        let mut i: usize = 0;
        while i < args.len()
            invariant
                i <= args@.len(),
                args@.len() == self.exported.modes@.len(),
                args@.len() == self.count(),
                forall|j: int|
                    0 <= j < i ==> fits(self.exported().modes@[j], #[trigger] args@[j]),
            decreases args@.len() - i,
        {
            let is_text = match self.exported.modes[i] {
                PassingMode::StringByReference => true,
                _ => false,
            };
            let is_string = match args[i].type_tag() {
                crate::dynamic::TypeTag::Str => true,
                _ => false,
            };
            if is_text && !is_string {
                return false;
            }
            i += 1;
        }
        true
    }

    /// The slots in the order in which a call takes them.
    pub fn extraction_order(&self) -> (res: Vec<usize>)
        ensures
            res@.len() == self.count(),
            forall|k: int|
                0 <= k < res@.len() ==> #[trigger] res@[k] == extraction_order_of(
                    self.count(),
                    self.exported().mut_receiver,
                )[k],
    {
        proof {
            use_type_invariant(self);
            lemma_classified(self.exported);
        }
        let count: usize = self.exported.modes.len();
        let method = self.exported.mut_receiver;
        let mut res: Vec<usize> = Vec::new();
        let mut k: usize = 0;
        while k < count
            invariant
                k <= count,
                count == arity(self.exported.decl@),
                res@.len() == k,
                forall|j: int|
                    0 <= j < k ==> #[trigger] res@[j] == extraction_order_of(
                        count as int,
                        method,
                    )[j],
            decreases count - k,
        {
            let slot: usize = if method {
                if k < count - 1 {
                    k + 1
                } else {
                    0
                }
            } else {
                k
            };
            res.push(slot);
            k += 1;
        }
        res
    }

    /// Runs the function on arguments that are already taken, without a
    /// receiver, and hands back what came of it as a call does.
    pub fn dynamic_result_fn<D: Dispatcher>(
        &self,
        context: &NativeCallContext<D>,
        args: Vec<Argument>,
    ) -> (res: Result<Dynamic, Box<EvalAltResult>>)
        ensures
            exists|outcome: Result<Dynamic, Box<EvalAltResult>>|
                call_ensures(F::call, (&self.body(), self.context_for(context), args), outcome)
                    && res == wrapped(self.exported().return_kind, outcome),
    {
        let given = if self.exported.pass_context {
            Some(context)
        } else {
            None
        };
        let outcome = self.body.call(given, args);
        wrap_result(self.exported.return_kind, outcome)
    }

    /// Runs the function on the receiver `this` and on arguments that are
    /// already taken, and hands back what came of it as a call does.
    pub fn dynamic_result_method<D: Dispatcher>(
        &self,
        context: &NativeCallContext<D>,
        this: &mut Dynamic,
        args: Vec<Argument>,
    ) -> (res: Result<Dynamic, Box<EvalAltResult>>)
        ensures
            exists|outcome: Result<Dynamic, Box<EvalAltResult>>|
                call_ensures(
                    F::call_method,
                    (&self.body(), self.context_for(context), *old(this), args),
                    (*final(this), outcome),
                ) && res == wrapped(self.exported().return_kind, outcome),
    {
        let receiver = this.take();
        let given = if self.exported.pass_context {
            Some(context)
        } else {
            None
        };
        let (left, outcome) = self.body.call_method(given, receiver, args);
        *this = left;
        wrap_result(self.exported.return_kind, outcome)
    }
}

impl<F: NativeFunction> PluginFunction for Adapter<F> {
    /// A call needs one slot for each argument, and a string in each slot
    /// whose text the function reads.
    open spec fn accepts(&self, args: Seq<Dynamic>) -> bool {
        &&& args.len() == self.count()
        &&& forall|i: int|
            0 <= i < args.len() ==> fits(self.exported().modes@[i], #[trigger] args[i])
    }

    /// Calls the function with the arguments in the slots `args`.
    fn call<D: Dispatcher>(&self, context: &NativeCallContext<D>, args: &mut Vec<Dynamic>) -> (res:
        Result<Dynamic, Box<EvalAltResult>>)
        ensures
            self.called(context, old(args)@, final(args)@, res),
    {
        proof {
            use_type_invariant(self);
            lemma_classified(self.exported);
        }
        let count: usize = self.exported.modes.len();
        let method = self.exported.mut_receiver;
        if method && args[0].is_read_only() {
            let name = self.exported.receiver_name();
            return Err(Box::new(EvalAltResult::ErrorAssignmentToConstant(name, Position::none())));
        }
        let order = self.extraction_order();
        let offset: usize = if method {
            1
        } else {
            0
        };
        let mut given: Vec<Argument> = Vec::new();
        let mut k: usize = 0;
        while k < count - offset
            invariant
                self.exported.wf(),
                count == self.count(),
                offset == self.offset(),
                offset <= count,
                method == self.exported().mut_receiver,
                self.exported().modes@.len() == count,
                self.accepts(old(args)@),
                k <= count - offset,
                order@.len() == count,
                forall|j: int|
                    0 <= j < order@.len() ==> #[trigger] order@[j] == extraction_order_of(
                        count as int,
                        method,
                    )[j],
                args@.len() == count,
                given@.len() == k,
                forall|i: int|
                    0 <= i < count && (i < offset || i >= offset + k) ==> #[trigger] args@[i]
                        == old(args)@[i],
                forall|i: int| offset <= i < offset + k ==> #[trigger] args@[i] == Dynamic::spec_unit(),
                forall|j: int|
                    0 <= j < k ==> extracted(
                        self.exported().modes@[j + offset],
                        old(args)@[j + offset],
                        #[trigger] given@[j],
                    ),
            decreases count - offset - k,
        {
            let slot: usize = order[k];
            let arg = extract(self.exported.modes[slot], &mut args[slot]);
            given.push(arg);
            k += 1;
        }
        if method {
            let ghost handed = given;
            let ghost before_call = args@;
            let res = self.dynamic_result_method(context, &mut args[0], given);
            proof {
                let left = args@[0];
                let outcome = choose|outcome: Result<Dynamic, Box<EvalAltResult>>|
                    call_ensures(
                        F::call_method,
                        (&self.body(), self.context_for(context), before_call[0], handed),
                        (left, outcome),
                    ) && res == wrapped(self.exported().return_kind, outcome);
                assert(args@ =~= Seq::new(
                    old(args)@.len(),
                    |i: int|
                        if i == 0 {
                            left
                        } else {
                            Dynamic::spec_unit()
                        },
                ));
            }
            res
        } else {
            assert(args@ =~= Seq::new(old(args)@.len(), |i: int| Dynamic::spec_unit()));
            self.dynamic_result_fn(context, given)
        }
    }

    /// Whether the first argument is a receiver, which the function may
    /// change.
    fn is_method_call(&self) -> (res: bool)
        ensures
            res == self.exported().mut_receiver,
    {
        self.exported.mut_receiver
    }

    /// An adapter takes as many arguments as its function has parameters
    /// for, never any number.
    fn is_variadic(&self) -> (res: bool)
        ensures
            !res,
    {
        false
    }

    /// The descriptions of the parameters that scripts see, in order, and
    /// after them that of the return type.
    fn param_names(&self) -> (res: Vec<String>)
        ensures
            res@.len() == self.count() + 1,
            texts(res@) == param_names_of(self.exported().decl@),
    {
        proof {
            use_type_invariant(self);
        }
        self.exported.param_names()
    }

    /// The names of the types of the arguments that scripts pass, in order.
    fn input_types(&self) -> (res: Vec<String>)
        ensures
            res@.len() == self.count(),
            texts(res@) == input_types_of(self.exported().decl@),
    {
        proof {
            use_type_invariant(self);
        }
        self.exported.input_types()
    }
}

impl<F: NativeFunction + Clone> Clone for Adapter<F> {
    /// An adapter of its own for the same function: it says the same of the
    /// function, and its body is a copy of this one's.
    fn clone(&self) -> (res: Self)
        ensures
            res.exported()@ == self.exported()@,
            cloned(self.body(), res.body()),
    {
        proof {
            use_type_invariant(self);
        }
        Adapter { exported: self.exported.clone(), body: self.body.clone() }
    }
}

} // verus!
