//! What holds of every declaration and of every adapter.

use crate::dynamic::Dynamic;
use crate::engine::{Dispatcher, NativeCallContext};
use crate::error::EvalAltResult;
use crate::export::{
    arg_at, arg_mode, arity, classification, first_rejected, input_types_of, lemma_all_accepted,
    lemma_rejected_stays, param_names_of, ExportedFn, ExportedModel,
};
use crate::plugin::{extraction_order_of, Adapter, Argument, NativeFunction};
use crate::rules::{
    form_of, is_text, return_kind, DeclaredForm, DefinitionError, PassingMode, ReturnKind,
};
use crate::signature::{flattened, ArgModel, DeclModel, FnDecl, TypeModel};
use vstd::prelude::*;

verus! {

/// Classifying is a matter of what a declaration says and of nothing else:
/// two declarations that say the same are both exported or both refused, and
/// where they are exported, scripts are told the same of both.
pub proof fn law_classification_repeats(first: FnDecl, second: FnDecl, exported: ExportedModel)
    requires
        first@ == second@,
        classification(first@) == Ok::<ExportedModel, DefinitionError>(exported),
    ensures
        classification(second@) == Ok::<ExportedModel, DefinitionError>(exported),
        param_names_of(exported.decl) == param_names_of(second@),
        input_types_of(exported.decl) == input_types_of(second@),
        exported.mut_receiver == (arity(second@) > 0 && arg_mode(second@, 0) == Ok::<
            PassingMode,
            DefinitionError,
        >(PassingMode::ReceiverMutable)),
{
}

/// A function with `self` is a method, whether it is declared `&self` or
/// `&mut self`: where it is exported, its first argument is the receiver,
/// lent for the function to change.
pub proof fn law_self_is_receiver(d: DeclModel, exported: ExportedModel)
    requires
        d.receiver is Some,
        classification(d) == Ok::<ExportedModel, DefinitionError>(exported),
    ensures
        exported.mut_receiver,
        exported.modes[0] == PassingMode::ReceiverMutable,
{
}

/// An exported function has at most one receiver, and it is its first
/// argument: behind the first no argument is lent for the function to
/// change.
pub proof fn law_receiver_is_first(d: DeclModel, exported: ExportedModel, i: int)
    requires
        classification(d) == Ok::<ExportedModel, DefinitionError>(exported),
        0 < i < arity(d),
    ensures
        exported.modes[i] != PassingMode::ReceiverMutable,
{
    lemma_all_accepted(d, arity(d), i);
}

/// An exclusive reference behind the first argument is refused, as one that
/// passes by value, where nothing before it is refused.
pub proof fn law_exclusive_reference_behind_first(d: DeclModel, i: int)
    requires
        0 < i < arity(d),
        first_rejected(d, i) is None,
        arg_at(d, i) is Typed,
        form_of(arg_at(d, i)->Typed_0.ty) == DeclaredForm::ExclusiveReference,
    ensures
        classification(d) == Err::<ExportedModel, DefinitionError>(DefinitionError::PassedByValue),
{
    lemma_rejected_stays(d, i + 1, arity(d));
}

/// A shared reference to anything but text is refused: as the first
/// argument as one that must be mutable, behind it as one that passes by
/// value, where nothing before it is refused.
pub proof fn law_shared_reference(d: DeclModel, i: int)
    requires
        0 <= i < arity(d),
        first_rejected(d, i) is None,
        arg_at(d, i) is Typed,
        form_of(arg_at(d, i)->Typed_0.ty) == DeclaredForm::SharedReference,
        !is_text(arg_at(d, i)->Typed_0.ty),
    ensures
        classification(d) == Err::<ExportedModel, DefinitionError>(
            if i == 0 {
                DefinitionError::MustBeMutable
            } else {
                DefinitionError::PassedByValue
            },
        ),
{
    lemma_rejected_stays(d, i + 1, arity(d));
}

/// A function that returns a reference or a pointer is refused, where none
/// of its parameters is.
pub proof fn law_return_type(d: DeclModel)
    requires
        first_rejected(d, arity(d)) is None,
        d.return_type is Some,
    ensures
        flattened(d.return_type->0) is Reference ==> classification(d) == Err::<
            ExportedModel,
            DefinitionError,
        >(DefinitionError::ReturnsReference),
        flattened(d.return_type->0) is Pointer ==> classification(d) == Err::<
            ExportedModel,
            DefinitionError,
        >(DefinitionError::ReturnsPointer),
{
}

/// Scripts are told of one parameter for each argument, and of the return
/// type after them; of one type for each argument.
pub proof fn law_metadata_lengths(d: DeclModel)
    ensures
        param_names_of(d).len() == arity(d) + 1,
        input_types_of(d).len() == arity(d),
{
}

/// A call takes the receiver after all other arguments, and these in the
/// order of their slots.
pub proof fn law_receiver_taken_last(count: int)
    requires
        count > 0,
    ensures
        extraction_order_of(count, true).len() == count,
        extraction_order_of(count, true)[count - 1] == 0,
        forall|k: int| 0 <= k < count - 1 ==> #[trigger] extraction_order_of(count, true)[k] == k + 1,
{
}

/// Whether the two results say the same: the same value, or errors that say
/// the same.
pub open spec fn same_result(
    first: Result<Dynamic, Box<EvalAltResult>>,
    second: Result<Dynamic, Box<EvalAltResult>>,
) -> bool {
    match (first, second) {
        (Ok(a), Ok(b)) => a == b,
        (Err(a), Err(b)) => a@ == b@,
        _ => false,
    }
}

/// Whether the host function `body` answers the same whenever it is handed
/// the same: the same context, the same receiver and the same arguments.
pub open spec fn repeatable<F: NativeFunction, D: Dispatcher>(body: F) -> bool {
    &&& forall|
        context: Option<&NativeCallContext<D>>,
        first: Vec<Argument>,
        second: Vec<Argument>,
        a: Result<Dynamic, Box<EvalAltResult>>,
        b: Result<Dynamic, Box<EvalAltResult>>,
    |
        first@ == second@ && #[trigger] call_ensures(F::call, (&body, context, first), a)
            && #[trigger] call_ensures(F::call, (&body, context, second), b) ==> a == b
    &&& forall|
        context: Option<&NativeCallContext<D>>,
        this: Dynamic,
        first: Vec<Argument>,
        second: Vec<Argument>,
        a: (Dynamic, Result<Dynamic, Box<EvalAltResult>>),
        b: (Dynamic, Result<Dynamic, Box<EvalAltResult>>),
    |
        first@ == second@ && #[trigger] call_ensures(
            F::call_method,
            (&body, context, this, first),
            a,
        ) && #[trigger] call_ensures(F::call_method, (&body, context, this, second), b) ==> a == b
}

/// Calling an adapter twice with the same slots gives the same twice, where
/// the host function answers the same whenever it is handed the same: the
/// results say the same and the slots are left the same.
pub proof fn law_call_repeats<F: NativeFunction, D: Dispatcher>(
    adapter: Adapter<F>,
    context: &NativeCallContext<D>,
    slots: Seq<Dynamic>,
    after1: Seq<Dynamic>,
    res1: Result<Dynamic, Box<EvalAltResult>>,
    after2: Seq<Dynamic>,
    res2: Result<Dynamic, Box<EvalAltResult>>,
)
    requires
        repeatable::<F, D>(adapter.body()),
        adapter.called(context, slots, after1, res1),
        adapter.called(context, slots, after2, res2),
    ensures
        after1 == after2,
        same_result(res1, res2),
{
    if adapter.exported().mut_receiver && slots[0].read_only {
    } else if adapter.exported().mut_receiver {
        let (g1, l1, o1) = choose|
            given: Vec<Argument>,
            left: Dynamic,
            outcome: Result<Dynamic, Box<EvalAltResult>>,
        |
            {
                &&& adapter.handed(slots, given@)
                &&& call_ensures(
                    F::call_method,
                    (&adapter.body(), adapter.context_for(context), slots[0], given),
                    (left, outcome),
                )
                &&& after1 == Seq::new(
                    slots.len(),
                    |i: int|
                        if i == 0 {
                            left
                        } else {
                            Dynamic::spec_unit()
                        },
                )
                &&& res1 == crate::plugin::wrapped(adapter.exported().return_kind, outcome)
            };
        let (g2, l2, o2) = choose|
            given: Vec<Argument>,
            left: Dynamic,
            outcome: Result<Dynamic, Box<EvalAltResult>>,
        |
            {
                &&& adapter.handed(slots, given@)
                &&& call_ensures(
                    F::call_method,
                    (&adapter.body(), adapter.context_for(context), slots[0], given),
                    (left, outcome),
                )
                &&& after2 == Seq::new(
                    slots.len(),
                    |i: int|
                        if i == 0 {
                            left
                        } else {
                            Dynamic::spec_unit()
                        },
                )
                &&& res2 == crate::plugin::wrapped(adapter.exported().return_kind, outcome)
            };
        lemma_same_arguments(adapter, slots, g1@, g2@);
    } else {
        let (g1, o1) = choose|given: Vec<Argument>, outcome: Result<Dynamic, Box<EvalAltResult>>|
            {
                &&& adapter.handed(slots, given@)
                &&& call_ensures(
                    F::call,
                    (&adapter.body(), adapter.context_for(context), given),
                    outcome,
                )
                &&& after1 == Seq::new(slots.len(), |i: int| Dynamic::spec_unit())
                &&& res1 == crate::plugin::wrapped(adapter.exported().return_kind, outcome)
            };
        let (g2, o2) = choose|given: Vec<Argument>, outcome: Result<Dynamic, Box<EvalAltResult>>|
            {
                &&& adapter.handed(slots, given@)
                &&& call_ensures(
                    F::call,
                    (&adapter.body(), adapter.context_for(context), given),
                    outcome,
                )
                &&& after2 == Seq::new(slots.len(), |i: int| Dynamic::spec_unit())
                &&& res2 == crate::plugin::wrapped(adapter.exported().return_kind, outcome)
            };
        lemma_same_arguments(adapter, slots, g1@, g2@);
    }
}

/// The slots decide the arguments that a call takes out of them.
pub proof fn lemma_same_arguments<F: NativeFunction>(
    adapter: Adapter<F>,
    slots: Seq<Dynamic>,
    first: Seq<Argument>,
    second: Seq<Argument>,
)
    requires
        adapter.handed(slots, first),
        adapter.handed(slots, second),
    ensures
        first == second,
{
    assert forall|k: int| 0 <= k < first.len() implies first[k] == second[k] by {
        let a = first[k];
        let b = second[k];
    }
}

} // verus!
