//! Classifying a declaration: what scripts see of a host function, how each
//! of its parameters is passed, and what it gives back.

use crate::rules::{
    declared_form, form_of, is_call_context, is_context, is_text, is_text_reference, parameter_rule,
    passing_mode, return_kind, return_rule, DefinitionError, PassingMode, ReturnKind,
};
use crate::signature::{
    flattened, rendered, texts, ArgModel, DeclModel, FnArg, FnDecl, Param, ParamModel, TypeDecl,
    TypeModel,
};
use crate::text::join3;
use vstd::prelude::*;
use vstd::string::*;

verus! {

/// Whether the declaration takes the call context: it has no `self`, and
/// the type of its first parameter is that of the context.
pub open spec fn has_context(d: DeclModel) -> bool {
    d.receiver is None && d.params.len() > 0 && is_context(d.params[0].ty)
}

/// The parameters in front that scripts do not see: the call context.
pub open spec fn hidden(d: DeclModel) -> int {
    if has_context(d) {
        1
    } else {
        0
    }
}

/// The parameters in front that are not among those with a name and a
/// type: `self`.
pub open spec fn leading(d: DeclModel) -> int {
    if d.receiver is Some {
        1
    } else {
        0
    }
}

/// The number of arguments that a script passes: one for each parameter but
/// the call context.
pub open spec fn arity(d: DeclModel) -> int {
    leading(d) + d.params.len() - hidden(d)
}

/// The parameter that takes the argument `i` of a script.
pub open spec fn arg_at(d: DeclModel, i: int) -> ArgModel {
    if i < leading(d) {
        ArgModel::Receiver { mutable: d.receiver->0 }
    } else {
        ArgModel::Typed(d.params[i - leading(d) + hidden(d)])
    }
}

/// The parameters that take the arguments of a script, in order.
pub open spec fn args_of(d: DeclModel) -> Seq<ArgModel> {
    Seq::new(arity(d) as nat, |i: int| arg_at(d, i))
}

/// How the argument `i` of a script is passed, or why it cannot be. `self`
/// is the receiver, whether it is declared `&self` or `&mut self`. Any other
/// parameter goes by the calling convention.
pub open spec fn arg_mode(d: DeclModel, i: int) -> Result<PassingMode, DefinitionError> {
    match arg_at(d, i) {
        ArgModel::Receiver { mutable } => Ok(PassingMode::ReceiverMutable),
        ArgModel::Typed(p) => passing_mode(i == 0, form_of(p.ty), is_text(p.ty)),
    }
}

/// The reason why the first of the arguments before `upto` that cannot be
/// passed cannot be; nothing where all of them can.
pub open spec fn first_rejected(d: DeclModel, upto: int) -> Option<DefinitionError>
    decreases upto,
{
    if upto <= 0 {
        None
    } else {
        match first_rejected(d, upto - 1) {
            Some(e) => Some(e),
            None => match arg_mode(d, upto - 1) {
                Err(e) => Some(e),
                Ok(_) => None,
            },
        }
    }
}

/// What is known of an exported function.
pub struct ExportedModel {
    pub decl: DeclModel,
    pub pass_context: bool,
    pub mut_receiver: bool,
    pub modes: Seq<PassingMode>,
    pub return_kind: ReturnKind,
}

/// What classifying a declaration comes to. The parameters are looked at in
/// order, then the return type, and the first that is refused gives the
/// error. Where nothing is refused the function is exported with the mode
/// of each parameter. It has a receiver where its first argument is one.
pub open spec fn classification(d: DeclModel) -> Result<ExportedModel, DefinitionError> {
    match first_rejected(d, arity(d)) {
        Some(e) => Err(e),
        None => match return_kind(d.return_type, d.return_raw) {
            Err(e) => Err(e),
            Ok(kind) => Ok(
                ExportedModel {
                    decl: d,
                    pass_context: has_context(d),
                    mut_receiver: arity(d) > 0 && arg_mode(d, 0) == Ok::<
                        PassingMode,
                        DefinitionError,
                    >(PassingMode::ReceiverMutable),
                    modes: Seq::new(arity(d) as nat, |i: int| arg_mode(d, i)->Ok_0),
                    return_kind: kind,
                },
            ),
        },
    }
}

/// A host function that can be exported: its declaration with what
/// classifying it found.
#[derive(Debug, PartialEq)]
pub struct ExportedFn {
    pub decl: FnDecl,
    /// Whether the function takes the call context in front of its other
    /// parameters.
    pub pass_context: bool,
    /// Whether the first argument of a script is the receiver.
    pub mut_receiver: bool,
    /// How each argument of a script is passed.
    pub modes: Vec<PassingMode>,
    pub return_kind: ReturnKind,
}

impl View for ExportedFn {
    type V = ExportedModel;

    open spec fn view(&self) -> ExportedModel {
        ExportedModel {
            decl: self.decl@,
            pass_context: self.pass_context,
            mut_receiver: self.mut_receiver,
            modes: self.modes@,
            return_kind: self.return_kind,
        }
    }
}

/// How a parameter is described to those who look for a function: `self`
/// as it is declared, any other parameter as its name, a colon and its type.
pub open spec fn described(arg: ArgModel) -> Seq<char> {
    match arg {
        ArgModel::Receiver { mutable } => if mutable {
            "&mut self"@
        } else {
            "&self"@
        },
        ArgModel::Typed(p) => p.name + ": "@ + rendered(p.ty),
    }
}

/// How the return type is described: as it is written, `()` where none is.
pub open spec fn return_text(ty: Option<TypeModel>) -> Seq<char> {
    match ty {
        None => "()"@,
        Some(t) => rendered(t),
    }
}

/// The descriptions of the parameters that scripts see, in order, and after
/// them that of the return type.
pub open spec fn param_names_of(d: DeclModel) -> Seq<Seq<char>> {
    Seq::new(arity(d) as nat, |i: int| described(arg_at(d, i))).push(return_text(d.return_type))
}

/// The name of the type of the values that a parameter takes from a script:
/// the type behind a reference, and the engine's own string type for text.
pub open spec fn input_type(arg: ArgModel) -> Seq<char> {
    match arg {
        ArgModel::Receiver { mutable } => "Self"@,
        ArgModel::Typed(p) => if is_text(p.ty) {
            "ImmutableString"@
        } else {
            match flattened(p.ty) {
                TypeModel::Reference { mutable, elem } => rendered(*elem),
                other => rendered(other),
            }
        },
    }
}

/// The names of the types of the arguments that scripts pass, in order.
pub open spec fn input_types_of(d: DeclModel) -> Seq<Seq<char>> {
    Seq::new(arity(d) as nat, |i: int| input_type(arg_at(d, i)))
}

/// Classifies a declaration: finds how each of its parameters is passed and
/// what it gives back, or the first reason why it cannot be exported.
pub fn classify(decl: FnDecl) -> (res: Result<ExportedFn, DefinitionError>)
    ensures
        match res {
            Ok(f) => f.decl == decl && classification(decl@) == Ok::<
                ExportedModel,
                DefinitionError,
            >(f@),
            Err(e) => classification(decl@) == Err::<ExportedModel, DefinitionError>(e),
        },
{
    let ghost d = decl@;
    let pass_context = decl.receiver.is_none() && decl.params.len() > 0 && is_call_context(
        &decl.params[0].ty,
    );
    let skip: usize = if pass_context {
        1
    } else {
        0
    };
    let mut modes: Vec<PassingMode> = Vec::new();
    if decl.receiver.is_some() {
        modes.push(PassingMode::ReceiverMutable);
    }
    assert(first_rejected(d, modes@.len() as int) is None) by {
        reveal_with_fuel(first_rejected, 2);
    }
    let mut i: usize = skip;
    while i < decl.params.len()
        invariant
            d == decl@,
            skip == hidden(d),
            skip <= i <= decl.params@.len() || decl.params@.len() == 0,
            modes@.len() == leading(d) + i - skip,
            modes@.len() <= arity(d),
            first_rejected(d, modes@.len() as int) is None,
            forall|j: int|
                0 <= j < modes@.len() ==> arg_mode(d, j) == Ok::<PassingMode, DefinitionError>(
                    #[trigger] modes@[j],
                ),
        decreases decl.params@.len() - i,
    {
        let param = &decl.params[i];
        let first = modes.len() == 0;
        let ghost at = modes@.len() as int;
        match parameter_rule(first, declared_form(&param.ty), is_text_reference(&param.ty)) {
            Ok(mode) => {
                modes.push(mode);
            },
            Err(e) => {
                proof {
                    lemma_rejected_stays(d, at + 1, arity(d));
                }
                return Err(e);
            },
        }
        i += 1;
    }
    match return_rule(&decl.return_type, decl.return_raw) {
        Err(e) => Err(e),
        Ok(kind) => {
            let mut_receiver = modes.len() > 0 && match modes[0] {
                PassingMode::ReceiverMutable => true,
                _ => false,
            };
            let res = ExportedFn { decl, pass_context, mut_receiver, modes, return_kind: kind };
            assert(res@.modes =~= classification(d)->Ok_0.modes);
            Ok(res)
        },
    }
}

/// Where none of the arguments before `upto` is refused, each of them has
/// its mode.
pub proof fn lemma_all_accepted(d: DeclModel, upto: int, i: int)
    requires
        first_rejected(d, upto) is None,
        0 <= i < upto,
    ensures
        arg_mode(d, i) is Ok,
    decreases upto,
{
    if i < upto - 1 {
        lemma_all_accepted(d, upto - 1, i);
    }
}

/// What is known of a function that classifying its declaration gave.
pub proof fn lemma_classified(f: ExportedFn)
    requires
        f.wf(),
    ensures
        f.pass_context == has_context(f.decl@),
        f.modes@.len() == arity(f.decl@),
        first_rejected(f.decl@, arity(f.decl@)) is None,
        return_kind(f.decl@.return_type, f.decl@.return_raw) == Ok::<ReturnKind, DefinitionError>(
            f.return_kind,
        ),
        f.mut_receiver == (arity(f.decl@) > 0 && f.modes@[0] == PassingMode::ReceiverMutable),
        forall|i: int|
            0 <= i < f.modes@.len() ==> arg_mode(f.decl@, i) == Ok::<PassingMode, DefinitionError>(
                #[trigger] f.modes@[i],
            ),
{
    let d = f.decl@;
    assert forall|i: int| 0 <= i < f.modes@.len() implies arg_mode(d, i) == Ok::<
        PassingMode,
        DefinitionError,
    >(#[trigger] f.modes@[i]) by {
        lemma_all_accepted(d, arity(d), i);
    }
}

/// Once an argument is refused, looking further changes nothing.
pub proof fn lemma_rejected_stays(d: DeclModel, found: int, upto: int)
    requires
        first_rejected(d, found) is Some,
        found <= upto,
    ensures
        first_rejected(d, upto) == first_rejected(d, found),
    decreases upto - found,
{
    if found < upto {
        lemma_rejected_stays(d, found, upto - 1);
    }
}

/// The name by which an error calls the first argument of a script: `self`,
/// or the name of the parameter.
pub open spec fn first_name(d: DeclModel) -> Seq<char> {
    match arg_at(d, 0) {
        ArgModel::Receiver { mutable } => "self"@,
        ArgModel::Typed(p) => p.name,
    }
}

/// The names under which scripts know the function: its other names in
/// order, then the name made for the property that it reads and the one for
/// the property that it writes; its own name where it has none of these.
pub open spec fn exported_names_of(d: DeclModel) -> Seq<Seq<char>> {
    let marked = d.names + (match d.getter {
        Some(property) => seq!["get$"@ + property],
        None => Seq::empty(),
    }) + (match d.setter {
        Some(property) => seq!["set$"@ + property],
        None => Seq::empty(),
    });
    if marked.len() == 0 {
        seq![d.name]
    } else {
        marked
    }
}

impl ExportedFn {
    /// Whether the function is what classifying its declaration gives.
    pub open spec fn wf(&self) -> bool {
        classification(self.decl@) == Ok::<ExportedModel, DefinitionError>(self@)
    }

    /// Whether the function is what classifying its declaration gives: the
    /// declaration is classified once more and the findings are compared.
    pub fn is_classified(&self) -> (res: bool)
        ensures
            res == self.wf(),
    {
        match classify(self.decl.clone()) {
            Err(_) => false,
            Ok(found) => {
                if found.pass_context != self.pass_context || found.mut_receiver
                    != self.mut_receiver || found.return_kind != self.return_kind
                    || found.modes.len() != self.modes.len() {
                    return false;
                }
                let mut i: usize = 0;
                while i < self.modes.len()
                    invariant
                        i <= self.modes@.len(),
                        classification(self.decl@) == Ok::<ExportedModel, DefinitionError>(found@),
                        found.pass_context == self.pass_context,
                        found.mut_receiver == self.mut_receiver,
                        found.return_kind == self.return_kind,
                        found.modes@.len() == self.modes@.len(),
                        forall|j: int| 0 <= j < i ==> found.modes@[j] == self.modes@[j],
                    decreases self.modes@.len() - i,
                {
                    if found.modes[i] != self.modes[i] {
                        return false;
                    }
                    i += 1;
                }
                assert(found.modes@ =~= self.modes@);
                true
            },
        }
    }

    /// The name of the function.
    pub fn name(&self) -> (res: &str)
        ensures
            res@ == self.decl.name@,
    {
        self.decl.name.as_str()
    }

    /// Whether the function is declared public.
    pub fn is_public(&self) -> (res: bool)
        ensures
            res == self.decl.is_public,
    {
        self.decl.is_public
    }

    /// Whether the function takes the call context.
    pub fn pass_context(&self) -> (res: bool)
        ensures
            res == self.pass_context,
    {
        self.pass_context
    }

    /// Whether the first argument of a script is the receiver, which the
    /// function may change.
    pub fn mutable_receiver(&self) -> (res: bool)
        ensures
            res == self.mut_receiver,
    {
        self.mut_receiver
    }

    /// The return type, where one is written.
    pub fn return_type(&self) -> (res: Option<&TypeDecl>)
        ensures
            match res {
                Some(t) => self.decl.return_type == Some(*t),
                None => self.decl.return_type is None,
            },
    {
        match &self.decl.return_type {
            Some(t) => Some(t),
            None => None,
        }
    }

    /// What the function gives back.
    pub fn return_kind(&self) -> (res: ReturnKind)
        ensures
            res == self.return_kind,
    {
        self.return_kind
    }

    /// The number of arguments that a script passes.
    pub fn arg_count(&self) -> (res: usize)
        requires
            self.wf(),
        ensures
            res == arity(self.decl@),
    {
        proof {
            lemma_classified(*self);
        }
        self.modes.len()
    }

    /// How the argument `i` of a script is passed.
    pub fn mode(&self, i: usize) -> (res: PassingMode)
        requires
            self.wf(),
            i < arity(self.decl@),
        ensures
            arg_mode(self.decl@, i as int) == Ok::<PassingMode, DefinitionError>(res),
    {
        proof {
            lemma_classified(*self);
        }
        self.modes[i]
    }

    /// The parameter that takes the argument `i` of a script, where it has a
    /// name and a type; nothing for `self`.
    fn typed_at(&self, i: usize) -> (res: Option<&Param>)
        requires
            self.wf(),
            i < arity(self.decl@),
        ensures
            match res {
                Some(p) => arg_at(self.decl@, i as int) == ArgModel::Typed(p@),
                None => arg_at(self.decl@, i as int) == (ArgModel::Receiver {
                    mutable: self.decl.receiver->0,
                }) && self.decl.receiver is Some,
            },
    {
        proof {
            lemma_classified(*self);
        }
        let lead: usize = if self.decl.receiver.is_some() {
            1
        } else {
            0
        };
        let skip: usize = if self.pass_context {
            1
        } else {
            0
        };
        if i < lead {
            None
        } else {
            assert(self.decl.params.len() == self.decl.params@.len());
            Some(&self.decl.params[i - lead + skip])
        }
    }

    /// The parameters that take the arguments of a script, in order.
    pub fn arg_list(&self) -> (res: Vec<FnArg>)
        requires
            self.wf(),
        ensures
            res@.len() == arity(self.decl@),
            forall|i: int| 0 <= i < res@.len() ==> (#[trigger] res@[i])@ == arg_at(self.decl@, i),
    {
        let mut res: Vec<FnArg> = Vec::new();
        let mut i: usize = 0;
        while i < self.modes.len()
            invariant
                self.wf(),
                i <= self.modes@.len(),
                res@.len() == i,
                forall|j: int| 0 <= j < i ==> (#[trigger] res@[j])@ == arg_at(self.decl@, j),
            decreases self.modes@.len() - i,
        {
            let arg = match self.typed_at(i) {
                Some(p) => FnArg::Typed(p.clone()),
                None => match self.decl.receiver {
                    Some(mutable) => FnArg::Receiver { mutable },
                    None => FnArg::Receiver { mutable: true },
                },
            };
            res.push(arg);
            i += 1;
        }
        res
    }

    /// The name by which an error calls the first argument of a script.
    pub fn receiver_name(&self) -> (res: String)
        requires
            self.wf(),
            arity(self.decl@) > 0,
        ensures
            res@ == first_name(self.decl@),
    {
        match self.typed_at(0) {
            Some(p) => p.name.clone(),
            None => String::from_str("self"),
        }
    }

    /// The descriptions of the parameters that scripts see, in order, and
    /// after them that of the return type.
    pub fn param_names(&self) -> (res: Vec<String>)
        requires
            self.wf(),
        ensures
            res@.len() == arity(self.decl@) + 1,
            texts(res@) == param_names_of(self.decl@),
    {
        let mut res: Vec<String> = Vec::new();
        let mut i: usize = 0;
        while i < self.modes.len()
            invariant
                self.wf(),
                i <= self.modes@.len(),
                res@.len() == i,
                forall|j: int|
                    0 <= j < i ==> (#[trigger] res@[j])@ == described(arg_at(self.decl@, j)),
            decreases self.modes@.len() - i,
        {
            let text = match self.typed_at(i) {
                Some(p) => {
                    let ty = p.ty.render();
                    join3(p.name.as_str(), ": ", ty.as_str())
                },
                None => match self.decl.receiver {
                    Some(true) => String::from_str("&mut self"),
                    _ => String::from_str("&self"),
                },
            };
            res.push(text);
            i += 1;
        }
        let last = match &self.decl.return_type {
            Some(t) => t.render(),
            None => String::from_str("()"),
        };
        res.push(last);
        res
    }

    /// The names of the types of the arguments that scripts pass, in order.
    pub fn input_types(&self) -> (res: Vec<String>)
        requires
            self.wf(),
        ensures
            res@.len() == arity(self.decl@),
            texts(res@) == input_types_of(self.decl@),
    {
        let mut res: Vec<String> = Vec::new();
        let mut i: usize = 0;
        while i < self.modes.len()
            invariant
                self.wf(),
                i <= self.modes@.len(),
                res@.len() == i,
                forall|j: int|
                    0 <= j < i ==> (#[trigger] res@[j])@ == input_type(arg_at(self.decl@, j)),
            decreases self.modes@.len() - i,
        {
            let text = match self.typed_at(i) {
                Some(p) => if is_text_reference(&p.ty) {
                    String::from_str("ImmutableString")
                } else {
                    match p.ty.flatten() {
                        TypeDecl::Reference { mutable, elem } => elem.render(),
                        other => other.render(),
                    }
                },
                None => String::from_str("Self"),
            };
            res.push(text);
            i += 1;
        }
        res
    }

    /// The names under which scripts know the function.
    pub fn exported_names(&self) -> (res: Vec<String>)
        ensures
            texts(res@) == exported_names_of(self.decl@),
    {
        let mut res: Vec<String> = Vec::new();
        let mut i: usize = 0;
        while i < self.decl.names.len()
            invariant
                i <= self.decl.names@.len(),
                res@.len() == i,
                forall|j: int| 0 <= j < i ==> (#[trigger] res@[j])@ == self.decl.names@[j]@,
            decreases self.decl.names@.len() - i,
        {
            res.push(self.decl.names[i].clone());
            i += 1;
        }
        match &self.decl.getter {
            Some(property) => {
                res.push(crate::text::join2("get$", property.as_str()));
            },
            None => {},
        }
        match &self.decl.setter {
            Some(property) => {
                res.push(crate::text::join2("set$", property.as_str()));
            },
            None => {},
        }
        if res.len() == 0 {
            res.push(self.decl.name.clone());
        }
        res
    }
}

impl Clone for ExportedFn {
    /// A copy that says the same, and is what classifying gives where this
    /// one is.
    fn clone(&self) -> (res: Self)
        ensures
            res@ == self@,
            self.wf() ==> res.wf(),
    {
        let mut modes: Vec<PassingMode> = Vec::new();
        let mut i: usize = 0;
        while i < self.modes.len()
            invariant
                i <= self.modes@.len(),
                modes@.len() == i,
                forall|j: int| 0 <= j < i ==> #[trigger] modes@[j] == self.modes@[j],
            decreases self.modes@.len() - i,
        {
            modes.push(self.modes[i]);
            i += 1;
        }
        assert(modes@ =~= self.modes@);
        ExportedFn {
            decl: self.decl.clone(),
            pass_context: self.pass_context,
            mut_receiver: self.mut_receiver,
            modes,
            return_kind: self.return_kind,
        }
    }
}

} // verus!
