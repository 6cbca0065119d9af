//! The calling convention: which declared forms a parameter and a return
//! type may have, and how each is passed between a script and native code.

use crate::signature::{flattened, TypeDecl, TypeModel};
use vstd::prelude::*;
use vstd::string::*;

verus! {

/// How a parameter is declared.
#[derive(Clone, Copy, Debug, PartialEq, Eq, Structural)]
pub enum DeclaredForm {
    /// A value that the function owns.
    Owned,
    /// `&T`
    SharedReference,
    /// `&mut T`
    ExclusiveReference,
}

/// How an argument of a script reaches the native function.
#[derive(Clone, Copy, Debug, PartialEq, Eq, Structural)]
pub enum PassingMode {
    /// The value is moved out of its slot.
    Value,
    /// The slot itself is lent for the call, for the function to change.
    ReceiverMutable,
    /// The text is moved out of its slot and lent to the function.
    StringByReference,
}

/// What a function gives back.
#[derive(Clone, Copy, Debug, PartialEq, Eq, Structural)]
pub enum ReturnKind {
    /// Nothing.
    Unit,
    /// A value, which counts as success.
    Value,
    /// Success with a value or an error, by the function's own word.
    Fallible,
}

/// Why a declaration cannot be exported.
#[derive(Clone, Copy, Debug, PartialEq, Eq, Structural)]
pub enum DefinitionError {
    /// The return type is a reference.
    ReturnsReference,
    /// The return type is a pointer.
    ReturnsPointer,
    /// The first parameter is a shared reference to something other than text.
    MustBeMutable,
    /// A parameter behind the first is a reference to something other than
    /// text.
    PassedByValue,
}

/// The form in which a parameter of the type `ty` is declared.
pub open spec fn form_of(ty: TypeModel) -> DeclaredForm {
    match flattened(ty) {
        TypeModel::Reference { mutable, elem } => if mutable {
            DeclaredForm::ExclusiveReference
        } else {
            DeclaredForm::SharedReference
        },
        _ => DeclaredForm::Owned,
    }
}

/// Whether `ty` is a shared reference to text, `&str`: the one shared
/// reference that a script can pass.
pub open spec fn is_text(ty: TypeModel) -> bool {
    match flattened(ty) {
        TypeModel::Reference { mutable, elem } => !mutable && flattened(*elem) == TypeModel::Path(
            "str"@,
        ),
        _ => false,
    }
}

/// Whether `ty` is the type of the call context, by either of its names.
pub open spec fn is_context(ty: TypeModel) -> bool {
    flattened(ty) == TypeModel::Path("NativeCallContext"@) || flattened(ty) == TypeModel::Path(
        "rhai::NativeCallContext"@,
    )
}

/// How a parameter is passed, or why it cannot be. A value that the
/// function owns is moved to it. An exclusive reference makes the first
/// parameter the receiver and is refused behind it. A shared reference is
/// taken for text alone: elsewhere it is refused, in the first place as one
/// that must be mutable, behind it as one that passes by value.
pub open spec fn passing_mode(first: bool, form: DeclaredForm, text: bool) -> Result<
    PassingMode,
    DefinitionError,
> {
    match form {
        DeclaredForm::Owned => Ok(PassingMode::Value),
        DeclaredForm::ExclusiveReference => if first {
            Ok(PassingMode::ReceiverMutable)
        } else {
            Err(DefinitionError::PassedByValue)
        },
        DeclaredForm::SharedReference => if text {
            Ok(PassingMode::StringByReference)
        } else if first {
            Err(DefinitionError::MustBeMutable)
        } else {
            Err(DefinitionError::PassedByValue)
        },
    }
}

/// What a function with the return type `ty` gives back, or why it cannot be
/// exported: a pointer and a reference are refused. A function without a
/// return type, or with `()`, gives nothing back. Any other gives a value,
/// or its own word on success where it is marked `raw`.
pub open spec fn return_kind(ty: Option<TypeModel>, raw: bool) -> Result<
    ReturnKind,
    DefinitionError,
> {
    match ty {
        None => Ok(ReturnKind::Unit),
        Some(t) => match flattened(t) {
            TypeModel::Pointer { mutable, elem } => Err(DefinitionError::ReturnsPointer),
            TypeModel::Reference { mutable, elem } => Err(DefinitionError::ReturnsReference),
            TypeModel::Unit => Ok(ReturnKind::Unit),
            _ => if raw {
                Ok(ReturnKind::Fallible)
            } else {
                Ok(ReturnKind::Value)
            },
        },
    }
}

/// What the author of a declaration is told about an error.
pub open spec fn message_text(e: DefinitionError) -> Seq<char> {
    match e {
        DefinitionError::ReturnsReference => "Rhai functions cannot return references"@,
        DefinitionError::ReturnsPointer => "Rhai functions cannot return pointers"@,
        DefinitionError::MustBeMutable => "references from Rhai in this position must be mutable"@,
        DefinitionError::PassedByValue => "this type in this position passes from Rhai by value"@,
    }
}

impl DefinitionError {
    /// What the author of the declaration is told.
    pub fn message(&self) -> (res: String)
        ensures
            res@ == message_text(*self),
    {
        match self {
            DefinitionError::ReturnsReference => String::from_str(
                "Rhai functions cannot return references",
            ),
            DefinitionError::ReturnsPointer => String::from_str(
                "Rhai functions cannot return pointers",
            ),
            DefinitionError::MustBeMutable => String::from_str(
                "references from Rhai in this position must be mutable",
            ),
            DefinitionError::PassedByValue => String::from_str(
                "this type in this position passes from Rhai by value",
            ),
        }
    }
}

/// The form in which a parameter of the type `ty` is declared.
pub fn declared_form(ty: &TypeDecl) -> (res: DeclaredForm)
    ensures
        res == form_of(ty@),
{
    match ty.flatten() {
        TypeDecl::Reference { mutable, elem } => if *mutable {
            DeclaredForm::ExclusiveReference
        } else {
            DeclaredForm::SharedReference
        },
        _ => DeclaredForm::Owned,
    }
}

/// Whether `ty` is a shared reference to text.
pub fn is_text_reference(ty: &TypeDecl) -> (res: bool)
    ensures
        res == is_text(ty@),
{
    match ty.flatten() {
        TypeDecl::Reference { mutable, elem } => !*mutable && elem.is_path("str"),
        _ => false,
    }
}

/// Whether `ty` is the type of the call context.
pub fn is_call_context(ty: &TypeDecl) -> (res: bool)
    ensures
        res == is_context(ty@),
{
    ty.is_path("NativeCallContext") || ty.is_path("rhai::NativeCallContext")
}

/// How a parameter is passed, or why it cannot be: `first` tells whether it
/// is the first that scripts see, `form` how it is declared, `text` whether
/// it is a shared reference to text.
pub fn parameter_rule(first: bool, form: DeclaredForm, text: bool) -> (res: Result<
    PassingMode,
    DefinitionError,
>)
    ensures
        res == passing_mode(first, form, text),
{
    match form {
        DeclaredForm::Owned => Ok(PassingMode::Value),
        DeclaredForm::ExclusiveReference => if first {
            Ok(PassingMode::ReceiverMutable)
        } else {
            Err(DefinitionError::PassedByValue)
        },
        DeclaredForm::SharedReference => if text {
            Ok(PassingMode::StringByReference)
        } else if first {
            Err(DefinitionError::MustBeMutable)
        } else {
            Err(DefinitionError::PassedByValue)
        },
    }
}

/// What a function with the return type `ty` gives back, or why it cannot be
/// exported.
pub fn return_rule(ty: &Option<TypeDecl>, raw: bool) -> (res: Result<ReturnKind, DefinitionError>)
    ensures
        res == return_kind(crate::signature::model_of(*ty), raw),
{
    match ty {
        None => Ok(ReturnKind::Unit),
        Some(t) => match t.flatten() {
            TypeDecl::Pointer { mutable, elem } => Err(DefinitionError::ReturnsPointer),
            TypeDecl::Reference { mutable, elem } => Err(DefinitionError::ReturnsReference),
            TypeDecl::Unit => Ok(ReturnKind::Unit),
            _ => if raw {
                Ok(ReturnKind::Fallible)
            } else {
                Ok(ReturnKind::Value)
            },
        },
    }
}

} // verus!
