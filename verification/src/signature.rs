//! The declaration of a host function, as its author wrote it.

use crate::text::same_text;
use vstd::prelude::*;
use vstd::string::*;

verus! {

/// A type as it is written in a declaration.
#[derive(Debug, PartialEq)]
pub enum TypeDecl {
    /// `()`
    Unit,
    /// A type called by its name or path, such as `usize` or `rhai::Dynamic`.
    Path(String),
    /// `&T` or `&mut T`
    Reference { mutable: bool, elem: Box<TypeDecl> },
    /// `*const T` or `*mut T`
    Pointer { mutable: bool, elem: Box<TypeDecl> },
    /// A type in parentheses.
    Paren(Box<TypeDecl>),
    /// Any other type, as it was written.
    Other(String),
}

/// What a written type says.
pub enum TypeModel {
    Unit,
    Path(Seq<char>),
    Reference { mutable: bool, elem: Box<TypeModel> },
    Pointer { mutable: bool, elem: Box<TypeModel> },
    Paren(Box<TypeModel>),
    Other(Seq<char>),
}

/// What a written type says.
pub open spec fn type_model(ty: TypeDecl) -> TypeModel
    decreases ty,
{
    match ty {
        TypeDecl::Unit => TypeModel::Unit,
        TypeDecl::Path(p) => TypeModel::Path(p@),
        TypeDecl::Reference { mutable, elem } => TypeModel::Reference {
            mutable,
            elem: Box::new(type_model(*elem)),
        },
        TypeDecl::Pointer { mutable, elem } => TypeModel::Pointer {
            mutable,
            elem: Box::new(type_model(*elem)),
        },
        TypeDecl::Paren(inner) => TypeModel::Paren(Box::new(type_model(*inner))),
        TypeDecl::Other(text) => TypeModel::Other(text@),
    }
}

impl View for TypeDecl {
    type V = TypeModel;

    open spec fn view(&self) -> TypeModel {
        type_model(*self)
    }
}

/// One parameter with a name and a type.
#[derive(Debug, PartialEq)]
pub struct Param {
    pub name: String,
    pub ty: TypeDecl,
}

/// What a parameter says.
pub struct ParamModel {
    pub name: Seq<char>,
    pub ty: TypeModel,
}

impl View for Param {
    type V = ParamModel;

    open spec fn view(&self) -> ParamModel {
        ParamModel { name: self.name@, ty: self.ty@ }
    }
}

/// The parameters that a sequence of parameters says.
pub open spec fn param_models(params: Seq<Param>) -> Seq<ParamModel> {
    Seq::new(params.len(), |i: int| params[i]@)
}

/// The texts of a sequence of strings.
pub open spec fn texts(items: Seq<String>) -> Seq<Seq<char>> {
    Seq::new(items.len(), |i: int| items[i]@)
}

/// A parameter of a function as scripts see it: the receiver, or a
/// parameter with a name and a type.
#[derive(Debug, PartialEq)]
pub enum FnArg {
    /// `&self`, or `&mut self` where `mutable` is set.
    Receiver { mutable: bool },
    Typed(Param),
}

/// What a parameter of a function says.
pub enum ArgModel {
    Receiver { mutable: bool },
    Typed(ParamModel),
}

impl View for FnArg {
    type V = ArgModel;

    open spec fn view(&self) -> ArgModel {
        match *self {
            FnArg::Receiver { mutable } => ArgModel::Receiver { mutable },
            FnArg::Typed(p) => ArgModel::Typed(p@),
        }
    }
}

/// The declaration of a host function: what its author wrote, with the marks
/// that say how to export it.
#[derive(Debug, PartialEq)]
pub struct FnDecl {
    pub name: String,
    pub is_public: bool,
    /// The `self` parameter, where there is one, and whether it is `&mut self`.
    /// It stands in front of all other parameters.
    pub receiver: Option<bool>,
    /// The parameters with a name and a type, in order.
    pub params: Vec<Param>,
    /// The return type, where one is written.
    pub return_type: Option<TypeDecl>,
    /// Other names under which scripts know the function.
    pub names: Vec<String>,
    /// The property that the function reads, where it is a getter.
    pub getter: Option<String>,
    /// The property that the function writes, where it is a setter.
    pub setter: Option<String>,
    /// Whether the author vouches that the function changes nothing.
    pub pure: bool,
    /// Whether the function itself returns success or an error, so that its
    /// result is handed on as it is.
    pub return_raw: bool,
}

/// What a declaration says.
pub struct DeclModel {
    pub name: Seq<char>,
    pub is_public: bool,
    pub receiver: Option<bool>,
    pub params: Seq<ParamModel>,
    pub return_type: Option<TypeModel>,
    pub names: Seq<Seq<char>>,
    pub getter: Option<Seq<char>>,
    pub setter: Option<Seq<char>>,
    pub pure: bool,
    pub return_raw: bool,
}

/// The text of a string that may be missing.
pub open spec fn text_of(s: Option<String>) -> Option<Seq<char>> {
    match s {
        Some(t) => Some(t@),
        None => None,
    }
}

/// What a type that may be missing says.
pub open spec fn model_of(ty: Option<TypeDecl>) -> Option<TypeModel> {
    match ty {
        Some(t) => Some(t@),
        None => None,
    }
}

impl View for FnDecl {
    type V = DeclModel;

    open spec fn view(&self) -> DeclModel {
        DeclModel {
            name: self.name@,
            is_public: self.is_public,
            receiver: self.receiver,
            params: param_models(self.params@),
            return_type: model_of(self.return_type),
            names: texts(self.names@),
            getter: text_of(self.getter),
            setter: text_of(self.setter),
            pure: self.pure,
            return_raw: self.return_raw,
        }
    }
}

/// The type inside all parentheses round it.
pub open spec fn flattened(ty: TypeModel) -> TypeModel
    decreases ty,
{
    match ty {
        TypeModel::Paren(inner) => flattened(*inner),
        _ => ty,
    }
}

/// How a type is written out: parentheses round a type are left out, a
/// reference is `&` or `&mut ` before its type, a pointer `*const ` or
/// `*mut ` before its type.
pub open spec fn rendered(ty: TypeModel) -> Seq<char>
    decreases ty,
{
    match ty {
        TypeModel::Unit => "()"@,
        TypeModel::Path(p) => p,
        TypeModel::Reference { mutable, elem } => (if mutable {
            "&mut "@
        } else {
            "&"@
        }) + rendered(*elem),
        TypeModel::Pointer { mutable, elem } => (if mutable {
            "*mut "@
        } else {
            "*const "@
        }) + rendered(*elem),
        TypeModel::Paren(inner) => rendered(*inner),
        TypeModel::Other(text) => text,
    }
}

impl TypeDecl {
    /// The type called `name`.
    pub fn path(name: &str) -> (res: TypeDecl)
        ensures
            res@ == TypeModel::Path(name@),
    {
        TypeDecl::Path(String::from_str(name))
    }

    /// `&T` for the type `T` given.
    pub fn reference(elem: TypeDecl) -> (res: TypeDecl)
        ensures
            res == (TypeDecl::Reference { mutable: false, elem: Box::new(elem) }),
    {
        TypeDecl::Reference { mutable: false, elem: Box::new(elem) }
    }

    /// `&mut T` for the type `T` given.
    pub fn reference_mut(elem: TypeDecl) -> (res: TypeDecl)
        ensures
            res == (TypeDecl::Reference { mutable: true, elem: Box::new(elem) }),
    {
        TypeDecl::Reference { mutable: true, elem: Box::new(elem) }
    }

    /// `*mut T` for the type `T` given where `mutable` is set, `*const T`
    /// where it is not.
    pub fn pointer(mutable: bool, elem: TypeDecl) -> (res: TypeDecl)
        ensures
            res == (TypeDecl::Pointer { mutable, elem: Box::new(elem) }),
    {
        TypeDecl::Pointer { mutable, elem: Box::new(elem) }
    }

    /// The type given, in parentheses.
    pub fn paren(inner: TypeDecl) -> (res: TypeDecl)
        ensures
            res == TypeDecl::Paren(Box::new(inner)),
    {
        TypeDecl::Paren(Box::new(inner))
    }

    /// The type inside all parentheses round it.
    pub fn flatten(&self) -> (res: &TypeDecl)
        ensures
            res@ == flattened(self@),
            !(res is Paren),
        decreases self,
    {
        match self {
            TypeDecl::Paren(inner) => inner.flatten(),
            _ => self,
        }
    }

    /// Whether the type, apart from parentheses, is the one called `name`.
    pub fn is_path(&self, name: &str) -> (res: bool)
        ensures
            res == (flattened(self@) == TypeModel::Path(name@)),
    {
        match self.flatten() {
            TypeDecl::Path(p) => same_text(p.as_str(), name),
            _ => false,
        }
    }

    /// Writes the type out.
    pub fn render(&self) -> (res: String)
        ensures
            res@ == rendered(self@),
        decreases self,
    {
        match self {
            TypeDecl::Unit => String::from_str("()"),
            TypeDecl::Path(p) => p.clone(),
            TypeDecl::Reference { mutable, elem } => {
                let mut res = if *mutable {
                    String::from_str("&mut ")
                } else {
                    String::from_str("&")
                };
                let inner = elem.render();
                res.append(inner.as_str());
                res
            },
            TypeDecl::Pointer { mutable, elem } => {
                let mut res = if *mutable {
                    String::from_str("*mut ")
                } else {
                    String::from_str("*const ")
                };
                let inner = elem.render();
                res.append(inner.as_str());
                res
            },
            TypeDecl::Paren(inner) => inner.render(),
            TypeDecl::Other(text) => text.clone(),
        }
    }
}

impl Clone for TypeDecl {
    fn clone(&self) -> (res: Self)
        ensures
            res == *self,
        decreases self,
    {
        match self {
            TypeDecl::Unit => TypeDecl::Unit,
            TypeDecl::Path(p) => TypeDecl::Path(p.clone()),
            TypeDecl::Reference { mutable, elem } => TypeDecl::Reference {
                mutable: *mutable,
                elem: Box::new((&**elem).clone()),
            },
            TypeDecl::Pointer { mutable, elem } => TypeDecl::Pointer {
                mutable: *mutable,
                elem: Box::new((&**elem).clone()),
            },
            TypeDecl::Paren(inner) => TypeDecl::Paren(Box::new((&**inner).clone())),
            TypeDecl::Other(text) => TypeDecl::Other(text.clone()),
        }
    }
}

impl Clone for Param {
    fn clone(&self) -> (res: Self)
        ensures
            res == *self,
    {
        Param { name: self.name.clone(), ty: self.ty.clone() }
    }
}

impl Param {
    /// The parameter `name: ty`.
    pub fn new(name: &str, ty: TypeDecl) -> (res: Param)
        ensures
            res.name@ == name@,
            res.ty == ty,
    {
        Param { name: String::from_str(name), ty }
    }
}

/// A copy of a string that may be missing.
fn clone_text(s: &Option<String>) -> (res: Option<String>)
    ensures
        res == *s,
{
    match s {
        Some(t) => Some(t.clone()),
        None => None,
    }
}

/// Copies of the strings of `items`.
fn clone_texts(items: &Vec<String>) -> (res: Vec<String>)
    ensures
        res@ == items@,
{
    let mut res: Vec<String> = Vec::new();
    let mut i: usize = 0;
    while i < items.len()
        invariant
            i <= items@.len(),
            res@.len() == i,
            forall|j: int| 0 <= j < i ==> #[trigger] res@[j] == items@[j],
        decreases items@.len() - i,
    {
        res.push(items[i].clone());
        i += 1;
    }
    res
}

/// Copies of the parameters of `items`.
fn clone_params(items: &Vec<Param>) -> (res: Vec<Param>)
    ensures
        res@ == items@,
{
    let mut res: Vec<Param> = Vec::new();
    let mut i: usize = 0;
    while i < items.len()
        invariant
            i <= items@.len(),
            res@.len() == i,
            forall|j: int| 0 <= j < i ==> #[trigger] res@[j] == items@[j],
        decreases items@.len() - i,
    {
        res.push(items[i].clone());
        i += 1;
    }
    res
}

impl Clone for FnDecl {
    fn clone(&self) -> (res: Self)
        ensures
            res@ == self@,
    {
        FnDecl {
            name: self.name.clone(),
            is_public: self.is_public,
            receiver: self.receiver,
            params: clone_params(&self.params),
            return_type: match &self.return_type {
                Some(t) => Some(t.clone()),
                None => None,
            },
            names: clone_texts(&self.names),
            getter: clone_text(&self.getter),
            setter: clone_text(&self.setter),
            pure: self.pure,
            return_raw: self.return_raw,
        }
    }
}

impl FnDecl {
    /// The declaration of a function called `name` that takes nothing and
    /// returns nothing: public where `is_public` is set.
    pub fn new(name: &str, is_public: bool) -> (res: FnDecl)
        ensures
            res@ == (DeclModel {
                name: name@,
                is_public,
                receiver: None,
                params: Seq::empty(),
                return_type: None,
                names: Seq::empty(),
                getter: None,
                setter: None,
                pure: false,
                return_raw: false,
            }),
    {
        let res = FnDecl {
            name: String::from_str(name),
            is_public,
            receiver: None,
            params: Vec::new(),
            return_type: None,
            names: Vec::new(),
            getter: None,
            setter: None,
            pure: false,
            return_raw: false,
        };
        assert(res@.params =~= Seq::empty());
        assert(res@.names =~= Seq::empty());
        res
    }

    /// The declaration with `&self` in front of its parameters, or with
    /// `&mut self` where `mutable` is set.
    pub fn with_receiver(self, mutable: bool) -> (res: FnDecl)
        ensures
            res@ == (DeclModel { receiver: Some(mutable), ..self@ }),
    {
        let mut res = self;
        res.receiver = Some(mutable);
        res
    }

    /// The declaration with the parameter `name: ty` behind the others.
    pub fn with_param(self, name: &str, ty: TypeDecl) -> (res: FnDecl)
        ensures
            res@ == (DeclModel {
                params: self@.params.push(ParamModel { name: name@, ty: ty@ }),
                ..self@
            }),
    {
        let mut res = self;
        res.params.push(Param::new(name, ty));
        assert(res@.params =~= self@.params.push(ParamModel { name: name@, ty: ty@ }));
        res
    }

    /// The declaration with the return type `ty`.
    pub fn returning(self, ty: TypeDecl) -> (res: FnDecl)
        ensures
            res@ == (DeclModel { return_type: Some(ty@), ..self@ }),
    {
        let mut res = self;
        res.return_type = Some(ty);
        res
    }

    /// The declaration with one more name under which scripts know the
    /// function.
    pub fn renamed(self, name: &str) -> (res: FnDecl)
        ensures
            res@ == (DeclModel { names: self@.names.push(name@), ..self@ }),
    {
        let mut res = self;
        res.names.push(String::from_str(name));
        assert(res@.names =~= self@.names.push(name@));
        res
    }

    /// The declaration marked as the getter of `property`.
    pub fn getter(self, property: &str) -> (res: FnDecl)
        ensures
            res@ == (DeclModel { getter: Some(property@), ..self@ }),
    {
        let mut res = self;
        res.getter = Some(String::from_str(property));
        res
    }

    /// The declaration marked as the setter of `property`.
    pub fn setter(self, property: &str) -> (res: FnDecl)
        ensures
            res@ == (DeclModel { setter: Some(property@), ..self@ }),
    {
        let mut res = self;
        res.setter = Some(String::from_str(property));
        res
    }

    /// The declaration marked as one that changes nothing.
    pub fn pure(self) -> (res: FnDecl)
        ensures
            res@ == (DeclModel { pure: true, ..self@ }),
    {
        let mut res = self;
        res.pure = true;
        res
    }

    /// The declaration marked as one that returns success or an error by
    /// its own word.
    pub fn return_raw(self) -> (res: FnDecl)
        ensures
            res@ == (DeclModel { return_raw: true, ..self@ }),
    {
        let mut res = self;
        res.return_raw = true;
        res
    }
}

} // verus!
