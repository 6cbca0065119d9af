//! The dynamically typed value that scripts and native functions exchange.

use instant::Instant;
use vstd::prelude::*;

verus! {

/// `instant::Instant`, a point in time on a clock. It is carried as it is:
/// nothing of what it holds is read here.
#[verifier::external_type_specification]
#[verifier::external_body]
pub struct ExInstant(Instant);

/// The integer type of scripts.
pub type INT = i64;

/// What a dynamic value stands for, apart from how it is stored and from
/// whether it may be written to.
pub enum Value {
    Unit,
    Bool(bool),
    Int(int),
    Char(char),
    Str(Seq<char>),
    Array(Seq<Value>),
    FnPtr(Seq<char>, Seq<Value>),
    TimeStamp(Instant),
}

/// The type of a dynamic value.
#[derive(Clone, Copy, Debug, PartialEq, Eq, Structural)]
pub enum TypeTag {
    Unit,
    Bool,
    Int,
    Char,
    Str,
    Array,
    FnPtr,
    TimeStamp,
}

/// What a dynamic value holds.
#[derive(Debug, PartialEq)]
pub enum Payload {
    Unit,
    Bool(bool),
    Int(INT),
    Char(char),
    Str(String),
    Array(Vec<Dynamic>),
    FnPtr(FnPtr),
    TimeStamp(Instant),
}

/// A value of any script type, with the mark that makes it a constant.
#[derive(Debug, PartialEq)]
pub struct Dynamic {
    pub payload: Payload,
    pub read_only: bool,
}

/// A pointer to a script function: its name and the arguments already bound.
#[derive(Debug, PartialEq)]
pub struct FnPtr {
    pub name: String,
    pub curry: Vec<Dynamic>,
}

/// The values of a sequence of dynamic values, in order.
pub open spec fn values(items: Seq<Dynamic>) -> Seq<Value> {
    Seq::new(items.len(), |i: int| items[i]@)
}

/// The type of a value.
pub open spec fn tag_of(value: Value) -> TypeTag {
    match value {
        Value::Unit => TypeTag::Unit,
        Value::Bool(_) => TypeTag::Bool,
        Value::Int(_) => TypeTag::Int,
        Value::Char(_) => TypeTag::Char,
        Value::Str(_) => TypeTag::Str,
        Value::Array(_) => TypeTag::Array,
        Value::FnPtr(_, _) => TypeTag::FnPtr,
        Value::TimeStamp(_) => TypeTag::TimeStamp,
    }
}

/// Whether a value counts as true where a condition is asked for: only the
/// boolean `true` does.
pub open spec fn truthy(value: Value) -> bool {
    value == Value::Bool(true)
}

/// The value that a dynamic value stands for.
pub open spec fn value_of(d: Dynamic) -> Value
    decreases d,
{
    match d.payload {
        Payload::Unit => Value::Unit,
        Payload::Bool(b) => Value::Bool(b),
        Payload::Int(i) => Value::Int(i as int),
        Payload::Char(c) => Value::Char(c),
        Payload::Str(s) => Value::Str(s@),
        Payload::Array(v) => Value::Array(
            Seq::new(
                v@.len(),
                |i: int|
                    if 0 <= i < v@.len() {
                        value_of(v@[i])
                    } else {
                        Value::Unit
                    },
            ),
        ),
        Payload::FnPtr(f) => Value::FnPtr(
            f.name@,
            Seq::new(
                f.curry@.len(),
                |i: int|
                    if 0 <= i < f.curry@.len() {
                        value_of(f.curry@[i])
                    } else {
                        Value::Unit
                    },
            ),
        ),
        Payload::TimeStamp(t) => Value::TimeStamp(t),
    }
}

impl View for Dynamic {
    type V = Value;

    open spec fn view(&self) -> Value {
        value_of(*self)
    }
}

/// The value of an array is the array of its items' values.
pub proof fn lemma_array_value(d: Dynamic)
    requires
        d.payload is Array,
    ensures
        d@ == Value::Array(values(d.payload->Array_0@)),
{
    let v = d.payload->Array_0;
    assert(d@->Array_0 =~= values(v@));
}

/// The value of a function pointer is its name with the values bound to it.
pub proof fn lemma_fn_ptr_value(d: Dynamic)
    requires
        d.payload is FnPtr,
    ensures
        d@ == Value::FnPtr(d.payload->FnPtr_0.name@, values(d.payload->FnPtr_0.curry@)),
{
    let f = d.payload->FnPtr_0;
    assert(d@->FnPtr_1 =~= values(f.curry@));
}

/// Copies every item of `items`.
pub fn clone_items(items: &Vec<Dynamic>) -> (res: Vec<Dynamic>)
    ensures
        values(res@) == values(items@),
        forall|i: int| 0 <= i < res@.len() ==> !(#[trigger] res@[i]).read_only,
    decreases items,
{
    let mut res: Vec<Dynamic> = Vec::with_capacity(items.len());
    let mut i: usize = 0;
    while i < items.len()
        invariant
            i <= items.len(),
            res@.len() == i,
            forall|j: int| 0 <= j < i ==> (#[trigger] res@[j])@ == items@[j]@,
            forall|j: int| 0 <= j < i ==> !(#[trigger] res@[j]).read_only,
        decreases items.len() - i,
    {
        let item = items[i].clone();
        res.push(item);
        i += 1;
    }
    res
}

impl Clone for Dynamic {
    /// A copy with the same value, which may be written to whether or not
    /// the value copied is a constant.
    fn clone(&self) -> (res: Self)
        ensures
            res@ == self@,
            !res.read_only,
        decreases self,
    {
        let payload = match &self.payload {
            Payload::Unit => Payload::Unit,
            Payload::Bool(b) => Payload::Bool(*b),
            Payload::Int(i) => Payload::Int(*i),
            Payload::Char(c) => Payload::Char(*c),
            Payload::Str(s) => Payload::Str(s.clone()),
            Payload::Array(v) => Payload::Array(clone_items(v)),
            Payload::FnPtr(f) => Payload::FnPtr(
                FnPtr { name: f.name.clone(), curry: clone_items(&f.curry) },
            ),
            Payload::TimeStamp(t) => Payload::TimeStamp(*t),
        };
        let res = Dynamic { payload, read_only: false };
        proof {
            if self.payload is Array {
                lemma_array_value(*self);
                lemma_array_value(res);
            }
            if self.payload is FnPtr {
                lemma_fn_ptr_value(*self);
                lemma_fn_ptr_value(res);
            }
        }
        res
    }
}

impl Clone for FnPtr {
    fn clone(&self) -> (res: Self)
        ensures
            res.name@ == self.name@,
            values(res.curry@) == values(self.curry@),
    {
        FnPtr { name: self.name.clone(), curry: clone_items(&self.curry) }
    }
}

impl Dynamic {
    /// The unit value, which stands for "nothing".
    pub open spec fn spec_unit() -> Dynamic {
        Dynamic { payload: Payload::Unit, read_only: false }
    }

    /// The unit value, which stands for "nothing".
    #[verifier::when_used_as_spec(spec_unit)]
    pub fn unit() -> (res: Dynamic)
        ensures
            res == Dynamic::spec_unit(),
    {
        Dynamic { payload: Payload::Unit, read_only: false }
    }

    /// The boolean `value`, free to be written to.
    pub fn from_bool(value: bool) -> (res: Dynamic)
        ensures
            res == (Dynamic { payload: Payload::Bool(value), read_only: false }),
    {
        Dynamic { payload: Payload::Bool(value), read_only: false }
    }

    /// The integer `value`, free to be written to.
    pub fn from_int(value: INT) -> (res: Dynamic)
        ensures
            res == (Dynamic { payload: Payload::Int(value), read_only: false }),
    {
        Dynamic { payload: Payload::Int(value), read_only: false }
    }

    /// The character `value`, free to be written to.
    pub fn from_char(value: char) -> (res: Dynamic)
        ensures
            res == (Dynamic { payload: Payload::Char(value), read_only: false }),
    {
        Dynamic { payload: Payload::Char(value), read_only: false }
    }

    /// The string `value`, free to be written to.
    pub fn from_string(value: String) -> (res: Dynamic)
        ensures
            res == (Dynamic { payload: Payload::Str(value), read_only: false }),
    {
        Dynamic { payload: Payload::Str(value), read_only: false }
    }

    /// The array of the items `value`, free to be written to.
    pub fn from_array(value: Vec<Dynamic>) -> (res: Dynamic)
        ensures
            res == (Dynamic { payload: Payload::Array(value), read_only: false }),
            res@ == Value::Array(values(value@)),
    {
        let res = Dynamic { payload: Payload::Array(value), read_only: false };
        proof {
            lemma_array_value(res);
        }
        res
    }

    /// The function pointer `value`, free to be written to.
    pub fn from_fn_ptr(value: FnPtr) -> (res: Dynamic)
        ensures
            res == (Dynamic { payload: Payload::FnPtr(value), read_only: false }),
            res@ == Value::FnPtr(value.name@, values(value.curry@)),
    {
        let res = Dynamic { payload: Payload::FnPtr(value), read_only: false };
        proof {
            lemma_fn_ptr_value(res);
        }
        res
    }

    /// The time stamp `value`, free to be written to.
    pub fn from_timestamp(value: Instant) -> (res: Dynamic)
        ensures
            res == (Dynamic { payload: Payload::TimeStamp(value), read_only: false }),
    {
        Dynamic { payload: Payload::TimeStamp(value), read_only: false }
    }

    /// The same value, marked as a constant.
    pub fn into_read_only(self) -> (res: Dynamic)
        ensures
            res == (Dynamic { payload: self.payload, read_only: true }),
    {
        Dynamic { payload: self.payload, read_only: true }
    }

    /// Whether the value is a constant, which native code must not change.
    pub fn is_read_only(&self) -> (res: bool)
        ensures
            res == self.read_only,
    {
        self.read_only
    }

    /// The type of the value held.
    pub fn type_tag(&self) -> (res: TypeTag)
        ensures
            res == tag_of(self@),
    {
        match &self.payload {
            Payload::Unit => TypeTag::Unit,
            Payload::Bool(_) => TypeTag::Bool,
            Payload::Int(_) => TypeTag::Int,
            Payload::Char(_) => TypeTag::Char,
            Payload::Str(_) => TypeTag::Str,
            Payload::Array(_) => TypeTag::Array,
            Payload::FnPtr(_) => TypeTag::FnPtr,
            Payload::TimeStamp(_) => TypeTag::TimeStamp,
        }
    }

    /// The boolean held, if the value is a boolean.
    pub fn as_bool(&self) -> (res: Option<bool>)
        ensures
            res == (match self@ {
                Value::Bool(b) => Some(b),
                _ => None,
            }),
    {
        match &self.payload {
            Payload::Bool(b) => Some(*b),
            _ => None,
        }
    }

    /// The integer held, if the value is an integer.
    pub fn as_int(&self) -> (res: Option<INT>)
        ensures
            match self@ {
                Value::Int(i) => res == Some(i as INT) && i == res.unwrap() as int,
                _ => res.is_none(),
            },
    {
        match &self.payload {
            Payload::Int(i) => Some(*i),
            _ => None,
        }
    }

    /// Whether the value counts as true: whether it is the boolean `true`.
    pub fn is_true(&self) -> (res: bool)
        ensures
            res == truthy(self@),
    {
        match &self.payload {
            Payload::Bool(b) => *b,
            _ => false,
        }
    }

    /// Hands over the text held, if the value is a string; any other value
    /// comes back as it was.
    pub fn take_string(self) -> (res: Result<String, Dynamic>)
        ensures
            match res {
                Ok(s) => self.payload == Payload::Str(s),
                Err(d) => !(self.payload is Str) && d == self,
            },
    {
        if let Payload::Str(s) = self.payload {
            Ok(s)
        } else {
            Err(self)
        }
    }

    /// Moves the value out and leaves the unit value in its place.
    pub fn take(&mut self) -> (res: Dynamic)
        ensures
            res == *old(self),
            *final(self) == Dynamic::spec_unit(),
    {
        let mut taken = Dynamic::unit();
        core::mem::swap(self, &mut taken);
        taken
    }
}

} // verus!
