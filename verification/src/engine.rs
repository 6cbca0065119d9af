//! The side of the script engine that native functions call back into.

use crate::dynamic::{clone_items, values, Dynamic, FnPtr, Value, INT};
use crate::error::{EvalAltResult, Position};
use crate::text::{has_prefix, starts_with};
use vstd::prelude::*;
use vstd::string::*;

verus! {

/// Finds the function that a name and a list of arguments stand for, and runs
/// it. The engine holds one; what a call returns is the dispatcher's business.
pub trait Dispatcher {
    /// Calls the function registered under `fn_name`, which takes `args` by
    /// value.
    fn call_fn(&self, fn_name: &str, args: Vec<Dynamic>) -> Result<Dynamic, Box<EvalAltResult>>;

    /// Calls the function registered under `fn_name` as a method of `this`,
    /// with `args` after it. The receiver comes back as the call left it,
    /// together with the outcome.
    fn call_method(&self, fn_name: &str, this: Dynamic, args: Vec<Dynamic>) -> (
        Dynamic,
        Result<Dynamic, Box<EvalAltResult>>,
    );
}

/// The script engine as native functions see it: its limits and its way of
/// calling functions by name.
pub struct Engine<D: Dispatcher> {
    /// The most items that an array may hold; zero stands for no limit.
    pub max_array_size: usize,
    pub dispatcher: D,
}

/// What a native function learns about the call that reached it.
pub struct NativeCallContext<'a, D: Dispatcher> {
    pub engine: &'a Engine<D>,
    /// The name of the script that the call comes from, where it has one.
    pub source: Option<String>,
}

impl<D: Dispatcher> Engine<D> {
    /// An engine with the given limit for arrays, which calls functions
    /// through `dispatcher`.
    pub fn new(max_array_size: usize, dispatcher: D) -> (res: Self)
        ensures
            res.max_array_size == max_array_size,
            res.dispatcher == dispatcher,
    {
        Engine { max_array_size, dispatcher }
    }

    /// The most items that an array may hold; zero stands for no limit.
    pub fn max_array_size(&self) -> (res: usize)
        ensures
            res == self.max_array_size,
    {
        self.max_array_size
    }

    /// Whether `outcome` is what the dispatcher may answer when the function
    /// `name` is called with arguments of the values `args`.
    pub open spec fn fn_yields(
        &self,
        name: Seq<char>,
        args: Seq<Value>,
        outcome: Result<Dynamic, Box<EvalAltResult>>,
    ) -> bool {
        exists|n: &str, a: Vec<Dynamic>|
            n@ == name && values(a@) == args && call_ensures(
                D::call_fn,
                (&self.dispatcher, n, a),
                outcome,
            )
    }

    /// Whether the dispatcher may leave the receiver `before` as `after` and
    /// answer `outcome` when the method `name` is called on it with arguments
    /// of the values `args`.
    pub open spec fn method_yields(
        &self,
        name: Seq<char>,
        before: Dynamic,
        args: Seq<Value>,
        after: Dynamic,
        outcome: Result<Dynamic, Box<EvalAltResult>>,
    ) -> bool {
        exists|n: &str, a: Vec<Dynamic>|
            n@ == name && values(a@) == args && call_ensures(
                D::call_method,
                (&self.dispatcher, n, before, a),
                (after, outcome),
            )
    }

    /// Calls the function `fn_name` with `args`.
    pub fn call_fn(&self, fn_name: &str, args: Vec<Dynamic>) -> (res: Result<
        Dynamic,
        Box<EvalAltResult>,
    >)
        ensures
            self.fn_yields(fn_name@, values(args@), res),
    {
        self.dispatcher.call_fn(fn_name, args)
    }

    /// Calls the method `fn_name` on `this` with `args`.
    pub fn call_method(&self, fn_name: &str, this: &mut Dynamic, args: Vec<Dynamic>) -> (res:
        Result<Dynamic, Box<EvalAltResult>>)
        ensures
            self.method_yields(fn_name@, *old(this), values(args@), *final(this), res),
    {
        let receiver = this.take();
        let (after, res) = self.dispatcher.call_method(fn_name, receiver, args);
        *this = after;
        res
    }
}

impl<'a, D: Dispatcher> NativeCallContext<'a, D> {
    /// The context of a call that `engine` makes from the script `source`.
    pub fn new(engine: &'a Engine<D>, source: Option<String>) -> (res: Self)
        ensures
            res.engine == engine,
            res.source == source,
    {
        NativeCallContext { engine, source }
    }

    /// The engine that made the call.
    pub fn engine(&self) -> (res: &Engine<D>)
        ensures
            res == self.engine,
    {
        self.engine
    }

    /// The name of the script that the call comes from; empty where it has none.
    pub open spec fn source_text(&self) -> Seq<char> {
        match self.source {
            Some(s) => s@,
            None => Seq::empty(),
        }
    }

    /// The name of the script that the call comes from, where it has one.
    pub fn source(&self) -> (res: Option<&str>)
        ensures
            match res {
                Some(s) => self.source is Some && s@ == self.source->0@,
                None => self.source is None,
            },
    {
        match &self.source {
            Some(s) => Some(s.as_str()),
            None => None,
        }
    }

    /// Calls the method `fn_name` on `this` with `args`, whatever `fn_name`
    /// is registered as.
    pub fn call_fn_dynamic_raw(&self, fn_name: &str, this: &mut Dynamic, args: Vec<Dynamic>) -> (res:
        Result<Dynamic, Box<EvalAltResult>>)
        ensures
            self.engine.method_yields(fn_name@, *old(this), values(args@), *final(this), res),
    {
        self.engine.call_method(fn_name, this, args)
    }
}

impl FnPtr {
    /// A pointer to the function `name`, with the values `curry` bound to it.
    pub fn new(name: String, curry: Vec<Dynamic>) -> (res: FnPtr)
        ensures
            res.name == name,
            res.curry == curry,
    {
        FnPtr { name, curry }
    }

    /// The name of the function pointed to.
    pub fn fn_name(&self) -> (res: &str)
        ensures
            res@ == self.name@,
    {
        self.name.as_str()
    }

    /// Calls the function pointed to: the values bound to the pointer come
    /// first, `args` after them.
    pub fn call_dynamic<D: Dispatcher>(&self, ctx: &NativeCallContext<D>, args: Vec<Dynamic>) -> (res:
        Result<Dynamic, Box<EvalAltResult>>)
        ensures
            ctx.engine.fn_yields(self.name@, values(self.curry@) + values(args@), res),
    {
        let mut all = clone_items(&self.curry);
        let mut args = args;
        let ghost given = args@;
        all.append(&mut args);
        assert(values(all@) =~= values(self.curry@) + values(given));
        ctx.engine.call_fn(self.fn_name(), all)
    }
}

} // verus!
