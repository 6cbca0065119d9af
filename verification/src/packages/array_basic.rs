//! Basic array utilities.

use crate::dynamic::{clone_items, tag_of, truthy, values, Dynamic, FnPtr, TypeTag, Value, INT};
use crate::engine::{Dispatcher, NativeCallContext};
use crate::error::{EvalAltResult, Position};
use crate::text::{has_prefix, starts_with};
use vstd::prelude::*;
use vstd::string::*;

verus! {

/// An array of a script: dynamic values in a row.
pub type Array = Vec<Dynamic>;

/// The items of `items` whose mark in `keep` is set, in their order. Where the
/// two differ in length nothing is selected.
pub open spec fn select<A>(items: Seq<A>, keep: Seq<bool>) -> Seq<A>
    decreases items.len(),
{
    if items.len() == 0 || keep.len() != items.len() {
        Seq::empty()
    } else if keep.last() {
        select(items.drop_last(), keep.drop_last()).push(items.last())
    } else {
        select(items.drop_last(), keep.drop_last())
    }
}

/// Whether each of `items` may be written to: none is a constant.
pub open spec fn writable(items: Seq<Dynamic>) -> bool {
    forall|i: int| 0 <= i < items.len() ==> !(#[trigger] items[i]).read_only
}

/// The marks of `keep`, each turned round.
pub open spec fn negate(keep: Seq<bool>) -> Seq<bool> {
    Seq::new(keep.len(), |i: int| !keep[i])
}

/// Whether a call that ended in `outcome` found no function of the name
/// `fn_name`: the error says so of a signature that begins with the name.
pub open spec fn not_found(outcome: Result<Dynamic, Box<EvalAltResult>>, fn_name: Seq<char>) -> bool {
    match outcome {
        Err(e) => match *e {
            EvalAltResult::ErrorFunctionNotFound(sig, _) => has_prefix(sig@, fn_name),
            _ => false,
        },
        Ok(_) => false,
    }
}

/// Whether `out` is `outcome` as the array function `caller` reports it: a
/// value as it is, an error wrapped in one that names `caller` and `source`.
pub open spec fn reported(
    outcome: Result<Dynamic, Box<EvalAltResult>>,
    caller: Seq<char>,
    source: Seq<char>,
    out: Result<Dynamic, Box<EvalAltResult>>,
) -> bool {
    match outcome {
        Ok(v) => out == Ok::<Dynamic, Box<EvalAltResult>>(v),
        Err(e) => match out {
            Err(w) => match *w {
                EvalAltResult::ErrorInFunctionCall(name, src, inner, p) => name@ == caller && src@
                    == source && inner == e && p == Position::none(),
                _ => false,
            },
            Ok(_) => false,
        },
    }
}

/// Whether `out` may come of calling `callback` for the array function
/// `caller` on the item at `index`. The callback is called with `args`; where
/// no function of its name takes them, it is called once more with `args` and
/// the index. An error comes back wrapped in one that names `caller`.
pub open spec fn callback_yields<D: Dispatcher>(
    ctx: &NativeCallContext<D>,
    callback: &FnPtr,
    caller: Seq<char>,
    args: Seq<Value>,
    index: usize,
    out: Result<Dynamic, Box<EvalAltResult>>,
) -> bool {
    exists|first: Result<Dynamic, Box<EvalAltResult>>|
        ctx.engine.fn_yields(callback.name@, values(callback.curry@) + args, first) && if not_found(
            first,
            callback.name@,
        ) {
            exists|second: Result<Dynamic, Box<EvalAltResult>>|
                ctx.engine.fn_yields(
                    callback.name@,
                    values(callback.curry@) + args.push(Value::Int((index as INT) as int)),
                    second,
                ) && reported(second, caller, ctx.source_text(), out)
        } else {
            reported(first, caller, ctx.source_text(), out)
        }
}

/// Reports the outcome of a callback for the array function `caller`.
fn report<D: Dispatcher>(
    ctx: &NativeCallContext<D>,
    caller: &str,
    outcome: Result<Dynamic, Box<EvalAltResult>>,
) -> (out: Result<Dynamic, Box<EvalAltResult>>)
    ensures
        reported(outcome, caller@, ctx.source_text(), out),
{
    match outcome {
        Ok(v) => Ok(v),
        Err(e) => {
            let source = match ctx.source() {
                Some(s) => String::from_str(s),
                None => String::new(),
            };
            Err(
                Box::new(
                    EvalAltResult::ErrorInFunctionCall(
                        String::from_str(caller),
                        source,
                        e,
                        Position::none(),
                    ),
                ),
            )
        },
    }
}

/// Whether a call that ended in `outcome` found no function of the name
/// `fn_name`.
fn is_not_found(outcome: &Result<Dynamic, Box<EvalAltResult>>, fn_name: &str) -> (res: bool)
    ensures
        res == not_found(*outcome, fn_name@),
{
    match outcome {
        Err(e) => match e.missing_function() {
            Some(sig) => starts_with(sig.as_str(), fn_name),
            None => false,
        },
        Ok(_) => false,
    }
}

/// Calls `callback` for the array function `caller` on the item at `index`.
fn call_callback<D: Dispatcher>(
    ctx: &NativeCallContext<D>,
    callback: &FnPtr,
    caller: &str,
    args: &Vec<Dynamic>,
    index: usize,
) -> (out: Result<Dynamic, Box<EvalAltResult>>)
    ensures
        callback_yields(ctx, callback, caller@, values(args@), index, out),
{
    let first = callback.call_dynamic(ctx, clone_items(args));
    if is_not_found(&first, callback.fn_name()) {
        let mut again = clone_items(args);
        again.push(Dynamic::from_int(#[verifier::truncate] (index as INT)));
        assert(values(again@) =~= values(args@).push(Value::Int((index as INT) as int)));
        let second = callback.call_dynamic(ctx, again);
        report(ctx, caller, second)
    } else {
        report(ctx, caller, first)
    }
}

/// Whether the callback may answer `verdict` when the array function `caller`
/// asks it about `item` at `index`: it returns a value, and the value is the
/// boolean `true` just where `verdict` is set.
pub open spec fn verdict_yields<D: Dispatcher>(
    ctx: &NativeCallContext<D>,
    callback: &FnPtr,
    caller: Seq<char>,
    item: Value,
    index: usize,
    verdict: bool,
) -> bool {
    exists|v: Dynamic|
        callback_yields(ctx, callback, caller, seq![item], index, Ok(v)) && truthy(v@) == verdict
}

/// Asks `callback` about the item at `index` for the array function `caller`.
fn ask<D: Dispatcher>(
    ctx: &NativeCallContext<D>,
    callback: &FnPtr,
    caller: &str,
    array: &Array,
    index: usize,
) -> (out: Result<bool, Box<EvalAltResult>>)
    requires
        index < array@.len(),
    ensures
        match out {
            Ok(verdict) => verdict_yields(
                ctx,
                callback,
                caller@,
                array@[index as int]@,
                index,
                verdict,
            ),
            Err(e) => callback_yields(
                ctx,
                callback,
                caller@,
                seq![array@[index as int]@],
                index,
                Err(e),
            ),
        },
{
    let mut args: Vec<Dynamic> = Vec::new();
    args.push(array[index].clone());
    assert(values(args@) =~= seq![array@[index as int]@]);
    match call_callback(ctx, callback, caller, &args, index) {
        Ok(v) => Ok(v.is_true()),
        Err(e) => Err(e),
    }
}

/// A new array of what `mapper` makes of each item, in order. The array
/// itself stays as it is. The first call that fails ends the work with its
/// error.
pub fn map<D: Dispatcher>(ctx: NativeCallContext<D>, array: &mut Array, mapper: FnPtr) -> (res:
    Result<Array, Box<EvalAltResult>>)
    ensures
        final(array)@ == old(array)@,
        match res {
            Ok(out) => out@.len() == old(array)@.len() && forall|i: int|
                0 <= i < out@.len() ==> callback_yields(
                    &ctx,
                    &mapper,
                    "map"@,
                    seq![old(array)@[i]@],
                    i as usize,
                    Ok(#[trigger] out@[i]),
                ),
            Err(e) => exists|i: int, done: Seq<Dynamic>|
                0 <= i < old(array)@.len() && done.len() == i && callback_yields(
                    &ctx,
                    &mapper,
                    "map"@,
                    seq![old(array)@[i]@],
                    i as usize,
                    Err(e),
                ) && forall|j: int|
                    0 <= j < i ==> callback_yields(
                        &ctx,
                        &mapper,
                        "map"@,
                        seq![old(array)@[j]@],
                        j as usize,
                        Ok(#[trigger] done[j]),
                    ),
        },
{
    let mut out: Array = Vec::with_capacity(array.len());
    let mut i: usize = 0;
    while i < array.len()
        invariant
            array@ == old(array)@,
            i <= array@.len(),
            out@.len() == i,
            forall|j: int|
                0 <= j < i ==> callback_yields(
                    &ctx,
                    &mapper,
                    "map"@,
                    seq![array@[j]@],
                    j as usize,
                    Ok(#[trigger] out@[j]),
                ),
        decreases array@.len() - i,
    {
        let mut args: Vec<Dynamic> = Vec::new();
        args.push(array[i].clone());
        assert(values(args@) =~= seq![array@[i as int]@]);
        match call_callback(&ctx, &mapper, "map", &args, i) {
            Ok(v) => {
                out.push(v);
            },
            Err(e) => {
                return Err(e);
            },
        }
        i += 1;
    }
    Ok(out)
}

/// Selecting from a sequence with one more item goes by that item's mark.
pub proof fn lemma_select_push<A>(items: Seq<A>, keep: Seq<bool>, item: A, mark: bool)
    requires
        items.len() == keep.len(),
    ensures
        select(items.push(item), keep.push(mark)) == if mark {
            select(items, keep).push(item)
        } else {
            select(items, keep)
        },
{
    assert(items.push(item).drop_last() =~= items);
    assert(keep.push(mark).drop_last() =~= keep);
}

/// A new array of copies of the items that `predicate` answers `true` for, in
/// order. The copies may be written to. The array itself stays as it is. The
/// first call that fails ends the work with its error.
pub fn filter<D: Dispatcher>(ctx: NativeCallContext<D>, array: &mut Array, predicate: FnPtr) -> (res:
    Result<Array, Box<EvalAltResult>>)
    ensures
        final(array)@ == old(array)@,
        match res {
            Ok(out) => writable(out@) && exists|keep: Seq<bool>|
                keep.len() == old(array)@.len() && values(out@) == select(
                    values(old(array)@),
                    keep,
                ) && forall|i: int|
                    0 <= i < keep.len() ==> verdict_yields(
                        &ctx,
                        &predicate,
                        "filter"@,
                        old(array)@[i]@,
                        i as usize,
                        #[trigger] keep[i],
                    ),
            Err(e) => exists|i: int, keep: Seq<bool>|
                0 <= i < old(array)@.len() && keep.len() == i && callback_yields(
                    &ctx,
                    &predicate,
                    "filter"@,
                    seq![old(array)@[i]@],
                    i as usize,
                    Err(e),
                ) && forall|j: int|
                    0 <= j < i ==> verdict_yields(
                        &ctx,
                        &predicate,
                        "filter"@,
                        old(array)@[j]@,
                        j as usize,
                        #[trigger] keep[j],
                    ),
        },
{
    let mut out: Array = Vec::new();
    let ghost mut keep: Seq<bool> = Seq::empty();
    let mut i: usize = 0;
    while i < array.len()
        invariant
            array@ == old(array)@,
            i <= array@.len(),
            keep.len() == i,
            writable(out@),
            values(out@) == select(values(array@.take(i as int)), keep),
            forall|j: int|
                0 <= j < i ==> verdict_yields(
                    &ctx,
                    &predicate,
                    "filter"@,
                    array@[j]@,
                    j as usize,
                    #[trigger] keep[j],
                ),
        decreases array@.len() - i,
    {
        match ask(&ctx, &predicate, "filter", array, i) {
            Ok(verdict) => {
                if verdict {
                    out.push(array[i].clone());
                }
                proof {
                    let items = values(array@.take(i as int));
                    lemma_select_push(items, keep, array@[i as int]@, verdict);
                    assert(values(array@.take(i + 1)) =~= items.push(array@[i as int]@));
                    keep = keep.push(verdict);
                }
            },
            Err(e) => {
                return Err(e);
            },
        }
        i += 1;
    }
    assert(array@.take(i as int) =~= array@);
    Ok(out)
}

/// The index of the first item that `filter` answers `true` for, or -1 where
/// it does so for none. The array stays as it is. The first call that fails
/// ends the work with its error.
pub fn index_of_filter<D: Dispatcher>(
    ctx: NativeCallContext<D>,
    array: &mut Array,
    filter: FnPtr,
) -> (res: Result<INT, Box<EvalAltResult>>)
    ensures
        final(array)@ == old(array)@,
        match res {
            Ok(found) => (exists|i: int|
                0 <= i < old(array)@.len() && found == (i as usize) as INT && verdict_yields(
                    &ctx,
                    &filter,
                    "index_of"@,
                    old(array)@[i]@,
                    i as usize,
                    true,
                ) && forall|j: int|
                    0 <= j < i ==> #[trigger] verdict_yields(
                        &ctx,
                        &filter,
                        "index_of"@,
                        old(array)@[j]@,
                        j as usize,
                        false,
                    )) || (found == -1 && forall|j: int|
                0 <= j < old(array)@.len() ==> #[trigger] verdict_yields(
                    &ctx,
                    &filter,
                    "index_of"@,
                    old(array)@[j]@,
                    j as usize,
                    false,
                )),
            Err(e) => exists|i: int|
                0 <= i < old(array)@.len() && callback_yields(
                    &ctx,
                    &filter,
                    "index_of"@,
                    seq![old(array)@[i]@],
                    i as usize,
                    Err(e),
                ) && forall|j: int|
                    0 <= j < i ==> #[trigger] verdict_yields(
                        &ctx,
                        &filter,
                        "index_of"@,
                        old(array)@[j]@,
                        j as usize,
                        false,
                    ),
        },
{
    let mut i: usize = 0;
    while i < array.len()
        invariant
            array@ == old(array)@,
            i <= array@.len(),
            forall|j: int|
                0 <= j < i ==> #[trigger] verdict_yields(
                    &ctx,
                    &filter,
                    "index_of"@,
                    array@[j]@,
                    j as usize,
                    false,
                ),
        decreases array@.len() - i,
    {
        match ask(&ctx, &filter, "index_of", array, i) {
            Ok(verdict) => {
                if verdict {
                    return Ok(#[verifier::truncate] (i as INT));
                }
            },
            Err(e) => {
                return Err(e);
            },
        }
        i += 1;
    }
    Ok(-1)
}

/// Whether `filter` answers `true` for some item. Items are asked in order
/// and no further than the first such item. The array stays as it is. The
/// first call that fails ends the work with its error.
pub fn some<D: Dispatcher>(ctx: NativeCallContext<D>, array: &mut Array, filter: FnPtr) -> (res:
    Result<bool, Box<EvalAltResult>>)
    ensures
        final(array)@ == old(array)@,
        match res {
            Ok(found) => if found {
                exists|i: int|
                    0 <= i < old(array)@.len() && verdict_yields(
                        &ctx,
                        &filter,
                        "some"@,
                        old(array)@[i]@,
                        i as usize,
                        true,
                    ) && forall|j: int|
                        0 <= j < i ==> #[trigger] verdict_yields(
                            &ctx,
                            &filter,
                            "some"@,
                            old(array)@[j]@,
                            j as usize,
                            false,
                        )
            } else {
                forall|j: int|
                    0 <= j < old(array)@.len() ==> #[trigger] verdict_yields(
                        &ctx,
                        &filter,
                        "some"@,
                        old(array)@[j]@,
                        j as usize,
                        false,
                    )
            },
            Err(e) => exists|i: int|
                0 <= i < old(array)@.len() && callback_yields(
                    &ctx,
                    &filter,
                    "some"@,
                    seq![old(array)@[i]@],
                    i as usize,
                    Err(e),
                ) && forall|j: int|
                    0 <= j < i ==> #[trigger] verdict_yields(
                        &ctx,
                        &filter,
                        "some"@,
                        old(array)@[j]@,
                        j as usize,
                        false,
                    ),
        },
{
    let mut i: usize = 0;
    while i < array.len()
        invariant
            array@ == old(array)@,
            i <= array@.len(),
            forall|j: int|
                0 <= j < i ==> #[trigger] verdict_yields(
                    &ctx,
                    &filter,
                    "some"@,
                    array@[j]@,
                    j as usize,
                    false,
                ),
        decreases array@.len() - i,
    {
        match ask(&ctx, &filter, "some", array, i) {
            Ok(verdict) => {
                if verdict {
                    return Ok(true);
                }
            },
            Err(e) => {
                return Err(e);
            },
        }
        i += 1;
    }
    Ok(false)
}

/// Whether `filter` answers `true` for every item. Items are asked in order
/// and no further than the first item for which it does not. The array stays
/// as it is. The first call that fails ends the work with its error.
pub fn all<D: Dispatcher>(ctx: NativeCallContext<D>, array: &mut Array, filter: FnPtr) -> (res:
    Result<bool, Box<EvalAltResult>>)
    ensures
        final(array)@ == old(array)@,
        match res {
            Ok(every) => if every {
                forall|j: int|
                    0 <= j < old(array)@.len() ==> #[trigger] verdict_yields(
                        &ctx,
                        &filter,
                        "all"@,
                        old(array)@[j]@,
                        j as usize,
                        true,
                    )
            } else {
                exists|i: int|
                    0 <= i < old(array)@.len() && verdict_yields(
                        &ctx,
                        &filter,
                        "all"@,
                        old(array)@[i]@,
                        i as usize,
                        false,
                    ) && forall|j: int|
                        0 <= j < i ==> #[trigger] verdict_yields(
                            &ctx,
                            &filter,
                            "all"@,
                            old(array)@[j]@,
                            j as usize,
                            true,
                        )
            },
            Err(e) => exists|i: int|
                0 <= i < old(array)@.len() && callback_yields(
                    &ctx,
                    &filter,
                    "all"@,
                    seq![old(array)@[i]@],
                    i as usize,
                    Err(e),
                ) && forall|j: int|
                    0 <= j < i ==> #[trigger] verdict_yields(
                        &ctx,
                        &filter,
                        "all"@,
                        old(array)@[j]@,
                        j as usize,
                        true,
                    ),
        },
{
    let mut i: usize = 0;
    while i < array.len()
        invariant
            array@ == old(array)@,
            i <= array@.len(),
            forall|j: int|
                0 <= j < i ==> #[trigger] verdict_yields(
                    &ctx,
                    &filter,
                    "all"@,
                    array@[j]@,
                    j as usize,
                    true,
                ),
        decreases array@.len() - i,
    {
        match ask(&ctx, &filter, "all", array, i) {
            Ok(verdict) => {
                if !verdict {
                    return Ok(false);
                }
            },
            Err(e) => {
                return Err(e);
            },
        }
        i += 1;
    }
    Ok(true)
}

/// Selecting from a sequence with one more item in front goes by that
/// item's mark.
pub proof fn lemma_select_prepend<A>(item: A, mark: bool, items: Seq<A>, keep: Seq<bool>)
    requires
        items.len() == keep.len(),
    ensures
        select(seq![item] + items, seq![mark] + keep) == (if mark {
            seq![item]
        } else {
            Seq::empty()
        }) + select(items, keep),
    decreases items.len(),
{
    let all = seq![item] + items;
    let marks = seq![mark] + keep;
    if items.len() == 0 {
        assert(select(all.drop_last(), marks.drop_last()) == Seq::<A>::empty());
    } else {
        lemma_select_prepend(item, mark, items.drop_last(), keep.drop_last());
        assert(all.drop_last() =~= seq![item] + items.drop_last());
        assert(marks.drop_last() =~= seq![mark] + keep.drop_last());
    }
}

/// Whether `out` and `after` may come of taking out of `before`, from the
/// last item to the first, each item for which `callback` answers `want`.
/// With a value, `out` holds what was taken, the last first, and `after` the
/// rest in order. With an error, the items behind the one whose call failed
/// have been dealt with, and what was taken of them is lost.
pub open spec fn taken_out<D: Dispatcher>(
    ctx: &NativeCallContext<D>,
    callback: &FnPtr,
    caller: Seq<char>,
    want: bool,
    before: Seq<Dynamic>,
    after: Seq<Dynamic>,
    out: Result<Array, Box<EvalAltResult>>,
) -> bool {
    match out {
        Ok(taken) => exists|marks: Seq<bool>|
            marks.len() == before.len() && after == select(before, negate(marks)) && taken@
                == select(before, marks).reverse() && forall|i: int|
                0 <= i < before.len() ==> verdict_yields(
                    ctx,
                    callback,
                    caller,
                    before[i]@,
                    i as usize,
                    #[trigger] marks[i] == want,
                ),
        Err(e) => exists|i: int, marks: Seq<bool>|
            0 <= i < before.len() && marks.len() == before.len() - i - 1 && callback_yields(
                ctx,
                callback,
                caller,
                seq![before[i]@],
                i as usize,
                Err(e),
            ) && after == before.take(i + 1) + select(before.skip(i + 1), negate(marks))
                && forall|j: int|
                0 <= j < marks.len() ==> verdict_yields(
                    ctx,
                    callback,
                    caller,
                    before[i + 1 + j]@,
                    (i + 1 + j) as usize,
                    #[trigger] marks[j] == want,
                ),
    }
}

/// Takes out of `array`, from the last item to the first, each item for
/// which `callback` answers `want`.
fn take_out<D: Dispatcher>(
    ctx: &NativeCallContext<D>,
    array: &mut Array,
    callback: &FnPtr,
    caller: &str,
    want: bool,
    capacity: usize,
) -> (res: Result<Array, Box<EvalAltResult>>)
    ensures
        taken_out(ctx, callback, caller@, want, old(array)@, final(array)@, res),
{
    let mut taken: Array = Vec::with_capacity(capacity);
    let ghost before = array@;
    let ghost mut marks: Seq<bool> = Seq::empty();
    let mut i: usize = array.len();
    assert(before.take(i as int) =~= before);
    while i > 0
        invariant
            before == old(array)@,
            i <= before.len(),
            marks.len() == before.len() - i,
            array@ == before.take(i as int) + select(before.skip(i as int), negate(marks)),
            taken@ == select(before.skip(i as int), marks).reverse(),
            forall|j: int|
                0 <= j < marks.len() ==> verdict_yields(
                    ctx,
                    callback,
                    caller@,
                    before[i + j]@,
                    (i + j) as usize,
                    #[trigger] marks[j] == want,
                ),
        decreases i,
    {
        i -= 1;
        match ask(ctx, callback, caller, array, i) {
            Ok(verdict) => {
                let mark = verdict == want;
                let ghost rest = before.skip(i + 1);
                if mark {
                    let item = array.remove(i);
                    taken.push(item);
                }
                proof {
                    let item = before[i as int];
                    assert(before.skip(i as int) =~= seq![item] + rest);
                    assert(negate(seq![mark] + marks) =~= seq![!mark] + negate(marks));
                    lemma_select_prepend(item, mark, rest, marks);
                    lemma_select_prepend(item, !mark, rest, negate(marks));
                    let ghost longer = seq![mark] + marks;
                    assert forall|j: int| 0 <= j < longer.len() implies verdict_yields(
                        ctx,
                        callback,
                        caller@,
                        before[i + j]@,
                        (i + j) as usize,
                        #[trigger] longer[j] == want,
                    ) by {}
                    marks = longer;
                }
            },
            Err(e) => {
                return Err(e);
            },
        }
    }
    Ok(taken)
}

/// Takes out of the array every item that `filter` answers `true` for and
/// returns what was taken, the last first. Items are asked from the last to
/// the first. The first call that fails ends the work with its error; what
/// was taken until then is lost.
pub fn drain<D: Dispatcher>(ctx: NativeCallContext<D>, array: &mut Array, filter: FnPtr) -> (res:
    Result<Array, Box<EvalAltResult>>)
    ensures
        taken_out(&ctx, &filter, "drain"@, true, old(array)@, final(array)@, res),
{
    let capacity = array.len();
    take_out(&ctx, array, &filter, "drain", true, capacity)
}

/// Keeps in the array only the items that `filter` answers `true` for and
/// returns the others, the last first. Items are asked from the last to the
/// first. The first call that fails ends the work with its error; what was
/// taken until then is lost.
pub fn retain<D: Dispatcher>(ctx: NativeCallContext<D>, array: &mut Array, filter: FnPtr) -> (res:
    Result<Array, Box<EvalAltResult>>)
    ensures
        taken_out(&ctx, &filter, "retain"@, false, old(array)@, final(array)@, res),
{
    take_out(&ctx, array, &filter, "retain", false, 0)
}

/// The index of the item that a fold over `len` items visits at its step
/// `step`: from the front, or from the back where `reversed` is set.
pub open spec fn visit(len: int, step: int, reversed: bool) -> int {
    if reversed {
        len - 1 - step
    } else {
        step
    }
}

/// Whether `out` may come of folding `items` with `reducer`, starting from
/// `initial`. Each step hands the reducer the result so far and the item
/// visited, and takes what it returns as the new result; `steps` are the
/// results in turn. The first call that fails ends the fold with its error.
pub open spec fn folded<D: Dispatcher>(
    ctx: &NativeCallContext<D>,
    reducer: &FnPtr,
    caller: Seq<char>,
    items: Seq<Dynamic>,
    reversed: bool,
    initial: Dynamic,
    out: Result<Dynamic, Box<EvalAltResult>>,
) -> bool {
    exists|steps: Seq<Dynamic>|
        steps.len() >= 1 && steps[0] == initial && (forall|k: int|
            0 <= k < steps.len() - 1 ==> callback_yields(
                ctx,
                reducer,
                caller,
                seq![(#[trigger] steps[k])@, items[visit(items.len() as int, k, reversed)]@],
                visit(items.len() as int, k, reversed) as usize,
                Ok(steps[k + 1]),
            )) && match out {
            Ok(v) => steps.len() == items.len() + 1 && v == steps.last(),
            Err(e) => steps.len() <= items.len() && callback_yields(
                ctx,
                reducer,
                caller,
                seq![steps.last()@, items[visit(items.len() as int, steps.len() - 1, reversed)]@],
                visit(items.len() as int, steps.len() - 1, reversed) as usize,
                Err(e),
            ),
        }
}

/// Folds the items of `array` with `reducer`, starting from `initial`.
fn fold<D: Dispatcher>(
    ctx: &NativeCallContext<D>,
    array: &Array,
    reducer: &FnPtr,
    caller: &str,
    reversed: bool,
    initial: Dynamic,
) -> (res: Result<Dynamic, Box<EvalAltResult>>)
    ensures
        folded(ctx, reducer, caller@, array@, reversed, initial, res),
{
    let len: usize = array.len();
    let mut result = initial;
    let ghost mut steps: Seq<Dynamic> = seq![initial];
    let mut k: usize = 0;
    while k < len
        invariant
            len == array@.len(),
            k <= len,
            steps.len() == k + 1,
            steps[0] == initial,
            result == steps.last(),
            forall|j: int|
                0 <= j < steps.len() - 1 ==> callback_yields(
                    ctx,
                    reducer,
                    caller@,
                    seq![(#[trigger] steps[j])@, array@[visit(len as int, j, reversed)]@],
                    visit(len as int, j, reversed) as usize,
                    Ok(steps[j + 1]),
                ),
        decreases len - k,
    {
        let index: usize = if reversed {
            len - 1 - k
        } else {
            k
        };
        let ghost so_far = result;
        let mut args: Vec<Dynamic> = Vec::new();
        args.push(result);
        args.push(array[index].clone());
        assert(values(args@) =~= seq![so_far@, array@[index as int]@]);
        match call_callback(ctx, reducer, caller, &args, index) {
            Ok(v) => {
                result = v;
                proof {
                    let longer = steps.push(v);
                    assert forall|j: int| 0 <= j < longer.len() - 1 implies callback_yields(
                        ctx,
                        reducer,
                        caller@,
                        seq![(#[trigger] longer[j])@, array@[visit(len as int, j, reversed)]@],
                        visit(len as int, j, reversed) as usize,
                        Ok(longer[j + 1]),
                    ) by {}
                    steps = longer;
                }
            },
            Err(e) => {
                return Err(e);
            },
        }
        k += 1;
    }
    Ok(result)
}

/// Folds the array from the first item to the last, starting from the unit
/// value. The array stays as it is.
pub fn reduce<D: Dispatcher>(ctx: NativeCallContext<D>, array: &mut Array, reducer: FnPtr) -> (res:
    Result<Dynamic, Box<EvalAltResult>>)
    ensures
        final(array)@ == old(array)@,
        folded(&ctx, &reducer, "reduce"@, old(array)@, false, Dynamic::spec_unit(), res),
{
    fold(&ctx, array, &reducer, "reduce", false, Dynamic::unit())
}

/// Folds the array from the first item to the last, starting from `initial`.
/// The array stays as it is.
pub fn reduce_with_initial<D: Dispatcher>(
    ctx: NativeCallContext<D>,
    array: &mut Array,
    reducer: FnPtr,
    initial: Dynamic,
) -> (res: Result<Dynamic, Box<EvalAltResult>>)
    ensures
        final(array)@ == old(array)@,
        folded(&ctx, &reducer, "reduce"@, old(array)@, false, initial, res),
{
    fold(&ctx, array, &reducer, "reduce", false, initial)
}

/// Folds the array from the last item to the first, starting from the unit
/// value. The array stays as it is.
pub fn reduce_rev<D: Dispatcher>(ctx: NativeCallContext<D>, array: &mut Array, reducer: FnPtr) -> (res:
    Result<Dynamic, Box<EvalAltResult>>)
    ensures
        final(array)@ == old(array)@,
        folded(&ctx, &reducer, "reduce_rev"@, old(array)@, true, Dynamic::spec_unit(), res),
{
    fold(&ctx, array, &reducer, "reduce_rev", true, Dynamic::unit())
}

/// Folds the array from the last item to the first, starting from `initial`.
/// The array stays as it is.
pub fn reduce_rev_with_initial<D: Dispatcher>(
    ctx: NativeCallContext<D>,
    array: &mut Array,
    reducer: FnPtr,
    initial: Dynamic,
) -> (res: Result<Dynamic, Box<EvalAltResult>>)
    ensures
        final(array)@ == old(array)@,
        folded(&ctx, &reducer, "reduce_rev"@, old(array)@, true, initial, res),
{
    fold(&ctx, array, &reducer, "reduce_rev", true, initial)
}

/// The name under which the engine knows the operator that tells whether
/// two values are equal.
pub const OP_EQUALS: &'static str = "==";

/// What the array functions make of the outcome of a call of the equality
/// operator. A value counts as equal where it is the boolean `true`. Where
/// the engine knows no operator for the two values, values of different
/// types are unequal, and for values of the same type the error stands.
pub open spec fn equality_verdict(
    outcome: Result<Dynamic, Box<EvalAltResult>>,
    same_type: bool,
) -> Result<bool, Box<EvalAltResult>> {
    match outcome {
        Ok(v) => Ok(truthy(v@)),
        Err(e) => if not_found(outcome, OP_EQUALS@) && !same_type {
            Ok(false)
        } else {
            Err(e)
        },
    }
}

/// Whether `out` may come of asking the engine whether the item `before`
/// equals a value `other`, the call leaving the item as `after`.
pub open spec fn equality_yields<D: Dispatcher>(
    ctx: &NativeCallContext<D>,
    before: Dynamic,
    other: Value,
    after: Dynamic,
    out: Result<bool, Box<EvalAltResult>>,
) -> bool {
    exists|outcome: Result<Dynamic, Box<EvalAltResult>>|
        ctx.engine.method_yields(OP_EQUALS@, before, seq![other], after, outcome) && out
            == equality_verdict(outcome, tag_of(after@) == tag_of(other))
}

/// Asks the engine whether `item` equals `other`.
fn ask_equal<D: Dispatcher>(ctx: &NativeCallContext<D>, item: &mut Dynamic, other: Dynamic) -> (out:
    Result<bool, Box<EvalAltResult>>)
    ensures
        equality_yields(ctx, *old(item), other@, *final(item), out),
{
    let other_type = other.type_tag();
    let mut args: Vec<Dynamic> = Vec::new();
    args.push(other);
    assert(values(args@) =~= seq![other@]);
    let outcome = ctx.call_fn_dynamic_raw(OP_EQUALS, item, args);
    let same_type = item.type_tag() == other_type;
    let unknown = is_not_found(&outcome, OP_EQUALS);
    match outcome {
        Ok(v) => Ok(v.is_true()),
        Err(e) => if unknown && !same_type {
            Ok(false)
        } else {
            Err(e)
        },
    }
}

/// Whether `out` may come of asking the first `asked` items of `before`, in
/// order, whether they equal `value`, the calls leaving the array as `after`:
/// the last of them gave `out` its answer, and those before it were unequal.
pub open spec fn searched_through<D: Dispatcher>(
    ctx: &NativeCallContext<D>,
    before: Seq<Dynamic>,
    after: Seq<Dynamic>,
    value: Value,
    out: Result<Option<usize>, Box<EvalAltResult>>,
    asked: int,
) -> bool {
    &&& 0 <= asked <= before.len()
    &&& forall|j: int| asked <= j < before.len() ==> #[trigger] after[j] == before[j]
    &&& forall|j: int|
        0 <= j < asked - 1 ==> equality_yields(ctx, before[j], value, #[trigger] after[j], Ok(false))
    &&& match out {
        Ok(Some(at)) => asked == at + 1 && equality_yields(
            ctx,
            before[at as int],
            value,
            after[at as int],
            Ok(true),
        ),
        Ok(None) => asked == before.len() && (asked > 0 ==> equality_yields(
            ctx,
            before[asked - 1],
            value,
            after[asked - 1],
            Ok(false),
        )),
        Err(e) => asked > 0 && equality_yields(
            ctx,
            before[asked - 1],
            value,
            after[asked - 1],
            Err(e),
        ),
    }
}

/// Whether `out` may come of looking through `before` for the first item
/// that equals `value`, the calls leaving the array as `after`. The items
/// are asked in order; `out` holds the index of the first that is equal,
/// nothing where none is, or the error of the first call that failed. Items
/// behind that place are not touched.
pub open spec fn searched<D: Dispatcher>(
    ctx: &NativeCallContext<D>,
    before: Seq<Dynamic>,
    after: Seq<Dynamic>,
    value: Value,
    out: Result<Option<usize>, Box<EvalAltResult>>,
) -> bool {
    after.len() == before.len() && exists|asked: int| #[trigger]
        searched_through(ctx, before, after, value, out, asked)
}

/// Looks through `array` for the first item that equals `value`.
fn search<D: Dispatcher>(ctx: &NativeCallContext<D>, array: &mut Array, value: &Dynamic) -> (res:
    Result<Option<usize>, Box<EvalAltResult>>)
    ensures
        searched(ctx, old(array)@, final(array)@, value@, res),
{
    let mut i: usize = 0;
    while i < array.len()
        invariant
            array@.len() == old(array)@.len(),
            i <= array@.len(),
            forall|j: int| i <= j < array@.len() ==> #[trigger] array@[j] == old(array)@[j],
            forall|j: int|
                0 <= j < i ==> equality_yields(
                    ctx,
                    old(array)@[j],
                    value@,
                    #[trigger] array@[j],
                    Ok(false),
                ),
        decreases array@.len() - i,
    {
        let verdict = ask_equal(ctx, &mut array[i], value.clone());
        match verdict {
            Ok(equal) => {
                if equal {
                    assert(searched_through(
                        ctx,
                        old(array)@,
                        array@,
                        value@,
                        Ok(Some(i)),
                        i + 1,
                    ));
                    return Ok(Some(i));
                }
            },
            Err(e) => {
                assert(searched_through(ctx, old(array)@, array@, value@, Err(e), i + 1));
                return Err(e);
            },
        }
        i += 1;
    }
    assert(searched_through(ctx, old(array)@, array@, value@, Ok(None), i as int));
    Ok(None)
}

/// Whether some item of the array equals `value`, as the engine's equality
/// operator has it. Items are asked in order and no further than the first
/// that is equal. The first call that fails ends the work with its error.
pub fn contains<D: Dispatcher>(ctx: NativeCallContext<D>, array: &mut Array, value: Dynamic) -> (res:
    Result<bool, Box<EvalAltResult>>)
    ensures
        exists|found: Result<Option<usize>, Box<EvalAltResult>>|
            searched(&ctx, old(array)@, final(array)@, value@, found) && res == (match found {
                Ok(at) => Ok(at is Some),
                Err(e) => Err(e),
            }),
{
    match search(&ctx, array, &value) {
        Ok(at) => Ok(at.is_some()),
        Err(e) => Err(e),
    }
}

/// The index of the first item of the array that equals `value`, as the
/// engine's equality operator has it, or -1 where none does. The first call
/// that fails ends the work with its error.
pub fn index_of<D: Dispatcher>(ctx: NativeCallContext<D>, array: &mut Array, value: Dynamic) -> (res:
    Result<INT, Box<EvalAltResult>>)
    ensures
        exists|found: Result<Option<usize>, Box<EvalAltResult>>|
            searched(&ctx, old(array)@, final(array)@, value@, found) && res == (match found {
                Ok(Some(at)) => Ok(at as INT),
                Ok(None) => Ok(-1i64),
                Err(e) => Err(e),
            }),
{
    match search(&ctx, array, &value) {
        Ok(Some(at)) => Ok(#[verifier::truncate] (at as INT)),
        Ok(None) => Ok(-1),
        Err(e) => Err(e),
    }
}

/// Whether `out` may come of asking the first `asked` items of `before`, in
/// order, whether they equal the values of `other` at their places, the
/// calls leaving the array as `after`: the last of them gave `out` its
/// answer, and those before it were equal.
pub open spec fn compared_through<D: Dispatcher>(
    ctx: &NativeCallContext<D>,
    before: Seq<Dynamic>,
    after: Seq<Dynamic>,
    other: Seq<Value>,
    out: Result<bool, Box<EvalAltResult>>,
    asked: int,
) -> bool {
    &&& 0 <= asked <= before.len()
    &&& forall|j: int| asked <= j < before.len() ==> #[trigger] after[j] == before[j]
    &&& forall|j: int|
        0 <= j < asked - 1 ==> equality_yields(
            ctx,
            before[j],
            other[j],
            #[trigger] after[j],
            Ok(true),
        )
    &&& match out {
        Ok(true) => asked == before.len() && (asked > 0 ==> equality_yields(
            ctx,
            before[asked - 1],
            other[asked - 1],
            after[asked - 1],
            Ok(true),
        )),
        Ok(false) => asked > 0 && equality_yields(
            ctx,
            before[asked - 1],
            other[asked - 1],
            after[asked - 1],
            Ok(false),
        ),
        Err(e) => asked > 0 && equality_yields(
            ctx,
            before[asked - 1],
            other[asked - 1],
            after[asked - 1],
            Err(e),
        ),
    }
}

/// Whether `out` may come of comparing the items of `before` with the values
/// `other`, pair by pair, the calls leaving the array as `after`. Arrays of
/// different lengths are unequal without a call. Otherwise the pairs are
/// asked in order, no further than the first that is unequal or whose call
/// fails, and items behind that place are not touched.
pub open spec fn compared<D: Dispatcher>(
    ctx: &NativeCallContext<D>,
    before: Seq<Dynamic>,
    after: Seq<Dynamic>,
    other: Seq<Value>,
    out: Result<bool, Box<EvalAltResult>>,
) -> bool {
    if before.len() != other.len() {
        after == before && out == Ok::<bool, Box<EvalAltResult>>(false)
    } else {
        after.len() == before.len() && exists|asked: int| #[trigger]
            compared_through(ctx, before, after, other, out, asked)
    }
}

/// Whether the two arrays have the same length and equal items, as the
/// engine's equality operator has it.
pub fn equals<D: Dispatcher>(ctx: NativeCallContext<D>, array: &mut Array, array2: Array) -> (res:
    Result<bool, Box<EvalAltResult>>)
    ensures
        compared(&ctx, old(array)@, final(array)@, values(array2@), res),
{
    let ghost other = values(array2@);
    if array.len() != array2.len() {
        return Ok(false);
    }
    if array.is_empty() {
        assert(compared_through(&ctx, old(array)@, array@, other, Ok(true), 0));
        return Ok(true);
    }
    let mut others = array2;
    let mut i: usize = 0;
    while i < array.len()
        invariant
            array@.len() == old(array)@.len(),
            others@.len() == array@.len(),
            other == values(array2@),
            other.len() == array@.len(),
            i <= array@.len(),
            forall|j: int| i <= j < array@.len() ==> #[trigger] array@[j] == old(array)@[j],
            forall|j: int| i <= j < others@.len() ==> (#[trigger] others@[j])@ == other[j],
            forall|j: int|
                0 <= j < i ==> equality_yields(
                    &ctx,
                    old(array)@[j],
                    other[j],
                    #[trigger] array@[j],
                    Ok(true),
                ),
        decreases array@.len() - i,
    {
        let item2 = others[i].take();
        let verdict = ask_equal(&ctx, &mut array[i], item2);
        match verdict {
            Ok(equal) => {
                if !equal {
                    assert(compared_through(&ctx, old(array)@, array@, other, Ok(false), i + 1));
                    return Ok(false);
                }
            },
            Err(e) => {
                assert(compared_through(&ctx, old(array)@, array@, other, Err(e), i + 1));
                return Err(e);
            },
        }
        i += 1;
    }
    assert(compared_through(&ctx, old(array)@, array@, other, Ok(true), i as int));
    Ok(true)
}

/// Whether the two arrays differ: the opposite of what `equals` finds.
pub fn not_equals<D: Dispatcher>(ctx: NativeCallContext<D>, array: &mut Array, array2: Array) -> (res:
    Result<bool, Box<EvalAltResult>>)
    ensures
        exists|same: Result<bool, Box<EvalAltResult>>|
            compared(&ctx, old(array)@, final(array)@, values(array2@), same) && res == (match same {
                Ok(b) => Ok(!b),
                Err(e) => Err(e),
            }),
{
    match equals(ctx, array, array2) {
        Ok(b) => Ok(!b),
        Err(e) => Err(e),
    }
}

/// The place of a type in the order by which values are sorted where the
/// comparer gives no answer.
pub open spec fn type_rank(tag: TypeTag) -> int {
    match tag {
        TypeTag::Unit => 0,
        TypeTag::Bool => 1,
        TypeTag::Int => 2,
        TypeTag::Char => 3,
        TypeTag::Str => 4,
        TypeTag::Array => 5,
        TypeTag::FnPtr => 6,
        TypeTag::TimeStamp => 7,
    }
}

/// What sorting makes of the outcome of a call of the comparer on `x` and
/// `y`: whether `x` belongs behind `y`. An integer above zero says so. Where
/// the call fails or returns no integer, the types of the two decide.
pub open spec fn comes_after(
    outcome: Result<Dynamic, Box<EvalAltResult>>,
    x: Value,
    y: Value,
) -> bool {
    match outcome {
        Ok(v) => match v@ {
            Value::Int(n) => n > 0,
            _ => type_rank(tag_of(x)) > type_rank(tag_of(y)),
        },
        Err(_) => type_rank(tag_of(x)) > type_rank(tag_of(y)),
    }
}

/// Whether a call of `comparer` on `x` and `y` may place `x` behind `y`, where
/// `behind` is set, or not behind it, where it is not.
pub open spec fn compare_yields<D: Dispatcher>(
    ctx: &NativeCallContext<D>,
    comparer: &FnPtr,
    x: Value,
    y: Value,
    behind: bool,
) -> bool {
    exists|outcome: Result<Dynamic, Box<EvalAltResult>>|
        ctx.engine.fn_yields(comparer.name@, values(comparer.curry@) + seq![x, y], outcome)
            && behind == comes_after(outcome, x, y)
}

/// Whether the comparer was found to accept `x` in front of `y`: a call on
/// the two did not place `x` behind `y`, or a call on them the other way
/// round placed `y` behind `x`.
pub open spec fn in_order<D: Dispatcher>(
    ctx: &NativeCallContext<D>,
    comparer: &FnPtr,
    x: Value,
    y: Value,
) -> bool {
    compare_yields(ctx, comparer, x, y, false) || compare_yields(ctx, comparer, y, x, true)
}

/// The place of a type in the order of types.
fn rank_of(tag: TypeTag) -> (res: u8)
    ensures
        res == type_rank(tag),
{
    match tag {
        TypeTag::Unit => 0,
        TypeTag::Bool => 1,
        TypeTag::Int => 2,
        TypeTag::Char => 3,
        TypeTag::Str => 4,
        TypeTag::Array => 5,
        TypeTag::FnPtr => 6,
        TypeTag::TimeStamp => 7,
    }
}

/// Asks `comparer` whether `x` belongs behind `y`.
fn is_behind<D: Dispatcher>(ctx: &NativeCallContext<D>, comparer: &FnPtr, x: &Dynamic, y: &Dynamic) -> (res:
    bool)
    ensures
        compare_yields(ctx, comparer, x@, y@, res),
{
    let mut args: Vec<Dynamic> = Vec::new();
    args.push(x.clone());
    args.push(y.clone());
    assert(values(args@) =~= seq![x@, y@]);
    let by_type = rank_of(x.type_tag()) > rank_of(y.type_tag());
    let outcome = comparer.call_dynamic(ctx, args);
    let res = match &outcome {
        Ok(v) => match v.as_int() {
            Some(n) => n > 0,
            None => by_type,
        },
        Err(_) => by_type,
    };
    assert(res == comes_after(outcome, x@, y@));
    res
}

/// Whether `after` holds the items of `before` in another order, where
/// `from` tells for each place of `after` the place in `before` that its
/// item came from, and two items have changed their order only where a call
/// of `comparer` placed the one that was in front behind the other.
pub open spec fn rearranged<D: Dispatcher>(
    ctx: &NativeCallContext<D>,
    comparer: &FnPtr,
    before: Seq<Dynamic>,
    after: Seq<Dynamic>,
    from: Seq<int>,
) -> bool {
    &&& from.len() == before.len()
    &&& after.len() == before.len()
    &&& forall|k: int|
        0 <= k < from.len() ==> 0 <= #[trigger] from[k] < before.len() && after[k] == before[from[k]]
    &&& forall|k: int, l: int|
        #![trigger from[k], from[l]]
        0 <= k < l < from.len() ==> from[k] != from[l]
    &&& forall|k: int, l: int|
        #![trigger from[k], from[l]]
        0 <= k < l < from.len() && from[k] > from[l] ==> compare_yields(
            ctx,
            comparer,
            after[l]@,
            after[k]@,
            true,
        )
}

/// Sorts the array by what `comparer` says of two items: an integer above
/// zero where the first belongs behind the second. Where a call fails or
/// returns no integer, the types of the two items decide. Each item is
/// brought forward past the items that the comparer places behind it, so
/// items that it does not tell apart keep their order. The array holds the
/// same items afterwards, each was found in order with the next, and two
/// items have changed their order only where a call of the comparer placed
/// the one that was in front behind the other.
pub fn sort<D: Dispatcher>(ctx: NativeCallContext<D>, array: &mut Array, comparer: FnPtr) -> (res:
    Result<(), Box<EvalAltResult>>)
    ensures
        res is Ok,
        final(array)@.to_multiset() == old(array)@.to_multiset(),
        final(array)@.len() == old(array)@.len(),
        forall|k: int|
            0 <= k < final(array)@.len() - 1 ==> in_order(
                &ctx,
                &comparer,
                (#[trigger] final(array)@[k])@,
                final(array)@[k + 1]@,
            ),
        exists|from: Seq<int>| #[trigger]
            rearranged(&ctx, &comparer, old(array)@, final(array)@, from),
{
    let ghost mut from: Seq<int> = Seq::new(array@.len(), |k: int| k);
    let mut i: usize = 1;
    while i < array.len()
        invariant
            1 <= i,
            array@.len() == old(array)@.len(),
            array@.to_multiset() == old(array)@.to_multiset(),
            forall|k: int|
                0 <= k < i - 1 && k < array@.len() - 1 ==> in_order(
                    &ctx,
                    &comparer,
                    (#[trigger] array@[k])@,
                    array@[k + 1]@,
                ),
            rearranged(&ctx, &comparer, old(array)@, array@, from),
            forall|k: int| i <= k < from.len() ==> #[trigger] from[k] == k,
            forall|k: int| 0 <= k < i && k < from.len() ==> #[trigger] from[k] < i,
        decreases array@.len() - i,
    {
        let mut place: usize = i;
        let mut searching = true;
        while searching && place > 0
            invariant
                place <= i < array@.len(),
                forall|k: int|
                    place <= k < i ==> compare_yields(
                        &ctx,
                        &comparer,
                        (#[trigger] array@[k])@,
                        array@[i as int]@,
                        true,
                    ),
                !searching ==> place > 0 && compare_yields(
                    &ctx,
                    &comparer,
                    array@[place - 1]@,
                    array@[i as int]@,
                    false,
                ),
            decreases place + (if searching { 1int } else { 0int }),
        {
            if is_behind(&ctx, &comparer, &array[place - 1], &array[i]) {
                place -= 1;
            } else {
                searching = false;
            }
        }
        let ghost before = array@;
        let ghost came = from;
        if place < i {
            let item = array.remove(i);
            array.insert(place, item);
            proof {
                vstd::seq_lib::to_multiset_remove(before, i as int);
                vstd::seq_lib::to_multiset_insert(before.remove(i as int), place as int, before[i as int]);
                assert(before.to_multiset().remove(before[i as int]).insert(before[i as int])
                    =~= before.to_multiset()) by {
                    vstd::seq_lib::to_multiset_contains(before, before[i as int]);
                    broadcast use vstd::multiset::group_multiset_axioms;
                }
                from = came.remove(i as int).insert(place as int, i as int);
            }
        }
        proof {
            let after = array@;
            assert forall|k: int| 0 <= k < i && k < after.len() - 1 implies in_order(
                &ctx,
                &comparer,
                (#[trigger] after[k])@,
                after[k + 1]@,
            ) by {}
            if place < i {
                lemma_moved_forward(&ctx, &comparer, old(array)@, before, came, i as int, place as int);
            }
        }
        i += 1;
    }
    Ok(())
}

/// Bringing the item at `at` forward to `place`, past items that the
/// comparer places behind it, keeps an array a rearrangement of what it came
/// from.
proof fn lemma_moved_forward<D: Dispatcher>(
    ctx: &NativeCallContext<D>,
    comparer: &FnPtr,
    origin: Seq<Dynamic>,
    before: Seq<Dynamic>,
    came: Seq<int>,
    at: int,
    place: int,
)
    requires
        rearranged(ctx, comparer, origin, before, came),
        0 <= place < at < before.len(),
        forall|k: int| at <= k < came.len() ==> #[trigger] came[k] == k,
        forall|k: int| 0 <= k < at ==> #[trigger] came[k] < at,
        forall|k: int|
            place <= k < at ==> compare_yields(
                ctx,
                comparer,
                (#[trigger] before[k])@,
                before[at]@,
                true,
            ),
    ensures
        ({
            let after = before.remove(at).insert(place, before[at]);
            let from = came.remove(at).insert(place, at);
            &&& rearranged(ctx, comparer, origin, after, from)
            &&& forall|k: int| at + 1 <= k < from.len() ==> #[trigger] from[k] == k
            &&& forall|k: int| 0 <= k < at + 1 ==> #[trigger] from[k] < at + 1
        }),
{
    let after = before.remove(at).insert(place, before[at]);
    let from = came.remove(at).insert(place, at);
    let source = |k: int|
        if k < place {
            k
        } else if k == place {
            at
        } else if k <= at {
            k - 1
        } else {
            k
        };
    assert forall|k: int| 0 <= k < from.len() implies #[trigger] from[k] == came[source(k)]
        && after[k] == before[source(k)] by {}
    assert forall|k: int| 0 <= k < from.len() implies 0 <= #[trigger] from[k] < origin.len()
        && after[k] == origin[from[k]] by {
        assert(from[k] == came[source(k)]);
    }
    assert forall|k: int, l: int|
        #![trigger from[k], from[l]]
        0 <= k < l < from.len() implies from[k] != from[l] by {
        assert(from[k] == came[source(k)] && from[l] == came[source(l)]);
        assert(source(k) != source(l));
        if source(k) < source(l) {
            assert(came[source(k)] != came[source(l)]);
        } else {
            assert(came[source(l)] != came[source(k)]);
        }
    }
    assert forall|k: int, l: int|
        #![trigger from[k], from[l]]
        0 <= k < l < from.len() && from[k] > from[l] implies compare_yields(
        ctx,
        comparer,
        after[l]@,
        after[k]@,
        true,
    ) by {
        assert(from[k] == came[source(k)] && from[l] == came[source(l)]);
        assert(after[k] == before[source(k)] && after[l] == before[source(l)]);
        if k == place {
            if l <= at {
                assert(place <= source(l) < at);
            } else {
                assert(came[source(l)] == l);
            }
        } else if l == place {
            assert(came[source(k)] < at);
        } else {
            assert(source(k) < source(l));
        }
    }
    assert forall|k: int| at + 1 <= k < from.len() implies #[trigger] from[k] == k by {
        assert(from[k] == came[source(k)]);
    }
    assert forall|k: int| 0 <= k < at + 1 implies #[trigger] from[k] < at + 1 by {
        assert(from[k] == came[source(k)]);
    }
}

/// Places that keep their order are the places as they were: where each
/// place of `from` is a place below its length and they rise, each is its
/// own.
pub proof fn lemma_rising_places(from: Seq<int>, k: int)
    requires
        forall|a: int| 0 <= a < from.len() ==> 0 <= #[trigger] from[a] < from.len(),
        forall|a: int, b: int|
            #![trigger from[a], from[b]]
            0 <= a < b < from.len() ==> from[a] < from[b],
        0 <= k < from.len(),
    ensures
        from[k] == k,
{
    lemma_rising_from_below(from, k);
    lemma_rising_from_above(from, k);
}

/// Places that rise lie no lower than where they stand.
proof fn lemma_rising_from_below(from: Seq<int>, k: int)
    requires
        forall|a: int| 0 <= a < from.len() ==> 0 <= #[trigger] from[a] < from.len(),
        forall|a: int, b: int|
            #![trigger from[a], from[b]]
            0 <= a < b < from.len() ==> from[a] < from[b],
        0 <= k < from.len(),
    ensures
        from[k] >= k,
    decreases k,
{
    if k > 0 {
        lemma_rising_from_below(from, k - 1);
        assert(from[k - 1] < from[k]);
    }
}

/// Places that rise below their number lie no higher than where they stand.
proof fn lemma_rising_from_above(from: Seq<int>, k: int)
    requires
        forall|a: int| 0 <= a < from.len() ==> 0 <= #[trigger] from[a] < from.len(),
        forall|a: int, b: int|
            #![trigger from[a], from[b]]
            0 <= a < b < from.len() ==> from[a] < from[b],
        0 <= k < from.len(),
    ensures
        from[k] <= k,
    decreases from.len() - k,
{
    if k < from.len() - 1 {
        lemma_rising_from_above(from, k + 1);
        assert(from[k] < from[k + 1]);
    }
}

/// Sorting leaves an array as it is where the comparer places none of its
/// items behind another.
pub proof fn lemma_sort_without_answer<D: Dispatcher>(
    ctx: &NativeCallContext<D>,
    comparer: &FnPtr,
    before: Seq<Dynamic>,
    after: Seq<Dynamic>,
    from: Seq<int>,
)
    requires
        rearranged(ctx, comparer, before, after, from),
        forall|k: int, l: int|
            0 <= k < before.len() && 0 <= l < before.len() ==> !compare_yields(
                ctx,
                comparer,
                (#[trigger] before[k])@,
                (#[trigger] before[l])@,
                true,
            ),
    ensures
        after == before,
{
    assert forall|a: int, b: int|
        #![trigger from[a], from[b]]
        0 <= a < b < from.len() implies from[a] < from[b] by {
        if from[a] > from[b] {
            assert(after[b] == before[from[b]] && after[a] == before[from[a]]);
            assert(!compare_yields(ctx, comparer, before[from[b]]@, before[from[a]]@, true));
        }
    }
    assert forall|k: int| 0 <= k < after.len() implies after[k] == before[k] by {
        lemma_rising_places(from, k);
    }
    assert(after =~= before);
}

/// Where a range asked for at `start` begins in an array of `len` items: at
/// the first item for a negative `start`, at the last for one behind the end.
pub open spec fn range_start(start: INT, len: int) -> int {
    if start < 0 {
        0
    } else if start >= len {
        len - 1
    } else {
        start as int
    }
}

/// How many items a range asked for with `len` items holds where `avail`
/// items are there from its start: none for a negative `len`, no more than
/// there are.
pub open spec fn range_len(len: INT, avail: int) -> int {
    if len < 0 {
        0
    } else if len > avail {
        avail
    } else {
        len as int
    }
}

/// Where a range begins and how many items it holds.
fn range_of(size: usize, start: INT, len: INT) -> (res: (usize, usize))
    requires
        size > 0 || start < 0,
    ensures
        res.0 == range_start(start, size as int),
        res.1 == range_len(len, size - res.0),
        res.0 + res.1 <= size,
{
    let first: usize = if start < 0 {
        0
    } else if start as u64 >= size as u64 {
        size - 1
    } else {
        start as usize
    };
    let count: usize = if len < 0 {
        0
    } else if len as u64 > (size - first) as u64 {
        size - first
    } else {
        len as usize
    };
    (first, count)
}

/// Where a range begins.
fn start_of(size: usize, start: INT) -> (res: usize)
    requires
        size > 0 || start < 0,
    ensures
        res == range_start(start, size as int),
        res <= size,
{
    if start < 0 {
        0
    } else if start as u64 >= size as u64 {
        size - 1
    } else {
        start as usize
    }
}

/// Copies of the items of `array` from `from` up to `to`.
fn copy_range(array: &Array, from: usize, to: usize) -> (res: Array)
    requires
        from <= to <= array@.len(),
    ensures
        values(res@) == values(array@.subrange(from as int, to as int)),
        writable(res@),
{
    let mut res: Array = Vec::new();
    let mut i: usize = from;
    while i < to
        invariant
            from <= i <= to <= array@.len(),
            res@.len() == i - from,
            writable(res@),
            forall|j: int| 0 <= j < res@.len() ==> (#[trigger] res@[j])@ == array@[from + j]@,
        decreases to - i,
    {
        res.push(array[i].clone());
        i += 1;
    }
    res
}

/// The number of items in the array.
pub fn len(array: &mut Array) -> (res: INT)
    ensures
        final(array)@ == old(array)@,
        res == old(array).len() as INT,
{
    #[verifier::truncate]
    (array.len() as INT)
}

/// Adds `item` at the end of the array.
pub fn push(array: &mut Array, item: Dynamic)
    ensures
        final(array)@ == old(array)@.push(item),
{
    array.push(item);
}

/// Adds the items of `y` at the end of the array.
pub fn append(array: &mut Array, y: Array)
    ensures
        final(array)@ == old(array)@ + y@,
{
    let mut y = y;
    array.append(&mut y);
}

/// The items of `array` followed by those of `y`.
pub fn concat(array: Array, y: Array) -> (res: Array)
    ensures
        res@ == array@ + y@,
{
    let mut array = array;
    let mut y = y;
    array.append(&mut y);
    array
}

/// Puts `item` into the array at `position`: in front for a position of zero
/// or less, at the end for one at or behind the end.
pub fn insert(array: &mut Array, position: INT, item: Dynamic)
    ensures
        final(array)@ == old(array)@.insert(
            if position <= 0 {
                0
            } else if position >= old(array)@.len() {
                old(array)@.len() as int
            } else {
                position as int
            },
            item,
        ),
{
    if position <= 0 {
        array.insert(0, item);
    } else if position as u64 >= array.len() as u64 {
        self::push(array, item);
    } else {
        array.insert(position as usize, item);
    }
}

/// Whether an array may not grow to `len` items under the engine's `limit`,
/// of which zero stands for none: `len` is over the limit, or over what the
/// machine can count.
pub open spec fn too_large(len: INT, limit: usize) -> bool {
    len > 0 && ((limit > 0 && len > limit) || len > usize::MAX)
}

/// Lengthens the array to `len` items with copies of `item`, which may be
/// written to whether or not `item` is a constant. An array that
/// has `len` items or more stays as it is. Where the engine allows no array
/// of `len` items the call fails and the array stays as it is.
pub fn pad<D: Dispatcher>(ctx: NativeCallContext<D>, array: &mut Array, len: INT, item: Dynamic) -> (res:
    Result<(), Box<EvalAltResult>>)
    ensures
        match res {
            Ok(_) => {
                &&& !too_large(len, ctx.engine.max_array_size)
                &&& final(array)@.len() == if len > old(array)@.len() {
                    len as int
                } else {
                    old(array)@.len() as int
                }
                &&& final(array)@.take(old(array)@.len() as int) == old(array)@
                &&& forall|i: int|
                    old(array)@.len() <= i < final(array)@.len() ==> (#[trigger] final(array)@[i])@
                        == item@ && !final(array)@[i].read_only
            },
            Err(e) => {
                &&& too_large(len, ctx.engine.max_array_size)
                &&& final(array)@ == old(array)@
                &&& e@ == crate::error::ErrorValue::DataTooLarge(
                    "Size of array"@,
                    Position::none(),
                )
            },
        },
{
    let limit: usize = ctx.engine().max_array_size();
    if len > 0 && ((limit > 0 && len as u64 > limit as u64) || len as u64 > usize::MAX as u64) {
        return Err(
            Box::new(
                EvalAltResult::ErrorDataTooLarge(String::from_str("Size of array"), Position::none()),
            ),
        );
    }
    if len > 0 && len as u64 > array.len() as u64 {
        let target: usize = len as usize;
        while array.len() < target
            invariant
                old(array)@.len() <= array@.len() <= target,
                array@.take(old(array)@.len() as int) == old(array)@,
                forall|i: int|
                    old(array)@.len() <= i < array@.len() ==> (#[trigger] array@[i])@ == item@
                        && !array@[i].read_only,
            decreases target - array@.len(),
        {
            array.push(item.clone());
        }
    }
    Ok(())
}

/// Takes the last item off the array and returns it; the unit value where
/// the array is empty.
pub fn pop(array: &mut Array) -> (res: Dynamic)
    ensures
        if old(array)@.len() > 0 {
            res == old(array)@.last() && final(array)@ == old(array)@.drop_last()
        } else {
            res == Dynamic::spec_unit() && final(array)@ == old(array)@
        },
{
    match array.pop() {
        Some(item) => item,
        None => Dynamic::unit(),
    }
}

/// Takes the first item off the array and returns it; the unit value where
/// the array is empty.
pub fn shift(array: &mut Array) -> (res: Dynamic)
    ensures
        if old(array)@.len() > 0 {
            res == old(array)@.first() && final(array)@ == old(array)@.drop_first()
        } else {
            res == Dynamic::spec_unit() && final(array)@ == old(array)@
        },
{
    if array.is_empty() {
        Dynamic::unit()
    } else {
        array.remove(0)
    }
}

/// Takes the item at index `len` out of the array and returns it; the unit
/// value where the array has no such item.
pub fn remove(array: &mut Array, len: INT) -> (res: Dynamic)
    ensures
        if 0 <= len < old(array)@.len() {
            res == old(array)@[len as int] && final(array)@ == old(array)@.remove(len as int)
        } else {
            res == Dynamic::spec_unit() && final(array)@ == old(array)@
        },
{
    if len < 0 || len as u64 >= array.len() as u64 {
        Dynamic::unit()
    } else {
        array.remove(len as usize)
    }
}

/// Empties the array.
pub fn clear(array: &mut Array)
    ensures
        final(array)@ == Seq::<Dynamic>::empty(),
{
    array.clear();
}

/// Cuts the array down to its first `len` items; to none for a negative
/// `len`. An array of `len` items or fewer stays as it is.
pub fn truncate(array: &mut Array, len: INT)
    ensures
        final(array)@ == if len < 0 {
            Seq::<Dynamic>::empty()
        } else if len < old(array)@.len() {
            old(array)@.take(len as int)
        } else {
            old(array)@
        },
{
    if len >= 0 {
        if (len as u64) < array.len() as u64 {
            array.truncate(len as usize);
        }
    } else {
        array.clear();
    }
}

/// Cuts the array down to its last `len` items. An array of `len` items or
/// fewer stays as it is, and so does any array for a negative `len`.
pub fn chop(array: &mut Array, len: INT)
    ensures
        final(array)@ == if 0 <= len < old(array)@.len() {
            old(array)@.skip(old(array)@.len() - len)
        } else {
            old(array)@
        },
{
    if len >= 0 && (len as u64) < array.len() as u64 {
        let cut: usize = array.len() - len as usize;
        let tail = array.split_off(cut);
        *array = tail;
    }
}

/// Turns the order of the items round.
pub fn reverse(array: &mut Array)
    ensures
        final(array)@ == old(array)@.reverse(),
{
    let mut turned: Array = Vec::with_capacity(array.len());
    while array.len() > 0
        invariant
            array@.len() <= old(array)@.len(),
            array@ == old(array)@.take(array@.len() as int),
            turned@.len() == old(array)@.len() - array@.len(),
            forall|j: int|
                0 <= j < turned@.len() ==> #[trigger] turned@[j] == old(array)@[old(array)@.len()
                    - 1 - j],
        decreases array@.len(),
    {
        match array.pop() {
            Some(item) => {
                turned.push(item);
            },
            None => {},
        }
    }
    *array = turned;
}

/// Puts the items of `replace` in the place of the range of `len` items at
/// `start`.
pub fn splice(array: &mut Array, start: INT, len: INT, replace: Array)
    requires
        old(array)@.len() > 0 || start < 0,
    ensures
        ({
            let first = range_start(start, old(array)@.len() as int);
            let count = range_len(len, old(array)@.len() - first);
            final(array)@ == old(array)@.take(first) + replace@ + old(array)@.skip(first + count)
        }),
{
    let (first, count) = range_of(array.len(), start, len);
    let mut replace = replace;
    let mut tail = array.split_off(first + count);
    array.truncate(first);
    array.append(&mut replace);
    array.append(&mut tail);
}

/// Copies of the items in the range of `len` items at `start`, which may be
/// written to. The array stays as it is.
pub fn extract(array: &mut Array, start: INT, len: INT) -> (res: Array)
    requires
        old(array)@.len() > 0 || start < 0,
    ensures
        final(array)@ == old(array)@,
        ({
            let first = range_start(start, old(array)@.len() as int);
            let count = range_len(len, old(array)@.len() - first);
            values(res@) == values(old(array)@.subrange(first, first + count))
        }),
        writable(res@),
{
    let (first, count) = range_of(array.len(), start, len);
    copy_range(array, first, first + count)
}

/// Copies of the items from `start` to the end, which may be written to.
/// The array stays as it is.
pub fn extract_tail(array: &mut Array, start: INT) -> (res: Array)
    requires
        old(array)@.len() > 0 || start < 0,
    ensures
        final(array)@ == old(array)@,
        values(res@) == values(old(array)@.skip(range_start(start, old(array)@.len() as int))),
        writable(res@),
{
    let first = start_of(array.len(), start);
    copy_range(array, first, array.len())
}

/// Cuts the array in two at `start` and returns the second part, leaving
/// the first: everything is returned for a `start` of zero or less, nothing
/// for one at or behind the end.
pub fn split_at(array: &mut Array, start: INT) -> (res: Array)
    ensures
        ({
            let cut = if start <= 0 {
                0
            } else if start >= old(array)@.len() {
                old(array)@.len() as int
            } else {
                start as int
            };
            final(array)@ == old(array)@.take(cut) && res@ == old(array)@.skip(cut)
        }),
{
    if start <= 0 {
        let mut res: Array = Vec::new();
        core::mem::swap(array, &mut res);
        res
    } else if start as u64 >= array.len() as u64 {
        Vec::new()
    } else {
        array.split_off(start as usize)
    }
}

/// Takes the range at `start` out of the array and returns it. Of a range
/// asked for with `len` items the last one stays in the array: `len - 1`
/// items leave, or as many as there are from `start` less one.
pub fn drain_range(array: &mut Array, start: INT, len: INT) -> (res: Array)
    requires
        old(array)@.len() > 0,
        len >= 1,
    ensures
        ({
            let first = range_start(start, old(array)@.len() as int);
            let count = range_len(len, old(array)@.len() - first);
            &&& res@ == old(array)@.subrange(first, first + count - 1)
            &&& final(array)@ == old(array)@.take(first) + old(array)@.skip(first + count - 1)
        }),
{
    let (first, count) = range_of(array.len(), start, len);
    let mut tail = array.split_off(first + count - 1);
    let res = array.split_off(first);
    array.append(&mut tail);
    res
}

/// Keeps in the array only the range of `len` items at `start` and returns
/// the others: those behind the range first, then those in front of it.
pub fn retain_range(array: &mut Array, start: INT, len: INT) -> (res: Array)
    requires
        old(array)@.len() > 0 || start < 0,
    ensures
        ({
            let first = range_start(start, old(array)@.len() as int);
            let count = range_len(len, old(array)@.len() - first);
            &&& res@ == old(array)@.skip(first + count) + old(array)@.take(first)
            &&& final(array)@ == old(array)@.subrange(first, first + count)
        }),
{
    let (first, count) = range_of(array.len(), start, len);
    let mut drained = array.split_off(first + count);
    let mut kept = array.split_off(first);
    drained.append(array);
    core::mem::swap(array, &mut kept);
    drained
}

} // verus!
