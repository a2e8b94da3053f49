use vstd::prelude::*;
use std::collections::HashMap;

verus! {

/// The payload stored under a cache key: a single value, an ordered
/// list of values, or a string-keyed table of values.
///
/// A single cache instance can hold entries of all three shapes at
/// once; callers pattern-match on the shape they read back.
#[derive(Debug, Clone, PartialEq)]
pub enum Entry<V> {
    Value(V),
    List(Vec<V>),
    Table(HashMap<String, V>),
}

/// The mathematical shape of an [`Entry`]: the list becomes a sequence
/// and the table becomes a finite map.
pub enum EntryModel<V> {
    Value(V),
    List(Seq<V>),
    Table(Map<String, V>),
}

impl<V> View for Entry<V> {
    type V = EntryModel<V>;

    open spec fn view(&self) -> EntryModel<V> {
        match self {
            Entry::Value(v) => EntryModel::Value(*v),
            Entry::List(items) => EntryModel::List(items@),
            Entry::Table(table) => EntryModel::Table(table@),
        }
    }
}

/// Holds when `b` could have been produced by cloning `a`, shape by
/// shape: the shapes agree, and every contained value is related by
/// [`cloned`], the possible input/output relation of `V::clone`.
pub open spec fn entry_cloned<V: Clone>(a: EntryModel<V>, b: EntryModel<V>) -> bool {
    match (a, b) {
        (EntryModel::Value(x), EntryModel::Value(y)) => cloned::<V>(x, y),
        (EntryModel::List(xs), EntryModel::List(ys)) => {
            &&& xs.len() == ys.len()
            &&& forall|i: int| 0 <= i < xs.len() ==> cloned::<V>(xs[i], #[trigger] ys[i])
        },
        (EntryModel::Table(xm), EntryModel::Table(ym)) => {
            &&& xm.dom() == ym.dom()
            &&& forall|k: String| #[trigger] xm.contains_key(k) ==> cloned::<V>(xm[k], ym[k])
        },
        _ => false,
    }
}

/// Holds when every possible result of `V::clone` equals its input, so
/// a clone of a value can stand in for the value itself.
pub open spec fn clones_are_equal<V: Clone>() -> bool {
    forall|a: V, b: V| #[trigger] cloned::<V>(a, b) ==> a == b
}

/// When `V::clone` preserves equality, an entry related to another by
/// [`entry_cloned`] is that entry.
pub proof fn lemma_entry_cloned_equal<V: Clone>(a: EntryModel<V>, b: EntryModel<V>)
    requires
        clones_are_equal::<V>(),
        entry_cloned(a, b),
    ensures
        a == b,
{
    match (a, b) {
        (EntryModel::List(xs), EntryModel::List(ys)) => {
            assert(xs =~= ys);
        },
        (EntryModel::Table(xm), EntryModel::Table(ym)) => {
            assert(xm =~= ym);
        },
        _ => {},
    }
}

/// `String::clone` returns its input unchanged, so `String` values can
/// be cached and read back without loss.
pub proof fn lemma_string_clones_are_equal()
    ensures
        clones_are_equal::<String>(),
{
    assert forall|a: String, b: String| #[trigger] cloned::<String>(a, b) implies a == b by {
    }
}

} // verus!
