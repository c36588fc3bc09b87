//! Named, typed attribute values as the scene description stores them.
//!
//! An attribute list is an ordered sequence of `(name, value)` pairs.
//! Within one list a later entry for the same name shadows an earlier
//! one (last write wins), which [`last_value`] makes precise.

use vstd::prelude::*;

verus! {

/// A value a node attribute can hold.
///
/// The scene description stores integers, single-precision values and
/// strings. Single-precision values are carried here as their raw
/// IEEE 754 bit patterns, so that the composition logic stays within
/// integer arithmetic; the executor that hands the plan to the renderer
/// reinterprets them.
#[derive(Debug, Clone, PartialEq, Eq)]
pub enum AttrValue {
    /// An integer value.
    Int(i32),
    /// A single-precision value, held as its bit pattern.
    Float(u32),
    /// A single-precision value given in stops: the linear value written
    /// to the renderer is two raised to the held value (itself a
    /// single-precision bit pattern).
    Stops(u32),
    /// A string value.
    Str(String),
}

/// One `(name, value)` entry of an attribute list.
#[derive(Debug, Clone, PartialEq, Eq)]
pub struct Attr {
    pub name: String,
    pub value: AttrValue,
}

/// The value the entries of `attrs` leave under `name` once every entry
/// has been written in order: the last entry for `name` wins, `None`
/// when no entry carries the name.
pub open spec fn last_value(attrs: Seq<Attr>, name: Seq<char>) -> Option<AttrValue>
    decreases attrs.len(),
{
    if attrs.len() == 0 {
        None
    } else if attrs.last().name@ == name {
        Some(attrs.last().value)
    } else {
        last_value(attrs.drop_last(), name)
    }
}

/// Writing `a` and then `b` leaves under `name` what `b` leaves, unless
/// `b` never writes the name, in which case what `a` leaves stands.
pub proof fn lemma_last_value_concat(a: Seq<Attr>, b: Seq<Attr>, name: Seq<char>)
    ensures
        last_value(a + b, name) == (if last_value(b, name) is Some {
            last_value(b, name)
        } else {
            last_value(a, name)
        }),
    decreases b.len(),
{
    if b.len() == 0 {
        assert(a + b =~= a);
    } else {
        assert((a + b).drop_last() =~= a + b.drop_last());
        lemma_last_value_concat(a, b.drop_last(), name);
    }
}

/// Appending one entry rewrites exactly that entry's name.
pub proof fn lemma_last_value_push(s: Seq<Attr>, a: Attr, name: Seq<char>)
    ensures
        last_value(s.push(a), name) == (if a.name@ == name {
            Some(a.value)
        } else {
            last_value(s, name)
        }),
{
    assert(s.push(a).drop_last() =~= s);
}

/// An independent copy of a value.
pub fn copy_value(v: &AttrValue) -> (r: AttrValue)
    ensures
        r == *v,
{
    match v {
        AttrValue::Int(i) => AttrValue::Int(*i),
        AttrValue::Float(b) => AttrValue::Float(*b),
        AttrValue::Stops(b) => AttrValue::Stops(*b),
        AttrValue::Str(s) => AttrValue::Str(s.clone()),
    }
}

} // verus!
