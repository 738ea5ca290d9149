//! Small helpers for optional settings.

use vstd::prelude::*;

verus! {

/// The characters of an optional string.
pub open spec fn opt_text(o: Option<String>) -> Option<Seq<char>> {
    match o {
        Some(s) => Some(s@),
        None => None,
    }
}

/// The characters of `o` where it is given, `fallback` otherwise.
pub open spec fn text_or(o: Option<String>, fallback: Seq<char>) -> Seq<char> {
    match o {
        Some(s) => s@,
        None => fallback,
    }
}

/// The value of `o` where it is given, `fallback` otherwise.
pub open spec fn value_or<T>(o: Option<T>, fallback: T) -> T {
    match o {
        Some(v) => v,
        None => fallback,
    }
}

/// An optional string where `o` is given, `fallback` otherwise.
pub open spec fn opt_text_or(o: Option<String>, fallback: Option<Seq<char>>) -> Option<Seq<char>> {
    match o {
        Some(s) => Some(s@),
        None => fallback,
    }
}

/// An optional value where `o` is given, `fallback` otherwise.
pub open spec fn opt_value_or<T>(o: Option<T>, fallback: Option<T>) -> Option<T> {
    match o {
        Some(v) => Some(v),
        None => fallback,
    }
}

/// A copy of an optional string.
pub fn clone_opt_text(o: &Option<String>) -> (r: Option<String>)
    ensures
        r == *o,
{
    match o {
        Some(s) => Some(s.clone()),
        None => None,
    }
}

/// A copy of `o` where it is given, `fallback` otherwise.
pub fn pick_text(o: &Option<String>, fallback: String) -> (r: String)
    ensures
        r@ == text_or(*o, fallback@),
{
    match o {
        Some(s) => s.clone(),
        None => fallback,
    }
}

/// The value of `o` where it is given, `fallback` otherwise.
pub fn pick<T: Copy>(o: &Option<T>, fallback: T) -> (r: T)
    ensures
        r == value_or(*o, fallback),
{
    match o {
        Some(v) => *v,
        None => fallback,
    }
}

/// A copy of `o` where it is given, `fallback` otherwise.
pub fn pick_opt_text(o: &Option<String>, fallback: Option<String>) -> (r: Option<String>)
    ensures
        opt_text(r) == opt_text_or(*o, opt_text(fallback)),
{
    match o {
        Some(s) => Some(s.clone()),
        None => fallback,
    }
}

/// `o` where it is given, `fallback` otherwise.
pub fn pick_opt<T: Copy>(o: &Option<T>, fallback: Option<T>) -> (r: Option<T>)
    ensures
        r == opt_value_or(*o, fallback),
{
    match o {
        Some(v) => Some(*v),
        None => fallback,
    }
}

} // verus!
