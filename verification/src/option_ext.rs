//! Option combinators that pair a value with a derived one.

use vstd::prelude::*;

verus! {

/// Falls back to the type's default when no value is present.
pub trait OptionExtDefault<T> {
    fn or_default(self) -> T;
}

impl<T: Default> OptionExtDefault<T> for Option<T> {
    fn or_default(self) -> (r: T)
        ensures
            self matches Some(v) ==> r == v,
            self is None ==> call_ensures(T::default, (), r),
    {
        match self {
            Some(v) => v,
            None => Default::default(),
        }
    }
}

/// Swaps a pair's components.
pub fn flip_tuple<A, B>(tup: (A, B)) -> (r: (B, A))
    ensures
        r.0 == tup.1,
        r.1 == tup.0,
{
    let (a, b) = tup;
    (b, a)
}

/// Pairs an Option's value with a second value derived from it, in
/// either component order.
pub trait OptionExtTup<T>: Sized {
    /// The optional value the combinators run on.
    spec fn tup_value(self) -> Option<T>;

    fn and_then_tup<F, Ret>(self, f: F) -> (r: Option<(T, Ret)>) where F: FnOnce(&T) -> Option<Ret>
        requires
            self.tup_value() matches Some(v) ==> call_requires(f, (&v,)),
        ensures
            self.tup_value() is None ==> r is None,
            self.tup_value() matches Some(v) ==> match r {
                Some(pair) => pair.0 == v && call_ensures(f, (&v,), Some(pair.1)),
                None => call_ensures(f, (&v,), None::<Ret>),
            },
    ;

    fn and_then_tup_flipped<F, Ret>(self, f: F) -> (r: Option<(Ret, T)>) where F: FnOnce(
        &T,
    ) -> Option<Ret>
        requires
            self.tup_value() matches Some(v) ==> call_requires(f, (&v,)),
        ensures
            self.tup_value() is None ==> r is None,
            self.tup_value() matches Some(v) ==> match r {
                Some(pair) => pair.1 == v && call_ensures(f, (&v,), Some(pair.0)),
                None => call_ensures(f, (&v,), None::<Ret>),
            },
    ;

    fn and_tup<Ret>(self, v: Option<Ret>) -> (r: Option<(T, Ret)>)
        ensures
            r == match (self.tup_value(), v) {
                (Some(a), Some(b)) => Some((a, b)),
                _ => None::<(T, Ret)>,
            },
    ;

    fn and_tup_flipped<Ret>(self, v: Option<Ret>) -> (r: Option<(Ret, T)>)
        ensures
            r == match (self.tup_value(), v) {
                (Some(a), Some(b)) => Some((b, a)),
                _ => None::<(Ret, T)>,
            },
    ;
}

impl<T> OptionExtTup<T> for Option<T> {
    open spec fn tup_value(self) -> Option<T> {
        self
    }

    fn and_then_tup<F, Ret>(self, f: F) -> (r: Option<(T, Ret)>) where F: FnOnce(
        &T,
    ) -> Option<Ret> {
        match self {
            None => None,
            Some(a) => match f(&a) {
                Some(b) => Some((a, b)),
                None => None,
            },
        }
    }

    fn and_then_tup_flipped<F, Ret>(self, f: F) -> (r: Option<(Ret, T)>) where F: FnOnce(
        &T,
    ) -> Option<Ret> {
        match self {
            None => None,
            Some(a) => match f(&a) {
                Some(b) => Some((b, a)),
                None => None,
            },
        }
    }

    fn and_tup<Ret>(self, v: Option<Ret>) -> (r: Option<(T, Ret)>) {
        match self {
            None => None,
            Some(a) => match v {
                Some(b) => Some((a, b)),
                None => None,
            },
        }
    }

    fn and_tup_flipped<Ret>(self, v: Option<Ret>) -> (r: Option<(Ret, T)>) {
        match self {
            None => None,
            Some(a) => match v {
                Some(b) => Some((b, a)),
                None => None,
            },
        }
    }
}

} // verus!
