//! Heterogeneous lists: cons cells convertible to and from plain tuples,
//! and type-indexed access into them. The index types make each lookup
//! unambiguous at compile time; each method returns exactly what its spec
//! function names.

use vstd::prelude::*;
use core::marker::PhantomData;

verus! {

/// A heterogeneous list cell: a head value and the rest of the list.
pub struct HCons<Head, Tail> {
    pub head: Head,
    pub tail: Tail,
}

/// A heterogeneous list convertible to the tuple of its elements.
pub trait HList: Sized {
    type Tuple;

    /// The tuple holding this list's elements in order.
    spec fn spec_flatten(self) -> Self::Tuple;

    fn flatten(self) -> (r: Self::Tuple)
        ensures
            r == self.spec_flatten(),
    ;
}

/// A tuple convertible to the heterogeneous list of its elements.
pub trait Tuple: Sized {
    type HList;

    /// The list holding this tuple's elements in order.
    spec fn spec_hlist(self) -> Self::HList;

    fn hlist(self) -> (r: Self::HList)
        ensures
            r == self.spec_hlist(),
    ;
}

impl HList for () {
    type Tuple = ();

    open spec fn spec_flatten(self) -> () {
        ()
    }

    fn flatten(self) -> (r: ()) {
    }
}

impl Tuple for () {
    type HList = ();

    open spec fn spec_hlist(self) -> () {
        ()
    }

    fn hlist(self) -> (r: ()) {
    }
}

impl<T1> HList for HCons<T1, ()> {
    type Tuple = (T1,);

    open spec fn spec_flatten(self) -> (T1,) {
        (self.head,)
    }

    fn flatten(self) -> (r: (T1,)) {
        (self.head,)
    }
}

impl<T1> Tuple for (T1,) {
    type HList = HCons<T1, ()>;

    open spec fn spec_hlist(self) -> HCons<T1, ()> {
        HCons { head: self.0, tail: () }
    }

    fn hlist(self) -> (r: HCons<T1, ()>) {
        HCons { head: self.0, tail: () }
    }
}

impl<T1, T2> HList for HCons<T1, HCons<T2, ()>> {
    type Tuple = (T1, T2);

    open spec fn spec_flatten(self) -> (T1, T2) {
        (self.head, self.tail.head)
    }

    fn flatten(self) -> (r: (T1, T2)) {
        (self.head, self.tail.head)
    }
}

impl<T1, T2> Tuple for (T1, T2) {
    type HList = HCons<T1, HCons<T2, ()>>;

    open spec fn spec_hlist(self) -> HCons<T1, HCons<T2, ()>> {
        HCons { head: self.0, tail: HCons { head: self.1, tail: () } }
    }

    fn hlist(self) -> (r: HCons<T1, HCons<T2, ()>>) {
        HCons { head: self.0, tail: HCons { head: self.1, tail: () } }
    }
}

impl<T1, T2, T3> HList for HCons<T1, HCons<T2, HCons<T3, ()>>> {
    type Tuple = (T1, T2, T3);

    open spec fn spec_flatten(self) -> (T1, T2, T3) {
        (self.head, self.tail.head, self.tail.tail.head)
    }

    fn flatten(self) -> (r: (T1, T2, T3)) {
        (self.head, self.tail.head, self.tail.tail.head)
    }
}

impl<T1, T2, T3> Tuple for (T1, T2, T3) {
    type HList = HCons<T1, HCons<T2, HCons<T3, ()>>>;

    open spec fn spec_hlist(self) -> HCons<T1, HCons<T2, HCons<T3, ()>>> {
        HCons {
            head: self.0,
            tail: HCons { head: self.1, tail: HCons { head: self.2, tail: () } },
        }
    }

    fn hlist(self) -> (r: HCons<T1, HCons<T2, HCons<T3, ()>>>) {
        HCons {
            head: self.0,
            tail: HCons { head: self.1, tail: HCons { head: self.2, tail: () } },
        }
    }
}

/// Picks one element out of a heterogeneous list by type, returning it
/// with the remainder of the list: no element is duplicated or lost.
pub trait Plucker<Target, Index>: Sized {
    type Remainder;

    /// The picked element and the remaining list.
    spec fn spec_pluck(self) -> (Target, Self::Remainder);

    fn pluck(self) -> (r: (Target, Self::Remainder))
        ensures
            r == self.spec_pluck(),
    ;
}

/// Borrows one element of a heterogeneous list of references by type.
pub trait PluckerRef<Target, Index>: Sized {
    /// The value the borrowed element holds.
    spec fn spec_plucked(&self) -> Target;

    fn pluck(&self) -> (r: &Target)
        ensures
            *r == self.spec_plucked(),
    ;
}

/// The index of the head position.
pub struct Here();

/// The index one position past `T`.
pub struct There<T>(PhantomData<T>);

impl<Target, Tail> Plucker<Target, Here> for HCons<Target, Tail> {
    type Remainder = Tail;

    open spec fn spec_pluck(self) -> (Target, Tail) {
        (self.head, self.tail)
    }

    fn pluck(self) -> (r: (Target, Tail)) {
        (self.head, self.tail)
    }
}

impl<'a, Target, Tail> PluckerRef<Target, Here> for HCons<&'a Target, Tail> {
    open spec fn spec_plucked(&self) -> Target {
        *self.head
    }

    fn pluck(&self) -> (r: &Target) {
        self.head
    }
}

impl<Target, Head, Tail, TailIndex> Plucker<Target, There<TailIndex>> for HCons<
    Head,
    Tail,
> where Tail: Plucker<Target, TailIndex> {
    type Remainder = HCons<Head, <Tail as Plucker<Target, TailIndex>>::Remainder>;

    open spec fn spec_pluck(self) -> (
        Target,
        HCons<Head, <Tail as Plucker<Target, TailIndex>>::Remainder>,
    ) {
        let t = self.tail.spec_pluck();
        (t.0, HCons { head: self.head, tail: t.1 })
    }

    fn pluck(self) -> (r: (Target, HCons<Head, <Tail as Plucker<Target, TailIndex>>::Remainder>)) {
        let (target, tail_remainder): (
            Target,
            <Tail as Plucker<Target, TailIndex>>::Remainder,
        ) = <Tail as Plucker<Target, TailIndex>>::pluck(self.tail);
        (target, HCons { head: self.head, tail: tail_remainder })
    }
}

impl<'a, Target, Head, Tail, TailIndex> PluckerRef<Target, There<TailIndex>> for HCons<
    &'a Head,
    Tail,
> where Tail: PluckerRef<Target, TailIndex> {
    open spec fn spec_plucked(&self) -> Target {
        self.tail.spec_plucked()
    }

    fn pluck(&self) -> (r: &Target) {
        <Tail as PluckerRef<Target, TailIndex>>::pluck(&self.tail)
    }
}

/// A heterogeneous list of references convertible to the tuple of its
/// elements.
pub trait HListRef<'a>: Sized {
    type Tuple;

    /// The tuple holding this list's elements in order.
    spec fn spec_flatten(&'a self) -> Self::Tuple;

    fn flatten(&'a self) -> (r: Self::Tuple)
        ensures
            r == self.spec_flatten(),
    ;
}

/// A tuple of references convertible to the heterogeneous list of its
/// elements.
pub trait TupleRef<'a>: Sized {
    type HList;

    /// The list holding this tuple's elements in order.
    spec fn spec_hlist(&'a self) -> Self::HList;

    fn hlist(&'a self) -> (r: Self::HList)
        ensures
            r == self.spec_hlist(),
    ;
}

impl<'a> HListRef<'a> for () {
    type Tuple = ();

    open spec fn spec_flatten(&'a self) -> () {
        ()
    }

    fn flatten(&'a self) -> (r: ()) {
    }
}

impl<'a> TupleRef<'a> for () {
    type HList = ();

    open spec fn spec_hlist(&'a self) -> () {
        ()
    }

    fn hlist(&'a self) -> (r: ()) {
    }
}

impl<'a, T1> HListRef<'a> for HCons<&'a T1, ()> {
    type Tuple = (&'a T1,);

    open spec fn spec_flatten(&'a self) -> (&'a T1,) {
        (self.head,)
    }

    fn flatten(&'a self) -> (r: (&'a T1,)) {
        (self.head,)
    }
}

impl<'a, T1> TupleRef<'a> for (&'a T1,) {
    type HList = HCons<&'a T1, ()>;

    open spec fn spec_hlist(&'a self) -> HCons<&'a T1, ()> {
        HCons { head: self.0, tail: () }
    }

    fn hlist(&'a self) -> (r: HCons<&'a T1, ()>) {
        HCons { head: self.0, tail: () }
    }
}

impl<'a, T1, T2> HListRef<'a> for HCons<&'a T1, HCons<&'a T2, ()>> {
    type Tuple = (&'a T1, &'a T2);

    open spec fn spec_flatten(&'a self) -> (&'a T1, &'a T2) {
        (self.head, self.tail.head)
    }

    fn flatten(&'a self) -> (r: (&'a T1, &'a T2)) {
        (self.head, self.tail.head)
    }
}

impl<'a, T1, T2> TupleRef<'a> for (&'a T1, &'a T2) {
    type HList = HCons<&'a T1, HCons<&'a T2, ()>>;

    open spec fn spec_hlist(&'a self) -> HCons<&'a T1, HCons<&'a T2, ()>> {
        HCons { head: self.0, tail: HCons { head: self.1, tail: () } }
    }

    fn hlist(&'a self) -> (r: HCons<&'a T1, HCons<&'a T2, ()>>) {
        HCons { head: self.0, tail: HCons { head: self.1, tail: () } }
    }
}

} // verus!
