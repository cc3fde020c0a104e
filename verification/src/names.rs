//! Looking attribute names up in sequences of named items.

use vstd::prelude::*;
use crate::model::{AttributeTemplate, BoundProof, NamedCommitment, PredicateSpec, RevealedAttribute};

verus! {

/// An item that is found by the name of an attribute.
pub trait Named {
    /// The attribute's name, as a sequence of characters.
    spec fn name_view(&self) -> Seq<char>;

    /// The attribute's name.
    fn name(&self) -> (n: &String)
        ensures
            n@ == self.name_view(),
    ;
}

impl Named for AttributeTemplate {
    open spec fn name_view(&self) -> Seq<char> {
        self.name@
    }

    fn name(&self) -> (n: &String) {
        &self.name
    }
}

impl Named for PredicateSpec {
    open spec fn name_view(&self) -> Seq<char> {
        self.attribute@
    }

    fn name(&self) -> (n: &String) {
        &self.attribute
    }
}

impl Named for RevealedAttribute {
    open spec fn name_view(&self) -> Seq<char> {
        self.name@
    }

    fn name(&self) -> (n: &String) {
        &self.name
    }
}

impl Named for NamedCommitment {
    open spec fn name_view(&self) -> Seq<char> {
        self.name@
    }

    fn name(&self) -> (n: &String) {
        &self.name
    }
}

impl Named for BoundProof {
    open spec fn name_view(&self) -> Seq<char> {
        self.attribute@
    }

    fn name(&self) -> (n: &String) {
        &self.attribute
    }
}

/// One of the first `n` items bears `name`.
pub open spec fn occurs_within<T: Named>(items: Seq<T>, n: int, name: Seq<char>) -> bool {
    exists|j: int| 0 <= j < n && j < items.len() && (#[trigger] items[j]).name_view() == name
}

/// One of the items bears `name`.
pub open spec fn occurs<T: Named>(items: Seq<T>, name: Seq<char>) -> bool {
    occurs_within(items, items.len() as int, name)
}

/// No two items bear the same name.
pub open spec fn distinct<T: Named>(items: Seq<T>) -> bool {
    forall|i: int, j: int|
        0 <= i < j < items.len() ==> (#[trigger] items[i]).name_view() != (
        #[trigger] items[j]).name_view()
}

/// The first position among `items` at which `name` stands.
pub open spec fn is_first_position<T: Named>(items: Seq<T>, name: Seq<char>, i: int) -> bool {
    &&& 0 <= i < items.len()
    &&& items[i].name_view() == name
    &&& !occurs_within(items, i, name)
}

/// Finds the first of the first `n` items that bears `name`.
pub fn position_within<T: Named>(items: &Vec<T>, n: usize, name: &String) -> (found: Option<usize>)
    requires
        n <= items@.len(),
    ensures
        found is Some <==> occurs_within(items@, n as int, name@),
        found matches Some(i) ==> i < n && is_first_position(items@, name@, i as int),
{
    let mut i: usize = 0;
    while i < n
        invariant
            i <= n <= items@.len(),
            !occurs_within(items@, i as int, name@),
        decreases n - i,
    {
        if *items[i].name() == *name {
            return Some(i);
        }
        i = i + 1;
    }
    None
}

/// Finds the first item that bears `name`.
pub fn position<T: Named>(items: &Vec<T>, name: &String) -> (found: Option<usize>)
    ensures
        found is Some <==> occurs(items@, name@),
        found matches Some(i) ==> is_first_position(items@, name@, i as int),
{
    position_within(items, items.len(), name)
}

/// Whether no two items bear the same name.
pub fn all_distinct<T: Named>(items: &Vec<T>) -> (ok: bool)
    ensures
        ok == distinct(items@),
{
    let mut i: usize = 0;
    while i < items.len()
        invariant
            i <= items@.len(),
            forall|a: int, b: int|
                0 <= a < b < i ==> (#[trigger] items@[a]).name_view() != (
                #[trigger] items@[b]).name_view(),
        decreases items@.len() - i,
    {
        let earlier = position_within(items, i, items[i].name());
        if earlier.is_some() {
            return false;
        }
        assert(!occurs_within(items@, i as int, items@[i as int].name_view()));
        i = i + 1;
    }
    true
}

} // verus!
