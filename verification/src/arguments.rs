//! What flags and parameters have in common: two names to be found by, and
//! the lookups over them.

use vstd::prelude::*;
use crate::model::NameKind;
use crate::text::{
    first_index, index_spec, lemma_first_index_absent, lemma_first_index_found, str_eq,
};

verus! {

/// A declaration with a short name, a long name and a description.
pub trait Argument {
    /// The name of the given kind, as characters.
    spec fn name_spec(&self, by: NameKind) -> Seq<char>;

    /// The description, as characters.
    spec fn description_spec(&self) -> Seq<char>;

    /// The name matched after two dashes. Empty if the declaration has none.
    fn long_name(&self) -> (name: &str)
        ensures
            name@ == self.name_spec(NameKind::Long),
    ;

    /// The name matched after one dash. Empty if the declaration has none.
    fn short_name(&self) -> (name: &str)
        ensures
            name@ == self.name_spec(NameKind::Short),
    ;

    /// One line that says what the argument is for.
    fn description(&self) -> (text: &str)
        ensures
            text@ == self.description_spec(),
    ;
}

/// The names of the given kind, in declaration order.
pub open spec fn names<T: Argument>(arguments: Seq<T>, by: NameKind) -> Seq<Seq<char>> {
    Seq::new(arguments.len(), |i: int| arguments[i].name_spec(by))
}

/// The first of `arguments` whose long name is exactly `name`.
pub fn find_by_long_name<T: Argument>(arguments: &[T], name: &str) -> (found: Option<usize>)
    ensures
        index_spec(found) == first_index(names(arguments@, NameKind::Long), name@),
{
    let ghost all = names(arguments@, NameKind::Long);
    let mut i: usize = 0;
    while i < arguments.len()
        invariant
            i <= arguments@.len(),
            all == names(arguments@, NameKind::Long),
            forall|j: int| 0 <= j < i ==> all[j] != name@,
        decreases arguments@.len() - i,
    {
        if str_eq(arguments[i].long_name(), name) {
            proof {
                lemma_first_index_found(all, name@, i as int);
            }
            return Some(i);
        }
        i = i + 1;
    }
    proof {
        lemma_first_index_absent(all, name@);
    }
    None
}

/// The first of `arguments` whose short name is exactly `name`.
pub fn find_by_short_name<T: Argument>(arguments: &[T], name: &str) -> (found: Option<usize>)
    ensures
        index_spec(found) == first_index(names(arguments@, NameKind::Short), name@),
{
    let ghost all = names(arguments@, NameKind::Short);
    let mut i: usize = 0;
    while i < arguments.len()
        invariant
            i <= arguments@.len(),
            all == names(arguments@, NameKind::Short),
            forall|j: int| 0 <= j < i ==> all[j] != name@,
        decreases arguments@.len() - i,
    {
        if str_eq(arguments[i].short_name(), name) {
            proof {
                lemma_first_index_found(all, name@, i as int);
            }
            return Some(i);
        }
        i = i + 1;
    }
    proof {
        lemma_first_index_absent(all, name@);
    }
    None
}

} // verus!
