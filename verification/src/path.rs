//! Paths, as far as the shell composes them. A path that the system hands out is carried through
//! as a value of some type `P`: it need not be text.

use vstd::prelude::*;

verus! {

/// The entry `name` of the directory `base`.
#[derive(Debug)]
pub struct ChildPath<P> {
    pub base: P,
    pub name: String,
}

impl<P> ChildPath<P> {
    /// Whether this is the entry `name` of `base`.
    pub open spec fn is_entry(self, base: P, name: Seq<char>) -> bool {
        self.base == base && self.name@ == name
    }
}

/// An entry is told by its directory and its name: two paths that are the same entry of the same
/// directory agree in both, and one path is an entry under one name only.
pub proof fn law_entry_is_directory_and_name<P>(
    path: ChildPath<P>,
    base: P,
    name: Seq<char>,
    other: Seq<char>,
)
    ensures
        path.is_entry(path.base, path.name@),
        path.is_entry(base, name) ==> path.base == base && path.name@ == name,
        path.is_entry(base, name) && path.is_entry(base, other) ==> name == other,
{
}

} // verus!
