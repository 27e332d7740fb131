use vstd::prelude::*;
use crate::name::Name;

verus! {

/// A set of names, held by their bytes. Backed by a hash set from an outside
/// crate, so its contents are known only through the trusted contracts below.
#[verifier::external_body]
pub(crate) struct NameSet {
    set: rustc_hash::FxHashSet<Vec<u8>>,
}

/// What a `NameSet` holds: the byte strings of the names inserted so far.
pub uninterp spec fn name_set_contents(s: NameSet) -> Set<Seq<u8>>;

impl NameSet {
    /// An empty set.
    ///
    /// Relies on `rustc_hash::FxHashSet::default`: the new set holds nothing.
    #[verifier::external_body]
    pub(crate) fn new() -> (s: NameSet)
        ensures
            name_set_contents(s) == Set::<Seq<u8>>::empty(),
    {
        NameSet { set: rustc_hash::FxHashSet::default() }
    }

    /// Adds a name to the set.
    ///
    /// Relies on `std::collections::HashSet::insert`: after the call the set
    /// holds the given value beside everything it held before.
    #[verifier::external_body]
    pub(crate) fn insert(&mut self, n: &Name)
        ensures
            name_set_contents(*final(self)) == name_set_contents(*old(self)).insert(n@),
    {
        self.set.insert(n.as_bytes().clone());
    }

    /// Whether the set holds a name with these bytes.
    ///
    /// Relies on `std::collections::HashSet::contains`: membership goes by
    /// `Eq` on the stored byte strings.
    #[verifier::external_body]
    pub(crate) fn contains(&self, n: &Name) -> (r: bool)
        ensures
            r == name_set_contents(*self).contains(n@),
    {
        self.set.contains(n.as_bytes())
    }
}

} // verus!
