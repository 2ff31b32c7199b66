//! Paths as sequences of components.

use vstd::prelude::*;

verus! {

/// A path, held as its components from the outermost inwards.
///
/// Two paths are the same path when they have the same components in the
/// same order; nothing is normalised and nothing is looked up on a disk.
#[derive(Debug, PartialEq, Eq)]
pub struct NbPath {
    components: Vec<String>,
}

impl View for NbPath {
    type V = Seq<Seq<char>>;

    closed spec fn view(&self) -> Seq<Seq<char>> {
        self.components.deep_view()
    }
}

impl Clone for NbPath {
    fn clone(&self) -> (r: Self)
        ensures
            r@ == self@,
    {
        NbPath { components: self.components.clone() }
    }
}

impl NbPath {
    /// The path with the given components.
    pub fn new(components: Vec<String>) -> (r: NbPath)
        ensures
            r@ == components.deep_view(),
    {
        NbPath { components }
    }

    /// The components, outermost first.
    pub fn components(&self) -> (r: &Vec<String>)
        ensures
            r.deep_view() == self@,
    {
        &self.components
    }

    /// The number of components.
    pub fn len(&self) -> (r: usize)
        ensures
            r == self@.len(),
    {
        self.components.len()
    }

    /// This path with `name` added as its last component.
    pub fn join(&self, name: &str) -> (r: NbPath)
        ensures
            r@ == self@.push(name@),
    {
        let mut components = self.components.clone();
        components.push(name.to_owned());
        assert(components.deep_view() =~= self@.push(name@));
        NbPath { components }
    }

    /// Whether `base` is this path or one of its ancestors, component by
    /// component.
    pub fn starts_with(&self, base: &NbPath) -> (r: bool)
        ensures
            r == base@.is_prefix_of(self@),
    {
        if base.components.len() > self.components.len() {
            return false;
        }
        let mut i: usize = 0;
        while i < base.components.len()
            invariant
                i <= base.components.len() <= self.components.len(),
                forall|j: int| 0 <= j < i ==> base@[j] == self@[j],
            decreases base.components.len() - i,
        {
            if base.components[i] != self.components[i] {
                assert(base@[i as int] != self@[i as int]);
                return false;
            }
            i += 1;
        }
        assert(base@ =~= self@.subrange(0, base@.len() as int));
        true
    }

    /// The last component, if there is one.
    pub fn file_name(&self) -> (r: Option<String>)
        ensures
            match r {
                Some(name) => self@.len() > 0 && name@ == self@.last(),
                None => self@.len() == 0,
            },
    {
        let n = self.components.len();
        if n == 0 {
            None
        } else {
            Some(self.components[n - 1].clone())
        }
    }

    /// Whether the two paths have the same components.
    pub fn equals(&self, other: &NbPath) -> (r: bool)
        ensures
            r == (self@ == other@),
    {
        if self.components.len() != other.components.len() {
            assert(self@.len() != other@.len());
            return false;
        }
        let mut i: usize = 0;
        while i < self.components.len()
            invariant
                i <= self.components.len() == other.components.len(),
                forall|j: int| 0 <= j < i ==> self@[j] == other@[j],
            decreases self.components.len() - i,
        {
            if self.components[i] != other.components[i] {
                assert(self@[i as int] != other@[i as int]);
                return false;
            }
            i += 1;
        }
        assert(self@ =~= other@);
        true
    }
}

} // verus!
