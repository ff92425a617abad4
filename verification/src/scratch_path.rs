//! Paths below the scratch space.
use vstd::prelude::*;

verus! {

/// A path, given by the parts that are joined one after the other to the root
/// of the scratch space.
#[derive(Debug)]
pub struct ScratchPath {
    pub parts: Vec<String>,
}

impl DeepView for ScratchPath {
    type V = Seq<Seq<char>>;

    /// The parts that are joined to the root.
    open spec fn deep_view(&self) -> Seq<Seq<char>> {
        self.parts.deep_view()
    }
}

impl ScratchPath {
    /// The root of the scratch space itself.
    pub fn root() -> (path: ScratchPath)
        ensures
            path.deep_view() == Seq::<Seq<char>>::empty(),
    {
        let path = ScratchPath { parts: Vec::new() };
        assert(path.deep_view() =~= Seq::<Seq<char>>::empty());
        path
    }

    /// Joins one more part.
    pub fn push(&mut self, part: &str)
        ensures
            final(self).deep_view() == old(self).deep_view().push(part@),
    {
        self.parts.push(part.to_owned());
        assert(self.deep_view() =~= old(self).deep_view().push(part@));
    }

    /// The path with one more part joined to it.
    pub fn join(&self, part: &str) -> (path: ScratchPath)
        ensures
            path.deep_view() == self.deep_view().push(part@),
    {
        let mut path = self.clone();
        path.push(part);
        path
    }
}

impl Clone for ScratchPath {
    fn clone(&self) -> (path: Self)
        ensures
            path.deep_view() == self.deep_view(),
    {
        let mut path = ScratchPath::root();
        let mut i: usize = 0;
        while i < self.parts.len()
            invariant
                i <= self.parts@.len(),
                path.deep_view() =~= self.deep_view().take(i as int),
            decreases self.parts@.len() - i,
        {
            path.push(self.parts[i].as_str());
            i += 1;
        }
        assert(self.deep_view().take(i as int) =~= self.deep_view());
        path
    }
}

} // verus!
