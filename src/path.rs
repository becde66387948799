use vstd::prelude::*;

verus! {

/// What an absolute path is: the anchor it hangs from (the filesystem root as
/// this system writes it) and the names below it, outermost first.
pub struct PathModel {
    pub anchor: Seq<char>,
    pub parts: Seq<Seq<char>>,
}

impl PathModel {
    /// The directory `depth` names below the anchor on the way to this path.
    pub open spec fn ancestor(self, depth: nat) -> PathModel {
        PathModel { anchor: self.anchor, parts: self.parts.take(depth as int) }
    }

    /// The entry `name` inside this directory.
    pub open spec fn child(self, name: Seq<char>) -> PathModel {
        PathModel { anchor: self.anchor, parts: self.parts.push(name) }
    }

    /// This path lies at or below `dir`.
    pub open spec fn is_within(self, dir: PathModel) -> bool {
        &&& self.anchor == dir.anchor
        &&& dir.parts.len() <= self.parts.len()
        &&& self.parts.take(dir.parts.len() as int) == dir.parts
    }
}

/// The character sequences held by a list of strings.
pub open spec fn texts(v: Seq<String>) -> Seq<Seq<char>> {
    v.map_values(|s: String| s@)
}

/// An absolute filesystem path, held as plain strings.
pub struct FsPath {
    pub anchor: String,
    pub parts: Vec<String>,
}

impl View for FsPath {
    type V = PathModel;

    open spec fn view(&self) -> PathModel {
        PathModel { anchor: self.anchor@, parts: texts(self.parts@) }
    }
}

impl FsPath {
    /// The directory `depth` names below the anchor on the way to this path.
    pub fn ancestor(&self, depth: usize) -> (r: FsPath)
        requires
            depth <= self.parts@.len(),
        ensures
            r@ == self@.ancestor(depth as nat),
    {
        let mut parts: Vec<String> = Vec::new();
        let mut i: usize = 0;
        while i < depth
            invariant
                i <= depth <= self.parts@.len(),
                parts@.len() == i,
                forall|j: int| 0 <= j < i ==> #[trigger] parts@[j]@ == self.parts@[j]@,
            decreases depth - i,
        {
            parts.push(self.parts[i].clone());
            i = i + 1;
        }
        let r = FsPath { anchor: self.anchor.clone(), parts };
        assert(r@.parts =~= self@.parts.take(depth as int));
        r
    }

    /// A copy of this path.
    pub fn duplicate(&self) -> (r: FsPath)
        ensures
            r@ == self@,
    {
        let r = self.ancestor(self.parts.len());
        assert(r@.parts =~= self@.parts);
        r
    }

    /// The entry `name` inside this directory.
    pub fn join(&self, name: &str) -> (r: FsPath)
        ensures
            r@ == self@.child(name@),
    {
        let mut r = self.duplicate();
        r.parts.push(String::from_str(name));
        assert(r@.parts =~= self@.parts.push(name@));
        r
    }
}

} // verus!
