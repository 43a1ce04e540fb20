use vstd::prelude::*;

verus! {

/// A fully qualified name, held as the ordered sequence of its path segments
/// (for example `std`, `thread`, `sleep`). Two paths denote the same item
/// exactly when every segment agrees; the registry match below never accepts
/// a prefix, suffix or substring in place of the whole path.
#[derive(Clone, Debug, PartialEq, Eq)]
pub struct TypePath {
    pub segments: Vec<String>,
}

impl View for TypePath {
    type V = Seq<Seq<char>>;

    open spec fn view(&self) -> Seq<Seq<char>> {
        self.segments.deep_view()
    }
}

impl DeepView for TypePath {
    type V = Seq<Seq<char>>;

    open spec fn deep_view(&self) -> Seq<Seq<char>> {
        self.view()
    }
}

/// The path of the thread-sleep primitive, the one entry the registry starts
/// from.
pub open spec fn thread_sleep_path() -> Seq<Seq<char>> {
    seq!["std"@, "thread"@, "sleep"@]
}

impl TypePath {
    pub fn new(segments: Vec<String>) -> (path: TypePath)
        ensures
            path@ == segments.deep_view(),
    {
        TypePath { segments }
    }

    /// The fully qualified name of the standard library's thread-sleep
    /// primitive, which blocks the calling thread for a duration.
    pub fn thread_sleep() -> (path: TypePath)
        ensures
            path@ == thread_sleep_path(),
    {
        let mut segments: Vec<String> = Vec::new();
        segments.push(String::from_str("std"));
        segments.push(String::from_str("thread"));
        segments.push(String::from_str("sleep"));
        let path = TypePath { segments };
        proof {
            assert(path@ =~= thread_sleep_path());
        }
        path
    }

    /// Exact comparison: two paths are the same name precisely when they have
    /// the same number of segments and every segment is equal.
    pub fn equals(&self, other: &TypePath) -> (r: bool)
        ensures
            r == (self@ == other@),
    {
        let n: usize = self.segments.len();
        if n != other.segments.len() {
            proof {
                assert(self@.len() == self.segments@.len());
                assert(other@.len() == other.segments@.len());
            }
            return false;
        }
        let mut i: usize = 0;
        while i < n
            invariant
                0 <= i <= n,
                n == self.segments.len(),
                n == other.segments.len(),
                forall|j: int| 0 <= j < i ==> self@[j] == other@[j],
            decreases n - i,
        {
            if !self.segments[i].eq(&other.segments[i]) {
                proof {
                    assert(self@[i as int] == self.segments@[i as int]@);
                    assert(other@[i as int] == other.segments@[i as int]@);
                }
                return false;
            }
            i = i + 1;
        }
        proof {
            assert(self@ =~= other@);
        }
        true
    }
}

/// The immutable registry of fully qualified names known to block the calling
/// thread. It is built once, before any body is analyzed, and only read
/// afterwards.
#[derive(Clone, Debug, PartialEq, Eq)]
pub struct BlockingPrimitiveSet {
    pub entries: Vec<TypePath>,
}

impl View for BlockingPrimitiveSet {
    type V = Seq<Seq<Seq<char>>>;

    open spec fn view(&self) -> Seq<Seq<Seq<char>>> {
        self.entries.deep_view()
    }
}

impl BlockingPrimitiveSet {
    pub fn new(entries: Vec<TypePath>) -> (registry: BlockingPrimitiveSet)
        ensures
            registry@ == entries.deep_view(),
    {
        BlockingPrimitiveSet { entries }
    }

    /// The registry in its initial configuration: the thread-sleep primitive
    /// is its only entry. Further blocking primitives (for example lock-guard
    /// types) are added by building the registry from a longer entry list; the
    /// matching logic never changes.
    pub fn thread_sleep_only() -> (registry: BlockingPrimitiveSet)
        ensures
            registry@ == seq![thread_sleep_path()],
    {
        let mut entries: Vec<TypePath> = Vec::new();
        entries.push(TypePath::thread_sleep());
        let registry = BlockingPrimitiveSet { entries };
        proof {
            assert(registry@ =~= seq![thread_sleep_path()]);
        }
        registry
    }
}

} // verus!
