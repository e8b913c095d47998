//! Layout of the file-system blob store: one file per key under a root directory.
use vstd::prelude::*;

verus! {

/// The file holding `key` under `root`: `<root>/<key>.bin`.
pub open spec fn blob_path(root: Seq<char>, key: Seq<char>) -> Seq<char> {
    root + seq!['/'] + key + seq!['.', 'b', 'i', 'n']
}

/// File-system blob store rooted at a directory.
#[derive(Clone)]
pub struct DetailMem {
    root: String,
}

impl DetailMem {
    /// The root directory.
    pub closed spec fn root_dir(&self) -> Seq<char> {
        self.root@
    }

    /// A store rooted at `root`.
    pub fn new(root: String) -> (r: Self)
        ensures
            r.root_dir() == root@,
    {
        DetailMem { root }
    }

    /// The root directory.
    pub fn root(&self) -> (r: &String)
        ensures
            r@ == self.root_dir(),
    {
        &self.root
    }

    /// Path of the file that holds `key`.
    pub fn file_path(&self, key: &str) -> (r: String)
        ensures
            r@ == blob_path(self.root_dir(), key@),
    {
        let mut path = self.root.clone();
        path.append("/");
        path.append(key);
        path.append(".bin");
        proof {
            reveal_strlit("/");
            reveal_strlit(".bin");
        }
        assert(path@ =~= blob_path(self.root@, key@));
        path
    }
}

} // verus!
