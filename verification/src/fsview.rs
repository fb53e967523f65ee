//! An explicit model of the part of the file system the session touches.
//!
//! The library never reads the disk itself. The caller probes the few paths
//! the configuration can name — the executable and any platform-description
//! files — and hands the findings in as an [`FsSnapshot`]. A path that is
//! absent from the snapshot counts as missing.

use vstd::prelude::*;

verus! {

/// What probing one file yielded: its text, or the error text of a failed
/// read (the file exists either way).
pub enum FileContent {
    Text(String),
    Unreadable(String),
}

/// One probed file.
pub struct FsFile {
    pub path: String,
    pub content: FileContent,
}

/// The probed files. Lookups find the first entry with the requested path.
pub struct FsSnapshot {
    pub files: Vec<FsFile>,
}

/// What looking a path up in a snapshot yields.
pub enum FsLookup {
    Missing,
    Text(Seq<char>),
    Unreadable(Seq<char>),
}

/// The first entry of `files` whose path is `path`.
pub open spec fn fs_lookup(files: Seq<FsFile>, path: Seq<char>) -> FsLookup
    decreases files.len(),
{
    if files.len() == 0 {
        FsLookup::Missing
    } else if files[0].path@ == path {
        match files[0].content {
            FileContent::Text(t) => FsLookup::Text(t@),
            FileContent::Unreadable(m) => FsLookup::Unreadable(m@),
        }
    } else {
        fs_lookup(files.skip(1), path)
    }
}

/// True when the snapshot holds the path at all.
pub open spec fn fs_exists(files: Seq<FsFile>, path: Seq<char>) -> bool {
    !(fs_lookup(files, path) is Missing)
}

impl FsSnapshot {
    pub fn new() -> (r: Self)
        ensures
            r.files@.len() == 0,
    {
        FsSnapshot { files: Vec::new() }
    }

    /// Records a file whose text was read.
    pub fn push_text(&mut self, path: &str, text: &str)
        ensures
            final(self).files@.len() == old(self).files@.len() + 1,
            forall|k: int|
                0 <= k < old(self).files@.len() ==> final(self).files@[k] == old(self).files@[k],
            final(self).files@.last().path@ == path@,
            final(self).files@.last().content matches FileContent::Text(t) && t@ == text@,
    {
        self.files.push(FsFile { path: path.to_owned(), content: FileContent::Text(text.to_owned()) });
    }

    /// Records a file that exists but could not be read as text.
    pub fn push_unreadable(&mut self, path: &str, message: &str)
        ensures
            final(self).files@.len() == old(self).files@.len() + 1,
            forall|k: int|
                0 <= k < old(self).files@.len() ==> final(self).files@[k] == old(self).files@[k],
            final(self).files@.last().path@ == path@,
            final(self).files@.last().content matches FileContent::Unreadable(m) && m@ == message@,
    {
        self.files.push(
            FsFile { path: path.to_owned(), content: FileContent::Unreadable(message.to_owned()) },
        );
    }

    /// Finds the first record of `path`, if any.
    pub fn lookup(&self, path: &String) -> (r: Option<FileContent>)
        ensures
            match r {
                None => fs_lookup(self.files@, path@) is Missing,
                Some(c) => match c {
                    FileContent::Text(t) => fs_lookup(self.files@, path@) == FsLookup::Text(t@),
                    FileContent::Unreadable(m) => fs_lookup(self.files@, path@)
                        == FsLookup::Unreadable(m@),
                },
            },
    {
        let n = self.files.len();
        let mut k: usize = 0;
        proof {
            assert(self.files@.skip(0) =~= self.files@);
        }
        while k < n
            invariant
                k <= n,
                n == self.files@.len(),
                fs_lookup(self.files@, path@) == fs_lookup(self.files@.skip(k as int), path@),
            decreases n - k,
        {
            let e = &self.files[k];
            if e.path == *path {
                match &e.content {
                    FileContent::Text(t) => {
                        return Some(FileContent::Text(t.clone()));
                    },
                    FileContent::Unreadable(m) => {
                        return Some(FileContent::Unreadable(m.clone()));
                    },
                }
            }
            proof {
                assert(self.files@.skip(k as int).skip(1) =~= self.files@.skip(k as int + 1));
            }
            k = k + 1;
        }
        None
    }

    /// True when the snapshot holds `path`.
    pub fn contains_path(&self, path: &String) -> (r: bool)
        ensures
            r == fs_exists(self.files@, path@),
    {
        match self.lookup(path) {
            Some(_) => true,
            None => false,
        }
    }
}

} // verus!
