//! The directory explorer: what becomes of each path that a walk comes upon,
//! and in which order the paths of a tree are visited.
//!
//! The caller reads the metadata and the directory listings; the decisions
//! are made here.

use vstd::prelude::*;
use vstd::string::*;

verus! {

/// What the metadata of a path says it is.
#[derive(Clone, Copy, Debug, PartialEq, Eq, Structural)]
pub enum PathKind {
    /// A regular file.
    File,
    /// A directory.
    Directory,
    /// Anything else.
    Other,
}

/// Why a path is not explored.
#[derive(Clone, Copy, Debug, PartialEq, Eq, Structural)]
pub enum ExploreError {
    /// The path is a directory, and directories were not asked for.
    DirectoryNotRecursive,
    /// The path is neither a regular file nor a directory.
    NotRegularFile,
}

/// A path that was found to be a regular file when it was explored.
///
/// Only `explore` makes one.
#[derive(Debug, PartialEq, Eq)]
pub struct FileTarget {
    path: String,
}

impl View for FileTarget {
    type V = Seq<char>;

    closed spec fn view(&self) -> Seq<char> {
        self.path@
    }
}

impl FileTarget {
    /// The path of the file.
    pub fn path(&self) -> (p: &str)
        ensures
            p@ == self@,
    {
        self.path.as_str()
    }
}

/// What to do with an explored path.
#[derive(Debug, PartialEq, Eq)]
pub enum Visit {
    /// Hand the file on for erasure.
    Yield(FileTarget),
    /// List the directory and explore each of its entries.
    Descend,
}

/// Decides what becomes of `path`, given what its metadata says it is: a
/// regular file is handed on, once; a directory is descended into where
/// `recursive` is set and refused where it is not; anything else is refused.
pub fn explore(path: &str, kind: PathKind, recursive: bool) -> (r: Result<Visit, ExploreError>)
    ensures
        kind == PathKind::File ==> (r matches Ok(Visit::Yield(target)) && target@ == path@),
        kind == PathKind::Directory && recursive ==> r == Ok::<Visit, ExploreError>(Visit::Descend),
        kind == PathKind::Directory && !recursive ==> r == Err::<Visit, ExploreError>(
            ExploreError::DirectoryNotRecursive,
        ),
        kind == PathKind::Other ==> r == Err::<Visit, ExploreError>(ExploreError::NotRegularFile),
{
    match kind {
        PathKind::File => Ok(Visit::Yield(FileTarget { path: String::from_str(path) })),
        PathKind::Directory => if recursive {
            Ok(Visit::Descend)
        } else {
            Err(ExploreError::DirectoryNotRecursive)
        },
        PathKind::Other => Err(ExploreError::NotRegularFile),
    }
}

/// The paths of a list, each as a text.
pub open spec fn path_texts(paths: Seq<String>) -> Seq<Seq<char>> {
    paths.map_values(|p: String| p@)
}

/// The paths of one walk that are still to be explored.
pub struct Walk {
    pending: Vec<String>,
}

impl View for Walk {
    type V = Seq<Seq<char>>;

    /// The pending paths; the one explored next comes last.
    closed spec fn view(&self) -> Seq<Seq<char>> {
        path_texts(self.pending@)
    }
}

proof fn lemma_path_texts_push(paths: Seq<String>, path: String)
    ensures
        path_texts(paths.push(path)) == path_texts(paths).push(path@),
{
    assert(path_texts(paths.push(path)) =~= path_texts(paths).push(path@));
}

proof fn lemma_path_texts_drop_last(paths: Seq<String>)
    requires
        paths.len() > 0,
    ensures
        path_texts(paths.drop_last()) == path_texts(paths).drop_last(),
        path_texts(paths).last() == paths.last()@,
{
    assert(path_texts(paths.drop_last()) =~= path_texts(paths).drop_last());
}

impl Walk {
    /// A walk that has `root` to explore.
    pub fn new(root: &str) -> (walk: Walk)
        ensures
            walk@ == seq![root@],
    {
        let mut pending: Vec<String> = Vec::new();
        let path = String::from_str(root);
        proof {
            lemma_path_texts_push(pending@, path);
            assert(path_texts(pending@) =~= Seq::<Seq<char>>::empty());
            assert(Seq::<Seq<char>>::empty().push(root@) =~= seq![root@]);
        }
        pending.push(path);
        Walk { pending }
    }

    /// Takes the path to explore next: the one that was added last. `None`
    /// when the walk is over.
    pub fn next_path(&mut self) -> (r: Option<String>)
        ensures
            old(self)@.len() == 0 ==> r is None && final(self)@ == old(self)@,
            old(self)@.len() > 0 ==> {
                &&& r matches Some(path)
                &&& path@ == old(self)@.last()
                &&& final(self)@ == old(self)@.drop_last()
            },
    {
        proof {
            if self.pending@.len() > 0 {
                lemma_path_texts_drop_last(self.pending@);
            }
        }
        self.pending.pop()
    }

    /// Adds the entries of a directory. They are explored before anything
    /// that was pending, the first of them first.
    pub fn descend(&mut self, entries: Vec<String>)
        ensures
            final(self)@ == old(self)@ + path_texts(entries@).reverse(),
    {
        let mut entries = entries;
        let ghost all = path_texts(entries@);
        let ghost before = self@;
        while entries.len() > 0
            invariant
                path_texts(entries@) == all.take(entries@.len() as int),
                entries@.len() <= all.len(),
                self@ == before + all.skip(entries@.len() as int).reverse(),
            decreases entries@.len(),
        {
            let ghost left = entries@;
            let ghost pending = self.pending@;
            let entry = entries.pop().unwrap();
            proof {
                let n = left.len() as int;
                lemma_path_texts_drop_last(left);
                lemma_path_texts_push(pending, entry);
                assert(all.take(n).drop_last() =~= all.take(n - 1));
                assert(all.take(n).last() == all[n - 1]);
                assert(all.skip(n - 1).reverse() =~= all.skip(n).reverse().push(all[n - 1]));
                assert((before + all.skip(n).reverse()).push(all[n - 1]) =~= before + all.skip(
                    n - 1,
                ).reverse());
            }
            self.pending.push(entry);
        }
        assert(all.skip(0) =~= all);
    }
}

/// A walk is depth-first and keeps the order of a listing: once the entries
/// of a directory are added to what was pending, the first of them is the
/// next path to explore, and what is pending after it is what was pending
/// before with the other entries added.
pub proof fn lemma_first_entry_comes_next(pending: Seq<Seq<char>>, entries: Seq<Seq<char>>)
    requires
        entries.len() > 0,
    ensures
        (pending + entries.reverse()).last() == entries[0],
        (pending + entries.reverse()).drop_last() == pending + entries.skip(1).reverse(),
{
    assert((pending + entries.reverse()).drop_last() =~= pending + entries.skip(1).reverse());
}

} // verus!
