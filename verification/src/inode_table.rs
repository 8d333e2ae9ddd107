//! The inode table: which inode number stands for which path.
//!
//! The table is modelled as the sequence of paths in the order in which they
//! were first seen. The path at index `i` has inode `i + 1`, so the root, which
//! is there from the start, is inode 1, numbers are handed out in increasing
//! order from 2 on, and a number is never taken back or given twice.

use vstd::prelude::*;
use vstd::hash_map::StringHashMap;

verus! {

/// The inode of the root of the source tree.
pub const ROOT_INODE: u64 = 1;

/// A table is valid when it holds the root, no path twice, and no more paths
/// than there are inode numbers.
pub open spec fn table_wf(table: Seq<Seq<char>>) -> bool {
    &&& 1 <= table.len() <= u64::MAX
    &&& table.no_duplicates()
}

/// The inode of `path`, if the table holds the path.
pub open spec fn inode_of(table: Seq<Seq<char>>, path: Seq<char>) -> Option<u64> {
    if table.contains(path) {
        Some((table.index_of(path) + 1) as u64)
    } else {
        None
    }
}

/// The path of `ino`, if the number was handed out.
pub open spec fn path_of(table: Seq<Seq<char>>, ino: u64) -> Option<Seq<char>> {
    if 1 <= ino <= table.len() {
        Some(table[ino - 1])
    } else {
        None
    }
}

/// The table after a request for the inode of `path`: unchanged if the path
/// is known, else with the path added under the next free number.
pub open spec fn allocate(table: Seq<Seq<char>>, path: Seq<char>) -> Seq<Seq<char>> {
    if table.contains(path) {
        table
    } else {
        table.push(path)
    }
}

/// In a valid table the path at index `i` has inode `i + 1` and no other.
pub proof fn lemma_inode_at(table: Seq<Seq<char>>, i: int)
    requires
        table_wf(table),
        0 <= i < table.len(),
    ensures
        inode_of(table, table[i]) == Some((i + 1) as u64),
        path_of(table, (i + 1) as u64) == Some(table[i]),
{
    assert(table.contains(table[i]));
    let k = table.index_of(table[i]);
    assert(0 <= k < table.len() && table[k] == table[i]);
}

/// `inode_of` and `path_of` are inverse to each other.
pub proof fn lemma_inode_path_inverse(table: Seq<Seq<char>>, ino: u64, path: Seq<char>)
    requires
        table_wf(table),
    ensures
        inode_of(table, path) == Some(ino) <==> path_of(table, ino) == Some(path),
{
    if inode_of(table, path) == Some(ino) {
        let k = table.index_of(path);
        assert(0 <= k < table.len() && table[k] == path);
    }
    if path_of(table, ino) == Some(path) {
        lemma_inode_at(table, ino - 1);
    }
}

/// No two paths share an inode.
pub proof fn lemma_inode_identifies_path(table: Seq<Seq<char>>, p: Seq<char>, q: Seq<char>)
    requires
        table_wf(table),
        inode_of(table, p) is Some,
        inode_of(table, p) == inode_of(table, q),
    ensures
        p == q,
{
    let ino = inode_of(table, p).unwrap();
    lemma_inode_path_inverse(table, ino, p);
    lemma_inode_path_inverse(table, ino, q);
}

/// A request keeps the table valid, keeps every entry in its place, and
/// leaves the requested path in the table.
pub proof fn lemma_allocate_extends(table: Seq<Seq<char>>, path: Seq<char>)
    requires
        table_wf(table),
        table.len() < u64::MAX,
    ensures
        table_wf(allocate(table, path)),
        table.is_prefix_of(allocate(table, path)),
        allocate(table, path).contains(path),
{
    let after = allocate(table, path);
    if !table.contains(path) {
        assert(after[table.len() as int] == path);
        assert forall|i: int, j: int|
            0 <= i < after.len() && 0 <= j < after.len() && i != j implies after[i] != after[j] by {
            if i < table.len() {
                assert(table[i] == after[i]);
            }
            if j < table.len() {
                assert(table[j] == after[j]);
            }
        }
    }
}

/// An inode, once given, stays with its path in every later table; numbers
/// are never taken back or handed out again.
pub proof fn lemma_inode_is_stable(before: Seq<Seq<char>>, after: Seq<Seq<char>>, path: Seq<char>)
    requires
        table_wf(before),
        table_wf(after),
        before.is_prefix_of(after),
        before.contains(path),
    ensures
        inode_of(after, path) == inode_of(before, path),
        inode_of(before, path) is Some,
{
    let k = before.index_of(path);
    assert(0 <= k < before.len() && before[k] == path);
    assert(after[k] == before[k]);
    lemma_inode_at(before, k);
    lemma_inode_at(after, k);
}

/// Two requests for one path yield one inode and one table, the path keeps
/// that inode in every later table, and no other path ever has it.
pub proof fn lemma_same_path_same_inode(
    table: Seq<Seq<char>>,
    path: Seq<char>,
    later: Seq<Seq<char>>,
    other: Seq<char>,
)
    requires
        table_wf(table),
        table.len() < u64::MAX,
        table_wf(later),
        allocate(table, path).is_prefix_of(later),
        other != path,
    ensures
        allocate(allocate(table, path), path) == allocate(table, path),
        inode_of(allocate(table, path), path) is Some,
        inode_of(later, path) == inode_of(allocate(table, path), path),
        inode_of(later, other) != inode_of(later, path),
{
    let once = allocate(table, path);
    lemma_allocate_extends(table, path);
    lemma_inode_is_stable(once, later, path);
    if inode_of(later, other) == inode_of(later, path) {
        lemma_inode_identifies_path(later, path, other);
    }
}

/// The root is inode 1 in every valid table, and stays the root in every
/// later one.
pub proof fn lemma_root_is_inode_one(before: Seq<Seq<char>>, after: Seq<Seq<char>>)
    requires
        table_wf(before),
        table_wf(after),
        before.is_prefix_of(after),
    ensures
        inode_of(before, before[0]) == Some(ROOT_INODE),
        path_of(before, ROOT_INODE) == Some(before[0]),
        inode_of(after, before[0]) == Some(ROOT_INODE),
        path_of(after, ROOT_INODE) == Some(before[0]),
{
    lemma_inode_at(before, 0);
    assert(after[0] == before[0]);
    lemma_inode_at(after, 0);
}

/// The pass-through file system: the source directory and the table of the
/// inodes handed out so far.
pub struct PassthroughFS {
    source: String,
    /// `paths[i]` is the path of inode `i + 1`.
    paths: Vec<String>,
    /// The inode of each path in `paths`.
    index: StringHashMap<u64>,
}

impl View for PassthroughFS {
    type V = Seq<Seq<char>>;

    /// The paths in the order of their inodes, the root first.
    closed spec fn view(&self) -> Seq<Seq<char>> {
        Seq::new(self.paths.len() as nat, |i: int| self.paths[i]@)
    }
}

impl PassthroughFS {
    /// The source directory that the file system was made for.
    pub closed spec fn root(&self) -> Seq<char> {
        self.source@
    }

    /// The two directions of the table agree, and the root is its first entry.
    pub closed spec fn wf(&self) -> bool {
        &&& self.paths.len() >= 1
        &&& self.paths[0]@ == self.source@
        &&& forall|i: int|
            #![trigger self.paths[i]]
            0 <= i < self.paths.len() ==> self.index@.contains_key(self.paths[i]@)
                && self.index@[self.paths[i]@] == i + 1
        &&& forall|p: Seq<char>| #[trigger]
            self.index@.contains_key(p) ==> 1 <= self.index@[p] <= self.paths.len()
                && self.paths[self.index@[p] - 1]@ == p
    }

    /// A well-formed file system has a valid table that starts with its root.
    pub proof fn lemma_wf_table(&self)
        requires
            self.wf(),
        ensures
            table_wf(self@),
            self@[0] == self.root(),
            path_of(self@, ROOT_INODE) == Some(self.root()),
            inode_of(self@, self.root()) == Some(ROOT_INODE),
    {
        let table = self@;
        assert forall|i: int, j: int|
            0 <= i < table.len() && 0 <= j < table.len() && i != j implies table[i] != table[j] by {
            assert(self.index@[self.paths[i]@] == i + 1);
            assert(self.index@[self.paths[j]@] == j + 1);
        }
        lemma_inode_at(table, 0);
    }

    /// A file system over `source`, which becomes inode 1.
    pub fn new(source: String) -> (fs: Self)
        ensures
            fs.wf(),
            fs.root() == source@,
            fs@ == seq![source@],
    {
        let mut paths: Vec<String> = Vec::new();
        paths.push(source.clone());
        let mut index: StringHashMap<u64> = StringHashMap::new();
        index.insert(source.clone(), ROOT_INODE);
        let fs = PassthroughFS { source, paths, index };
        assert(fs@ =~= seq![source@]);
        fs
    }

    /// The source directory.
    pub fn source(&self) -> (source: &String)
        ensures
            source@ == self.root(),
    {
        &self.source
    }

    /// The inode of `path`: the one it has, or else the next free number,
    /// which the path keeps from then on.
    pub fn get_inode(&mut self, path: &str) -> (ino: u64)
        requires
            old(self).wf(),
        ensures
            final(self).wf(),
            final(self).root() == old(self).root(),
            final(self)@ == allocate(old(self)@, path@),
            old(self)@.is_prefix_of(final(self)@),
            inode_of(final(self)@, path@) == Some(ino),
            path_of(final(self)@, ino) == Some(path@),
            old(self)@.contains(path@) ==> inode_of(old(self)@, path@) == Some(ino),
            !old(self)@.contains(path@) ==> ino == old(self)@.len() + 1,
            path@ == old(self).root() ==> ino == ROOT_INODE,
    {
        proof {
            self.lemma_wf_table();
        }
        let known = match self.index.get(path) {
            Some(ino) => Some(*ino),
            None => None,
        };
        match known {
            Some(ino) => {
                proof {
                    assert(self@[ino - 1] == path@);
                    lemma_inode_at(self@, ino - 1);
                }
                ino
            },
            None => {
                proof {
                    if self@.contains(path@) {
                        let k = self@.index_of(path@);
                        assert(self.index@.contains_key(self.paths[k]@));
                    }
                }
                self.paths.push(path.to_owned());
                let ino = self.paths.len() as u64;
                self.index.insert(path.to_owned(), ino);
                proof {
                    assert(self@ =~= old(self)@.push(path@));
                    assert forall|i: int| 0 <= i < self.paths.len() implies self.index@.contains_key(
                        #[trigger] self.paths[i]@,
                    ) && self.index@[self.paths[i]@] == i + 1 by {
                        if i < old(self).paths.len() {
                            assert(self.paths[i] == old(self).paths[i]);
                        }
                    }
                    assert forall|p: Seq<char>| #[trigger]
                        self.index@.contains_key(p) implies 1 <= self.index@[p] <= self.paths.len()
                        && self.paths[self.index@[p] - 1]@ == p by {
                        if p != path@ {
                            assert(old(self).index@.contains_key(p));
                            assert(self.paths[self.index@[p] - 1] == old(self).paths[self.index@[p]
                                - 1]);
                        }
                    }
                    self.lemma_wf_table();
                    lemma_inode_at(self@, ino - 1);
                }
                ino
            },
        }
    }

    /// Whether `ino` was handed out.
    pub fn has_inode(&self, ino: u64) -> (known: bool)
        ensures
            known <==> path_of(self@, ino) is Some,
    {
        1 <= ino && ino <= self.paths.len() as u64
    }

    /// The path of `ino`, or `None` if the number was never handed out.
    pub fn get_path(&self, ino: u64) -> (path: Option<String>)
        ensures
            path is Some <==> path_of(self@, ino) is Some,
            path matches Some(p) ==> path_of(self@, ino) == Some(p@),
    {
        if 1 <= ino && ino <= self.paths.len() as u64 {
            Some(self.paths[(ino - 1) as usize].clone())
        } else {
            None
        }
    }
}

} // verus!
