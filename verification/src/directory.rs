//! Directory listings that can be resumed at any offset.
//!
//! A listing is a row of positions. Position 0 holds ".", position 1 holds
//! "..", and position `k + 2` belongs to the `k`-th child in the order in which
//! the host reported the children. A child whose metadata the host could not
//! read keeps its position and has no entry. Each entry carries the offset at
//! which a later listing resumes behind it: its own position plus one. The
//! path of a child, by which it gets its inode, is its name joined to the path
//! of the directory, as in `lookup`.
//!
//! A listing ends where no entry is left, or earlier, and without error, the
//! moment the reply buffer reports itself full: at a child, at "." or at
//! "..".

use vstd::prelude::*;
use crate::attr::FileKind;
use crate::inode_table::{allocate, inode_of, path_of, PassthroughFS};
use crate::paths::{join_path, joined_path};

verus! {

/// A child of a directory as the host reported it.
#[derive(Debug, PartialEq, Eq)]
pub struct DirChild {
    /// The name of the child in its directory.
    pub name: String,
    /// Whether the child is a directory; `None` where the host could not
    /// read the child's metadata.
    pub is_dir: Option<bool>,
}

/// A child, with its name as a sequence of characters.
pub struct DirChildView {
    pub name: Seq<char>,
    pub is_dir: Option<bool>,
}

impl View for DirChild {
    type V = DirChildView;

    open spec fn view(&self) -> DirChildView {
        DirChildView { name: self.name@, is_dir: self.is_dir }
    }
}

/// An entry of a listing.
#[derive(Debug, PartialEq, Eq)]
pub struct DirEntry {
    pub ino: u64,
    /// The offset at which a listing resumes behind this entry.
    pub offset: i64,
    pub kind: FileKind,
    pub name: String,
}

/// An entry, with its name as a sequence of characters.
pub struct DirEntryView {
    pub ino: u64,
    pub offset: i64,
    pub kind: FileKind,
    pub name: Seq<char>,
}

impl View for DirEntry {
    type V = DirEntryView;

    open spec fn view(&self) -> DirEntryView {
        DirEntryView { ino: self.ino, offset: self.offset, kind: self.kind, name: self.name@ }
    }
}

/// The children, each by its view.
pub open spec fn children_view(children: Seq<DirChild>) -> Seq<DirChildView> {
    children.map_values(|child: DirChild| child@)
}

/// The name ".".
pub open spec fn dot() -> Seq<char> {
    seq!['.']
}

/// The name "..".
pub open spec fn dot_dot() -> Seq<char> {
    seq!['.', '.']
}

/// The position behind the last one of the listing. Positions are offsets
/// of the protocol and so end with the largest signed 64-bit number.
pub open spec fn listing_end(children: Seq<DirChildView>) -> int {
    if children.len() + 2 <= i64::MAX {
        children.len() as int + 2
    } else {
        i64::MAX as int
    }
}

/// The position at which a listing resumed at `offset` starts.
pub open spec fn listing_start(children: Seq<DirChildView>, offset: i64) -> int {
    if offset < 0 {
        0
    } else if offset > listing_end(children) {
        listing_end(children)
    } else {
        offset as int
    }
}

/// Whether the listing has an entry at `position`.
pub open spec fn has_entry(children: Seq<DirChildView>, position: int) -> bool {
    0 <= position < listing_end(children) && (position < 2 || children[position
        - 2].is_dir is Some)
}

/// The first position from `position` on that has an entry, or the end of
/// the listing if there is none.
pub open spec fn next_entry_position(children: Seq<DirChildView>, position: int) -> int
    decreases listing_end(children) - position,
{
    if position >= listing_end(children) {
        listing_end(children)
    } else if has_entry(children, position) {
        position
    } else {
        next_entry_position(children, position + 1)
    }
}

/// The kind under which a listing reports a child: a directory as a
/// directory, everything else as a regular file.
pub open spec fn listed_kind(is_dir: Option<bool>) -> FileKind {
    if is_dir == Some(true) {
        FileKind::Directory
    } else {
        FileKind::RegularFile
    }
}

/// The entry at `position` of the listing of the directory with inode
/// `dir_ino` and path `dir_path`, the inodes of the children taken from
/// `table`.
pub open spec fn entry_at(
    dir_ino: u64,
    dir_path: Seq<char>,
    children: Seq<DirChildView>,
    table: Seq<Seq<char>>,
    position: int,
) -> DirEntryView {
    if position == 0 {
        DirEntryView { ino: dir_ino, offset: 1, kind: FileKind::Directory, name: dot() }
    } else if position == 1 {
        DirEntryView { ino: dir_ino, offset: 2, kind: FileKind::Directory, name: dot_dot() }
    } else {
        let child = children[position - 2];
        DirEntryView {
            ino: match inode_of(table, joined_path(dir_path, child.name)) {
                Some(ino) => ino,
                None => 0,
            },
            offset: (position + 1) as i64,
            kind: listed_kind(child.is_dir),
            name: child.name,
        }
    }
}

/// The table after the entry at `position` was made: a child gets its inode
/// then, "." and ".." need none.
pub open spec fn table_after_entry(
    dir_path: Seq<char>,
    children: Seq<DirChildView>,
    table: Seq<Seq<char>>,
    position: int,
) -> Seq<Seq<char>> {
    if position < 2 {
        table
    } else {
        allocate(table, joined_path(dir_path, children[position - 2].name))
    }
}

/// The next entry from `position` on lies at or behind `position` and within
/// the listing; it is an entry unless it is the end, and no position between
/// the two has one.
pub proof fn lemma_next_entry_position(children: Seq<DirChildView>, position: int)
    requires
        0 <= position,
    ensures
        position <= next_entry_position(children, position) || listing_end(children) <= position,
        next_entry_position(children, position) <= listing_end(children),
        next_entry_position(children, position) < listing_end(children) ==> has_entry(
            children,
            next_entry_position(children, position),
        ),
        forall|p: int|
            position <= p < next_entry_position(children, position) ==> !has_entry(children, p),
    decreases listing_end(children) - position,
{
    if position < listing_end(children) && !has_entry(children, position) {
        lemma_next_entry_position(children, position + 1);
    }
}

/// A listing from offset 0 starts with "." and "..", both under the
/// directory's own inode, with resume offsets 1 and 2, before any child and
/// whatever the children are.
pub proof fn lemma_listing_starts_with_dots(
    dir_ino: u64,
    dir_path: Seq<char>,
    children: Seq<DirChildView>,
    table: Seq<Seq<char>>,
)
    ensures
        listing_start(children, 0) == 0,
        listing_end(children) >= 2,
        next_entry_position(children, 0) == 0,
        next_entry_position(children, 1) == 1,
        entry_at(dir_ino, dir_path, children, table, 0) == (DirEntryView {
            ino: dir_ino,
            offset: 1,
            kind: FileKind::Directory,
            name: dot(),
        }),
        entry_at(dir_ino, dir_path, children, table, 1) == (DirEntryView {
            ino: dir_ino,
            offset: 2,
            kind: FileKind::Directory,
            name: dot_dot(),
        }),
        table_after_entry(dir_path, children, table, 0) == table,
        table_after_entry(dir_path, children, table, 1) == table,
        listing_from(dir_ino, dir_path, children, table, 0).0 == seq![
            entry_at(dir_ino, dir_path, children, table, 0),
            entry_at(dir_ino, dir_path, children, table, 1),
        ] + listing_from(dir_ino, dir_path, children, table, 2).0,
{
    reveal_with_fuel(listing_from, 3);
}

/// An entry carries the offset of the position behind it, and a listing
/// resumed at that offset starts there: with the next entry, if there is one,
/// and without the entries before.
pub proof fn lemma_resume_behind_entry(
    dir_ino: u64,
    dir_path: Seq<char>,
    children: Seq<DirChildView>,
    table: Seq<Seq<char>>,
    position: int,
)
    requires
        has_entry(children, position),
    ensures
        entry_at(dir_ino, dir_path, children, table, position).offset == position + 1,
        listing_start(
            children,
            entry_at(dir_ino, dir_path, children, table, position).offset,
        ) == position + 1,
        next_entry_position(children, position + 1) > position,
{
    lemma_next_entry_position(children, position + 1);
}

/// The entries, each by its view.
pub open spec fn entries_view(entries: Seq<DirEntry>) -> Seq<DirEntryView> {
    entries.map_values(|entry: DirEntry| entry@)
}

/// The listing from `position` on: its entries in order, and the table as it
/// stands once the last of them is made. Each child gets its inode from the
/// table that the entries before it have left.
pub open spec fn listing_from(
    dir_ino: u64,
    dir_path: Seq<char>,
    children: Seq<DirChildView>,
    table: Seq<Seq<char>>,
    position: int,
) -> (Seq<DirEntryView>, Seq<Seq<char>>)
    decreases listing_end(children) - position,
{
    if position < 0 || position >= listing_end(children) {
        (Seq::empty(), table)
    } else if has_entry(children, position) {
        let after = table_after_entry(dir_path, children, table, position);
        let rest = listing_from(dir_ino, dir_path, children, after, position + 1);
        (seq![entry_at(dir_ino, dir_path, children, after, position)] + rest.0, rest.1)
    } else {
        listing_from(dir_ino, dir_path, children, table, position + 1)
    }
}

/// The listing from `position` on is empty if no entry follows, and else is
/// the next entry and then the listing from behind it.
pub proof fn lemma_listing_from_next(
    dir_ino: u64,
    dir_path: Seq<char>,
    children: Seq<DirChildView>,
    table: Seq<Seq<char>>,
    position: int,
)
    requires
        0 <= position,
    ensures
        ({
            let at = next_entry_position(children, position);
            let after = table_after_entry(dir_path, children, table, at);
            let rest = listing_from(dir_ino, dir_path, children, after, at + 1);
            listing_from(dir_ino, dir_path, children, table, position) == if at >= listing_end(
                children,
            ) {
                (Seq::<DirEntryView>::empty(), table)
            } else {
                (seq![entry_at(dir_ino, dir_path, children, after, at)] + rest.0, rest.1)
            }
        }),
    decreases listing_end(children) - position,
{
    if position < listing_end(children) && !has_entry(children, position) {
        lemma_listing_from_next(dir_ino, dir_path, children, table, position + 1);
    }
}

/// A listing in progress: the children of one directory and the position
/// reached in them.
pub struct DirCursor {
    dir_ino: u64,
    dir_path: String,
    children: Vec<DirChild>,
    /// The next position to look at.
    position: i64,
}

impl DirCursor {
    /// The inode of the directory that is listed.
    pub closed spec fn dir_ino(&self) -> u64 {
        self.dir_ino
    }

    /// The path of the directory that is listed.
    pub closed spec fn dir_path(&self) -> Seq<char> {
        self.dir_path@
    }

    /// The children of the directory.
    pub closed spec fn children(&self) -> Seq<DirChildView> {
        children_view(self.children@)
    }

    /// The next position to look at.
    pub closed spec fn position(&self) -> int {
        self.position as int
    }

    /// The position lies within the listing.
    pub closed spec fn wf(&self) -> bool {
        0 <= self.position <= listing_end(self.children())
    }

    /// Whether the next call of `next_entry` ends the listing, given what
    /// the reply buffer said of the last entry: a full buffer ends it at any
    /// entry, "." and ".." too, and else it ends where no entry is left.
    pub open spec fn ends(&self, buffer_full: bool) -> bool {
        buffer_full || next_entry_position(
            self.children(),
            self.position(),
        ) >= listing_end(self.children())
    }

    /// A listing of the directory with inode `dir_ino` and path `dir_path`
    /// with the given children, resumed at `offset`.
    pub fn new(dir_ino: u64, dir_path: String, offset: i64, children: Vec<DirChild>) -> (cursor:
        Self)
        ensures
            cursor.wf(),
            cursor.dir_ino() == dir_ino,
            cursor.dir_path() == dir_path@,
            cursor.children() == children_view(children@),
            cursor.position() == listing_start(children_view(children@), offset),
    {
        let end = Self::end_of(&children);
        let position = if offset < 0 {
            0
        } else if offset > end {
            end
        } else {
            offset
        };
        DirCursor { dir_ino, dir_path, children, position }
    }

    fn end_of(children: &Vec<DirChild>) -> (end: i64)
        ensures
            end == listing_end(children_view(children@)),
    {
        let len = children.len() as u64;
        if len <= 0x7fff_ffff_ffff_fffd {
            (len + 2) as i64
        } else {
            i64::MAX
        }
    }

    /// Hands out the next entry of the listing, or `None` at its end.
    ///
    /// `buffer_full` says whether the reply buffer reported itself full at
    /// the entry handed out by the call before; on the first call, with no
    /// entry handed out yet, the caller passes `false`. A full buffer ends the
    /// listing there and then, without error, whichever entry it was. A child
    /// gets its inode when its entry is made, not before.
    pub fn next_entry(&mut self, fs: &mut PassthroughFS, buffer_full: bool) -> (entry: Option<
        DirEntry,
    >)
        requires
            old(self).wf(),
            old(fs).wf(),
        ensures
            final(self).wf(),
            final(fs).wf(),
            final(fs).root() == old(fs).root(),
            old(fs)@.is_prefix_of(final(fs)@),
            final(self).dir_ino() == old(self).dir_ino(),
            final(self).dir_path() == old(self).dir_path(),
            final(self).children() == old(self).children(),
            entry is None <==> old(self).ends(buffer_full),
            entry is None ==> ({
                &&& final(fs)@ == old(fs)@
                &&& final(self).position() == listing_end(old(self).children())
            }),
            entry matches Some(e) ==> ({
                let at = next_entry_position(old(self).children(), old(self).position());
                &&& final(fs)@ == table_after_entry(
                    old(self).dir_path(),
                    old(self).children(),
                    old(fs)@,
                    at,
                )
                &&& e@ == entry_at(
                    old(self).dir_ino(),
                    old(self).dir_path(),
                    old(self).children(),
                    final(fs)@,
                    at,
                )
                &&& at >= 2 ==> path_of(final(fs)@, e.ino) == Some(
                    joined_path(old(self).dir_path(), old(self).children()[at - 2].name),
                )
                &&& final(self).position() == at + 1
            }),
    {
        let end = Self::end_of(&self.children);
        proof {
            lemma_next_entry_position(self.children(), self.position());
        }
        if buffer_full {
            self.position = end;
            return None;
        }
        if self.position == 0 {
            proof {
                reveal_strlit(".");
                assert("."@ =~= dot());
            }
            self.position = 1;
            return Some(
                DirEntry {
                    ino: self.dir_ino,
                    offset: 1,
                    kind: FileKind::Directory,
                    name: ".".to_owned(),
                },
            );
        }
        if self.position == 1 {
            proof {
                reveal_strlit("..");
                assert(".."@ =~= dot_dot());
            }
            self.position = 2;
            return Some(
                DirEntry {
                    ino: self.dir_ino,
                    offset: 2,
                    kind: FileKind::Directory,
                    name: "..".to_owned(),
                },
            );
        }
        while self.position < end
            invariant
                old(self).wf(),
                !buffer_full,
                fs.wf(),
                fs@ == old(fs)@,
                fs.root() == old(fs).root(),
                self.dir_ino == old(self).dir_ino,
                self.dir_path == old(self).dir_path,
                self.children == old(self).children,
                end == listing_end(self.children()),
                2 <= self.position <= end,
                old(self).position() <= self.position,
                next_entry_position(self.children(), self.position()) == next_entry_position(
                    old(self).children(),
                    old(self).position(),
                ),
            decreases end - self.position,
        {
            let at = self.position;
            assert(self.children().len() == self.children.len());
            let child = &self.children[(at - 2) as usize];
            proof {
                assert(self.children()[at - 2] == child@);
                lemma_next_entry_position(self.children(), at as int);
                assert(has_entry(self.children(), at as int) <==> child.is_dir is Some);
            }
            match child.is_dir {
                Some(is_dir) => {
                    let path = join_path(self.dir_path.as_str(), child.name.as_str());
                    let ino = fs.get_inode(path.as_str());
                    let kind = if is_dir {
                        FileKind::Directory
                    } else {
                        FileKind::RegularFile
                    };
                    let entry = DirEntry { ino, offset: at + 1, kind, name: child.name.clone() };
                    self.position = at + 1;
                    return Some(entry);
                },
                None => {
                    self.position = at + 1;
                },
            }
        }
        None
    }

    /// Hands out all the entries that are left, as for a reply buffer that
    /// is never full.
    pub fn list(&mut self, fs: &mut PassthroughFS) -> (entries: Vec<DirEntry>)
        requires
            old(self).wf(),
            old(fs).wf(),
        ensures
            final(self).wf(),
            final(fs).wf(),
            final(fs).root() == old(fs).root(),
            old(fs)@.is_prefix_of(final(fs)@),
            final(self).dir_ino() == old(self).dir_ino(),
            final(self).dir_path() == old(self).dir_path(),
            final(self).children() == old(self).children(),
            final(self).position() == listing_end(old(self).children()),
            (entries_view(entries@), final(fs)@) == listing_from(
                old(self).dir_ino(),
                old(self).dir_path(),
                old(self).children(),
                old(fs)@,
                old(self).position(),
            ),
    {
        let mut entries: Vec<DirEntry> = Vec::new();
        let ghost whole = listing_from(
            self.dir_ino(),
            self.dir_path(),
            self.children(),
            fs@,
            self.position(),
        );
        assert(entries_view(entries@) =~= Seq::empty());
        assert(entries_view(entries@) + whole.0 =~= whole.0);
        loop
            invariant_except_break
                self.wf(),
                fs.wf(),
                fs.root() == old(fs).root(),
                old(fs)@.is_prefix_of(fs@),
                self.dir_ino() == old(self).dir_ino(),
                self.dir_path() == old(self).dir_path(),
                self.children() == old(self).children(),
                whole == listing_from(
                    old(self).dir_ino(),
                    old(self).dir_path(),
                    old(self).children(),
                    old(fs)@,
                    old(self).position(),
                ),
                ({
                    let rest = listing_from(
                        self.dir_ino(),
                        self.dir_path(),
                        self.children(),
                        fs@,
                        self.position(),
                    );
                    entries_view(entries@) + rest.0 == whole.0 && rest.1 == whole.1
                }),
            ensures
                self.wf(),
                fs.wf(),
                fs.root() == old(fs).root(),
                old(fs)@.is_prefix_of(fs@),
                self.dir_ino() == old(self).dir_ino(),
                self.dir_path() == old(self).dir_path(),
                self.children() == old(self).children(),
                self.position() == listing_end(self.children()),
                (entries_view(entries@), fs@) == whole,
            decreases listing_end(self.children()) - self.position(),
        {
            let ghost before = entries@;
            let ghost table = fs@;
            let ghost position = self.position();
            proof {
                lemma_listing_from_next(
                    self.dir_ino(),
                    self.dir_path(),
                    self.children(),
                    table,
                    position,
                );
                lemma_next_entry_position(self.children(), position);
            }
            match self.next_entry(fs, false) {
                Some(entry) => {
                    entries.push(entry);
                    proof {
                        let rest = listing_from(
                            self.dir_ino(),
                            self.dir_path(),
                            self.children(),
                            fs@,
                            self.position(),
                        );
                        assert(entries_view(entries@) =~= entries_view(before).push(entry@));
                        assert(entries_view(entries@) + rest.0 =~= entries_view(before) + (seq![
                            entry@,
                        ] + rest.0));
                    }
                },
                None => {
                    proof {
                        assert(entries_view(entries@) + Seq::<DirEntryView>::empty()
                            =~= entries_view(entries@));
                    }
                    break ;
                },
            }
        }
        entries
    }
}

} // verus!
