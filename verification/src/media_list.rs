//! An ordered list of the media files of one directory, with a current position.

use vstd::prelude::*;
use crate::config::SortOrder;
use crate::listing::{media_entries, sort_media_files, sorted_by};
use crate::path_util::{paths_equal, same_path};

verus! {

/// One media file of a directory, with the dates that date filters read
/// (seconds since the Unix epoch, `None` where the file system gave none).
#[derive(Debug, Clone)]
pub struct MediaEntry {
    pub path: String,
    pub modified: Option<u64>,
    pub created: Option<u64>,
}

impl MediaEntry {
    /// An entry for `path` with no known dates.
    pub fn new(path: String) -> (r: Self)
        ensures
            r.path@ == path@,
            r.modified is None,
            r.created is None,
    {
        MediaEntry { path, modified: None, created: None }
    }

    /// An entry for `path` with the given dates.
    pub fn with_dates(path: String, modified: Option<u64>, created: Option<u64>) -> (r: Self)
        ensures
            r.path@ == path@,
            r.modified == modified,
            r.created == created,
    {
        MediaEntry { path, modified, created }
    }

    /// A copy of this entry.
    pub fn duplicate(&self) -> (r: Self)
        ensures
            r == *self,
    {
        MediaEntry { path: self.path.clone(), modified: self.modified, created: self.created }
    }
}

/// Position `offset` steps forward from `cur` in a circular list of length `len`.
pub open spec fn wrap_forward(cur: int, offset: int, len: int) -> int {
    (cur + offset) % len
}

/// Position `offset` steps backward from `cur` in a circular list of length `len`.
pub open spec fn wrap_backward(cur: int, offset: int, len: int) -> int {
    (cur - offset) % len
}

/// Whether no entry before index `i` has a path equal to `path`, and `i`
/// does (or `i` is the end of the list and none does).
pub open spec fn is_first_index_of(items: Seq<MediaEntry>, path: Seq<char>, i: Option<int>) -> bool {
    match i {
        Some(k) => {
            &&& 0 <= k < items.len()
            &&& same_path(items[k].path@, path)
            &&& forall|j: int| 0 <= j < k ==> !same_path(#[trigger] items[j].path@, path)
        },
        None => forall|j: int| 0 <= j < items.len() ==> !same_path(#[trigger] items[j].path@, path),
    }
}

/// Index `skip + 1` steps forward from `c`, wrapping around.
pub fn forward_index(c: usize, skip: usize, n: usize) -> (r: usize)
    requires
        c < n,
    ensures
        r < n,
        r as int == wrap_forward(c as int, skip + 1, n as int),
{
    let k = skip % n;
    let step = k + 1;
    let r = if c >= n - step { c - (n - step) } else { c + step };
    proof {
        let q = skip as int / n as int;
        vstd::arithmetic::div_mod::lemma_fundamental_div_mod(skip as int, n as int);
        assert(c + skip + 1 == n * q + (c + step)) by (nonlinear_arith)
            requires
                skip as int == n * q + k,
                step == k + 1,
        {
        }
        vstd::arithmetic::div_mod::lemma_mod_multiples_vanish(q, c + step, n as int);
        if c >= n - step {
            vstd::arithmetic::div_mod::lemma_mod_multiples_vanish(1, c + step - n, n as int);
            assert(n * 1 + (c + step - n) == c + step) by (nonlinear_arith);
            vstd::arithmetic::div_mod::lemma_small_mod((c + step - n) as nat, n as nat);
        } else {
            vstd::arithmetic::div_mod::lemma_small_mod((c + step) as nat, n as nat);
        }
    }
    r
}

/// Index `skip + 1` steps backward from `c`, wrapping around.
pub fn backward_index(c: usize, skip: usize, n: usize) -> (r: usize)
    requires
        c < n,
    ensures
        r < n,
        r as int == wrap_backward(c as int, skip + 1, n as int),
{
    let k = skip % n;
    let step = k + 1;
    let r = if c >= step { c - step } else { n - (step - c) };
    proof {
        let q = skip as int / n as int;
        vstd::arithmetic::div_mod::lemma_fundamental_div_mod(skip as int, n as int);
        assert(c - skip - 1 == n * (-q) + (c - step)) by (nonlinear_arith)
            requires
                skip as int == n * q + k,
                step == k + 1,
        {
        }
        vstd::arithmetic::div_mod::lemma_mod_multiples_vanish(-q, c - step, n as int);
        if c >= step {
            vstd::arithmetic::div_mod::lemma_small_mod((c - step) as nat, n as nat);
        } else {
            vstd::arithmetic::div_mod::lemma_mod_multiples_vanish(-1, n + c - step, n as int);
            assert(n * (-1) + (n + c - step) == c - step) by (nonlinear_arith);
            vstd::arithmetic::div_mod::lemma_small_mod((n + c - step) as nat, n as nat);
        }
    }
    r
}

/// The media files of a directory in display order, and the position of the
/// current one. Navigation wraps around at both ends.
#[derive(Debug, Clone)]
pub struct MediaList {
    entries: Vec<MediaEntry>,
    current: Option<usize>,
}

impl MediaList {
    /// The entries, in order.
    pub closed spec fn items(&self) -> Seq<MediaEntry> {
        self.entries@
    }

    /// The current position, if one is set and within the list.
    pub closed spec fn cur(&self) -> Option<int> {
        match self.current {
            Some(i) => if i < self.entries.len() { Some(i as int) } else { None },
            None => None,
        }
    }

    /// The current position always lies within the list.
    pub proof fn lemma_cur_in_bounds(&self)
        ensures
            self.cur() matches Some(i) ==> 0 <= i < self.items().len(),
    {
    }

    /// The entry `offset` steps forward from the current one, if there is a current one.
    pub open spec fn spec_forward(&self, offset: int) -> Option<MediaEntry> {
        match self.cur() {
            Some(c) => Some(self.items()[wrap_forward(c, offset, self.items().len() as int)]),
            None => None,
        }
    }

    /// The entry `offset` steps backward from the current one, if there is a current one.
    pub open spec fn spec_backward(&self, offset: int) -> Option<MediaEntry> {
        match self.cur() {
            Some(c) => Some(self.items()[wrap_backward(c, offset, self.items().len() as int)]),
            None => None,
        }
    }

    /// An empty list with no current position.
    pub fn new() -> (r: Self)
        ensures
            r.items() == Seq::<MediaEntry>::empty(),
            r.cur() is None,
    {
        MediaList { entries: Vec::new(), current: None }
    }

    /// A list of the given entries, in the given order, with no current position.
    pub fn from_entries(entries: Vec<MediaEntry>) -> (r: Self)
        ensures
            r.items() == entries@,
            r.cur() is None,
    {
        MediaList { entries, current: None }
    }

    /// The list of a directory from the files it holds: only the media
    /// files, sorted in the given order, with no current position.
    pub fn from_listing(files: Vec<MediaEntry>, order: SortOrder) -> (r: Self)
        ensures
            sorted_by(r.items(), order),
            r.items().to_multiset() == media_entries(files@).to_multiset(),
            r.cur() is None,
    {
        MediaList { entries: sort_media_files(files, order), current: None }
    }

    /// Number of entries.
    pub fn len(&self) -> (r: usize)
        ensures
            r == self.items().len(),
    {
        self.entries.len()
    }

    /// Whether the list has no entries.
    pub fn is_empty(&self) -> (r: bool)
        ensures
            r == (self.items().len() == 0),
    {
        self.entries.len() == 0
    }

    /// The entry at index `i`, if `i` is within the list.
    pub fn get(&self, i: usize) -> (r: Option<&MediaEntry>)
        ensures
            match r {
                Some(e) => i < self.items().len() && *e == self.items()[i as int],
                None => i >= self.items().len(),
            },
    {
        if i < self.entries.len() {
            Some(&self.entries[i])
        } else {
            None
        }
    }

    /// The first entry, if any.
    pub fn first(&self) -> (r: Option<&MediaEntry>)
        ensures
            match r {
                Some(e) => self.items().len() > 0 && *e == self.items()[0],
                None => self.items().len() == 0,
            },
    {
        self.get(0)
    }

    /// The current position, if set.
    pub fn current_index(&self) -> (r: Option<usize>)
        ensures
            match r {
                Some(i) => self.cur() == Some(i as int),
                None => self.cur() is None,
            },
    {
        match self.current {
            Some(i) => if i < self.entries.len() { Some(i) } else { None },
            None => None,
        }
    }

    /// Index of the first entry whose path equals `path`.
    pub fn position_of(&self, path: &str) -> (r: Option<usize>)
        ensures
            is_first_index_of(self.items(), path@, match r { Some(i) => Some(i as int), None => None }),
    {
        let n = self.entries.len();
        let mut i: usize = 0;
        while i < n
            invariant
                n == self.entries.len(),
                i <= n,
                forall|j: int| 0 <= j < i ==> !same_path(#[trigger] self.entries@[j].path@, path@),
            decreases n - i,
        {
            if paths_equal(self.entries[i].path.as_str(), path) {
                return Some(i);
            }
            i = i + 1;
        }
        None
    }

    /// Makes the first entry whose path equals `path` the current one; with
    /// no such entry, clears the current position. The entries are unchanged.
    pub fn set_current(&mut self, path: &str)
        ensures
            final(self).items() == old(self).items(),
            is_first_index_of(final(self).items(), path@, final(self).cur()),
    {
        self.current = self.position_of(path);
    }

    /// The entry `skip + 1` positions after the current one, wrapping around
    /// to the start; `None` when there is no current entry.
    pub fn peek_nth_next(&self, skip: usize) -> (r: Option<&MediaEntry>)
        ensures
            match r {
                Some(e) => self.spec_forward(skip + 1) == Some(*e),
                None => self.cur() is None,
            },
    {
        match self.current_index() {
            Some(c) => {
                let i = forward_index(c, skip, self.entries.len());
                Some(&self.entries[i])
            },
            None => None,
        }
    }

    /// The entry `skip + 1` positions before the current one, wrapping around
    /// to the end; `None` when there is no current entry.
    pub fn peek_nth_previous(&self, skip: usize) -> (r: Option<&MediaEntry>)
        ensures
            match r {
                Some(e) => self.spec_backward(skip + 1) == Some(*e),
                None => self.cur() is None,
            },
    {
        match self.current_index() {
            Some(c) => {
                let i = backward_index(c, skip, self.entries.len());
                Some(&self.entries[i])
            },
            None => None,
        }
    }

    /// The entry after the current one, wrapping around to the first.
    pub fn next(&self) -> (r: Option<&MediaEntry>)
        ensures
            match r {
                Some(e) => self.spec_forward(1) == Some(*e),
                None => self.cur() is None,
            },
    {
        self.peek_nth_next(0)
    }

    /// The entry before the current one, wrapping around to the last.
    pub fn previous(&self) -> (r: Option<&MediaEntry>)
        ensures
            match r {
                Some(e) => self.spec_backward(1) == Some(*e),
                None => self.cur() is None,
            },
    {
        self.peek_nth_previous(0)
    }

    /// Whether the current entry is the first one.
    pub fn is_at_first(&self) -> (r: bool)
        ensures
            r == (self.cur() == Some(0int)),
    {
        match self.current_index() {
            Some(c) => c == 0,
            None => false,
        }
    }

    /// Whether the current entry is the last one.
    pub fn is_at_last(&self) -> (r: bool)
        ensures
            r == (self.cur() == Some(self.items().len() - 1)),
    {
        match self.current_index() {
            Some(c) => c + 1 == self.entries.len(),
            None => false,
        }
    }
}

} // verus!
