//! Navigation through the media files of a directory.
//!
//! A [`MediaNavigator`] holds the media list of the current directory, the
//! path of the current media and the active filter. Its `peek_*` methods
//! compute the path to show next without moving; the position moves only
//! when the caller confirms, after the media loaded.

use vstd::prelude::*;
use crate::config::SortOrder;
use crate::filter::{inactive_filter, MediaFilter};
use crate::listing::{media_entries, sorted_by};
use crate::media::{detect_media_type, is_image_path, MediaType};
use crate::media_list::{
    backward_index, forward_index, is_first_index_of, wrap_backward, wrap_forward, MediaEntry,
    MediaList,
};
use crate::path_util::{parent_of, path_parent, paths_equal, same_path};

verus! {

/// Which entries a search counts as hits.
#[derive(Debug, Clone, Copy, PartialEq, Eq, Structural)]
pub enum Selection {
    /// Entries whose path names an image; videos are skipped.
    Images,
    /// Entries that pass a filter.
    Matching(MediaFilter),
}

impl Selection {
    /// Whether the selection counts `e` as a hit.
    pub open spec fn selects(self, e: MediaEntry) -> bool {
        match self {
            Selection::Images => is_image_path(e.path@),
            Selection::Matching(f) => f.admits(e),
        }
    }

    fn test(&self, e: &MediaEntry) -> (r: bool)
        ensures
            r == self.selects(*e),
    {
        match self {
            Selection::Images => match detect_media_type(e.path.as_str()) {
                Some(MediaType::Image) => true,
                _ => false,
            },
            Selection::Matching(f) => f.matches(e),
        }
    }
}

/// Position `offset` steps from `cur` in the given direction, wrapping around.
pub open spec fn offset_pos(cur: int, offset: int, len: int, forward: bool) -> int {
    if forward {
        wrap_forward(cur, offset, len)
    } else {
        wrap_backward(cur, offset, len)
    }
}

/// Number of hits among the entries 1, 2, ..., `k` steps from `cur` in the
/// given direction.
pub open spec fn count_hits(items: Seq<MediaEntry>, cur: int, forward: bool, sel: Selection, k: int) -> nat
    decreases k,
{
    if k <= 0 {
        0
    } else {
        count_hits(items, cur, forward, sel, k - 1) + if sel.selects(
            items[offset_pos(cur, k, items.len() as int, forward)],
        ) {
            1nat
        } else {
            0nat
        }
    }
}

/// Whether the entry `offset` steps from `cur` is the hit that comes after
/// exactly `skip` earlier hits, within one turn around the list.
pub open spec fn is_nth_hit(items: Seq<MediaEntry>, cur: int, forward: bool, sel: Selection, skip: int, offset: int) -> bool {
    &&& 1 <= offset <= items.len()
    &&& sel.selects(items[offset_pos(cur, offset, items.len() as int, forward)])
    &&& count_hits(items, cur, forward, sel, offset - 1) == skip
}

/// What a search for the hit after `skip` others returns, given the list and
/// its current position: the path of that hit, if it exists within one turn;
/// nothing when there is no current position or fewer hits than needed.
pub open spec fn search_result(items: Seq<MediaEntry>, cur: Option<int>, forward: bool, sel: Selection, skip: int, r: Option<Seq<char>>) -> bool {
    match r {
        Some(p) => match cur {
            Some(c) => exists|o: int| #[trigger] is_nth_hit(items, c, forward, sel, skip, o)
                && p == items[offset_pos(c, o, items.len() as int, forward)].path@,
            None => false,
        },
        None => match cur {
            Some(c) => count_hits(items, c, forward, sel, items.len() as int) <= skip,
            None => true,
        },
    }
}

/// Number of entries among the first `k` that pass the filter.
pub open spec fn count_admitted(items: Seq<MediaEntry>, f: MediaFilter, k: int) -> nat
    decreases k,
{
    if k <= 0 {
        0
    } else {
        count_admitted(items, f, k - 1) + if f.admits(items[k - 1]) {
            1nat
        } else {
            0nat
        }
    }
}

/// A snapshot of the navigation state for rendering navigation controls.
#[derive(Debug, Clone, Copy, PartialEq, Eq, Structural)]
pub struct NavigationInfo {
    /// Whether there is a next media to navigate to.
    pub has_next: bool,
    /// Whether there is a previous media to navigate to.
    pub has_previous: bool,
    /// Whether the current media is the first in the list.
    pub at_first: bool,
    /// Whether the current media is the last in the list.
    pub at_last: bool,
    /// Current position in the list (0-indexed), if set.
    pub current_index: Option<usize>,
    /// Total number of media items in the list.
    pub total_count: usize,
    /// Number of media items matching the current filter; the total when no
    /// filter is active.
    pub filtered_count: usize,
    /// Whether a filter is currently active.
    pub filter_active: bool,
}

/// The media list of the current directory, the current media path and the
/// active filter, shared by the viewer and the editor.
#[derive(Debug, Clone)]
pub struct MediaNavigator {
    media_list: MediaList,
    current_media_path: Option<String>,
    filter: MediaFilter,
}

impl MediaNavigator {
    /// The media list.
    pub closed spec fn list(&self) -> MediaList {
        self.media_list
    }

    /// The path of the current media, if any.
    pub closed spec fn current_path(&self) -> Option<Seq<char>> {
        match self.current_media_path {
            Some(p) => Some(p@),
            None => None,
        }
    }

    /// The active filter.
    pub closed spec fn active_filter(&self) -> MediaFilter {
        self.filter
    }

    /// The entries of the media list.
    pub open spec fn items(&self) -> Seq<MediaEntry> {
        self.list().items()
    }

    /// The current position in the media list.
    pub open spec fn cur(&self) -> Option<int> {
        self.list().cur()
    }

    /// Number of entries that pass the active filter, or all of them when no
    /// filter is active.
    pub open spec fn spec_filtered_count(&self) -> nat {
        if self.active_filter().spec_active() {
            count_admitted(self.items(), self.active_filter(), self.items().len() as int)
        } else {
            self.items().len()
        }
    }

    /// Creates an empty navigator: no media, no current path, no filter.
    pub fn new() -> (r: Self)
        ensures
            r.items() == Seq::<MediaEntry>::empty(),
            r.cur() is None,
            r.current_path() is None,
            r.active_filter() == inactive_filter(),
    {
        MediaNavigator {
            media_list: MediaList::new(),
            current_media_path: None,
            filter: MediaFilter::new(),
        }
    }

    /// Replaces the media list (used for scan results that arrive later).
    pub fn set_media_list(&mut self, media_list: MediaList)
        ensures
            final(self).list() == media_list,
            final(self).current_path() == old(self).current_path(),
            final(self).active_filter() == old(self).active_filter(),
    {
        self.media_list = media_list;
    }

    /// Builds the media list from the files of the directory of
    /// `current_file` (its media files, sorted in `sort_order`) and makes
    /// that file the current one.
    pub fn scan_directory(&mut self, files: Vec<MediaEntry>, current_file: &str, sort_order: SortOrder)
        ensures
            sorted_by(final(self).items(), sort_order),
            final(self).items().to_multiset() == media_entries(files@).to_multiset(),
            is_first_index_of(final(self).items(), current_file@, final(self).cur()),
            final(self).current_path() == Some(current_file@),
            final(self).active_filter() == old(self).active_filter(),
    {
        self.media_list = MediaList::from_listing(files, sort_order);
        self.media_list.set_current(current_file);
        self.current_media_path = Some(current_file.to_string());
    }

    /// Builds the media list from the files of a directory (its media files,
    /// sorted in `sort_order`) and selects the first media, or the first one
    /// that passes the active filter when one is active. Returns the selected
    /// path, or `None` when no media qualifies (then no media is current).
    pub fn scan_from_directory(&mut self, files: Vec<MediaEntry>, sort_order: SortOrder) -> (r: Option<String>)
        ensures
            sorted_by(final(self).items(), sort_order),
            final(self).items().to_multiset() == media_entries(files@).to_multiset(),
            final(self).active_filter() == old(self).active_filter(),
            match r {
                Some(p) => exists|i: int|
                    0 <= i < final(self).items().len()
                    && p@ == #[trigger] final(self).items()[i].path@
                    && (old(self).active_filter().spec_active() ==> (
                        old(self).active_filter().admits(final(self).items()[i])
                        && forall|j: int| 0 <= j < i ==> !old(self).active_filter().admits(#[trigger] final(self).items()[j])))
                    && (!old(self).active_filter().spec_active() ==> i == 0)
                    && is_first_index_of(final(self).items(), p@, final(self).cur())
                    && final(self).current_path() == Some(p@),
                None => {
                    &&& final(self).cur() is None
                    &&& final(self).current_path() is None
                    &&& (old(self).active_filter().spec_active() ==> forall|j: int|
                        0 <= j < final(self).items().len() ==> !old(self).active_filter().admits(#[trigger] final(self).items()[j]))
                    &&& (!old(self).active_filter().spec_active() ==> final(self).items().len() == 0)
                },
            },
    {
        self.media_list = MediaList::from_listing(files, sort_order);
        let pick = if self.filter.is_active() {
            first_admitted(&self.media_list, &self.filter)
        } else if self.media_list.len() > 0 {
            Some(0)
        } else {
            None
        };
        match pick {
            Some(i) => {
                let path = match self.media_list.get(i) {
                    Some(e) => e.path.clone(),
                    None => String::new(),
                };
                self.media_list.set_current(path.as_str());
                self.current_media_path = Some(path.clone());
                Some(path)
            },
            None => {
                self.current_media_path = None;
                None
            },
        }
    }
}


impl MediaNavigator {
    /// The path of the current media, if set.
    pub fn current_media_path(&self) -> (r: Option<&str>)
        ensures
            match r {
                Some(p) => self.current_path() == Some(p@),
                None => self.current_path() is None,
            },
    {
        match &self.current_media_path {
            Some(p) => Some(p.as_str()),
            None => None,
        }
    }

    /// Makes `path` the current media and moves the list position to it.
    pub fn set_current_media_path(&mut self, path: String)
        ensures
            final(self).items() == old(self).items(),
            is_first_index_of(final(self).items(), path@, final(self).cur()),
            final(self).current_path() == Some(path@),
            final(self).active_filter() == old(self).active_filter(),
    {
        self.media_list.set_current(path.as_str());
        self.current_media_path = Some(path);
    }

    /// Confirms navigation to `path` after it loaded: it becomes the current
    /// media and the list position moves to it.
    pub fn confirm_navigation(&mut self, path: &str)
        ensures
            final(self).items() == old(self).items(),
            is_first_index_of(final(self).items(), path@, final(self).cur()),
            final(self).current_path() == Some(path@),
            final(self).active_filter() == old(self).active_filter(),
    {
        self.media_list.set_current(path);
        self.current_media_path = Some(path.to_string());
    }

    /// The path `skip_count + 1` positions after the current one, wrapping
    /// around at the end; `None` when no media is current. The position does
    /// not change.
    pub fn peek_nth_next(&self, skip_count: usize) -> (r: Option<String>)
        ensures
            match r {
                Some(p) => self.list().spec_forward(skip_count + 1) matches Some(e) && p@ == e.path@,
                None => self.cur() is None,
            },
    {
        match self.media_list.peek_nth_next(skip_count) {
            Some(e) => Some(e.path.clone()),
            None => None,
        }
    }

    /// The path `skip_count + 1` positions before the current one, wrapping
    /// around at the start; `None` when no media is current.
    pub fn peek_nth_previous(&self, skip_count: usize) -> (r: Option<String>)
        ensures
            match r {
                Some(p) => self.list().spec_backward(skip_count + 1) matches Some(e) && p@ == e.path@,
                None => self.cur() is None,
            },
    {
        match self.media_list.peek_nth_previous(skip_count) {
            Some(e) => Some(e.path.clone()),
            None => None,
        }
    }

    /// The next path, wrapping around to the first; the position does not change.
    pub fn peek_next(&self) -> (r: Option<String>)
        ensures
            match r {
                Some(p) => self.list().spec_forward(1) matches Some(e) && p@ == e.path@,
                None => self.cur() is None,
            },
    {
        self.peek_nth_next(0)
    }

    /// The previous path, wrapping around to the last; the position does not change.
    pub fn peek_previous(&self) -> (r: Option<String>)
        ensures
            match r {
                Some(p) => self.list().spec_backward(1) matches Some(e) && p@ == e.path@,
                None => self.cur() is None,
            },
    {
        self.peek_nth_previous(0)
    }

    /// Searches from the current position, one turn around the list, for the
    /// hit that follows `skip` other hits.
    fn search(&self, forward: bool, skip: usize, sel: Selection) -> (r: Option<String>)
        ensures
            search_result(self.items(), self.cur(), forward, sel, skip as int,
                match r { Some(p) => Some(p@), None => None }),
    {
        let c = match self.media_list.current_index() {
            Some(c) => c,
            None => return None,
        };
        proof { self.media_list.lemma_cur_in_bounds(); }
        let total = self.media_list.len();
        let ghost items = self.items();
        let mut found: usize = 0;
        let mut i: usize = 0;
        while i < total
            invariant
                total == items.len(),
                items == self.items(),
                c < total,
                self.cur() == Some(c as int),
                i <= total,
                found <= skip,
                found == count_hits(items, c as int, forward, sel, i as int),
            decreases total - i,
        {
            let idx = if forward { forward_index(c, i, total) } else { backward_index(c, i, total) };
            assert(idx as int == offset_pos(c as int, i + 1, total as int, forward));
            match self.media_list.get(idx) {
                Some(e) => {
                    if sel.test(e) {
                        if found == skip {
                            assert(is_nth_hit(items, c as int, forward, sel, skip as int, i + 1));
                            return Some(e.path.clone());
                        }
                        found = found + 1;
                    }
                },
                None => {},
            }
            i = i + 1;
        }
        None
    }

    /// The image path after `skip_count` other images, going forward from
    /// the current position and wrapping around; videos are skipped and not
    /// counted. `None` when no media is current or there are too few images.
    pub fn peek_nth_next_image(&self, skip_count: usize) -> (r: Option<String>)
        ensures
            search_result(self.items(), self.cur(), true, Selection::Images, skip_count as int,
                match r { Some(p) => Some(p@), None => None }),
    {
        self.search(true, skip_count, Selection::Images)
    }

    /// The image path after `skip_count` other images, going backward from
    /// the current position and wrapping around; videos are skipped.
    pub fn peek_nth_previous_image(&self, skip_count: usize) -> (r: Option<String>)
        ensures
            search_result(self.items(), self.cur(), false, Selection::Images, skip_count as int,
                match r { Some(p) => Some(p@), None => None }),
    {
        self.search(false, skip_count, Selection::Images)
    }

    /// The next image path, skipping videos.
    pub fn peek_next_image(&self) -> (r: Option<String>)
        ensures
            search_result(self.items(), self.cur(), true, Selection::Images, 0,
                match r { Some(p) => Some(p@), None => None }),
    {
        self.peek_nth_next_image(0)
    }

    /// The previous image path, skipping videos.
    pub fn peek_previous_image(&self) -> (r: Option<String>)
        ensures
            search_result(self.items(), self.cur(), false, Selection::Images, 0,
                match r { Some(p) => Some(p@), None => None }),
    {
        self.peek_nth_previous_image(0)
    }

    /// Whether there is a next media (wrapping around, so whenever a media is current).
    pub fn has_next(&self) -> (r: bool)
        ensures
            r == (self.cur() is Some),
    {
        self.media_list.next().is_some()
    }

    /// Whether there is a previous media (wrapping around, so whenever a media is current).
    pub fn has_previous(&self) -> (r: bool)
        ensures
            r == (self.cur() is Some),
    {
        self.media_list.previous().is_some()
    }

    /// Whether the current media is the first in the list.
    pub fn is_at_first(&self) -> (r: bool)
        ensures
            r == (self.cur() == Some(0int)),
    {
        self.media_list.is_at_first()
    }

    /// Whether the current media is the last in the list.
    pub fn is_at_last(&self) -> (r: bool)
        ensures
            r == (self.cur() == Some(self.items().len() - 1)),
    {
        self.media_list.is_at_last()
    }

    /// Total number of media in the list.
    pub fn len(&self) -> (r: usize)
        ensures
            r == self.items().len(),
    {
        self.media_list.len()
    }

    /// Whether the media list is empty.
    pub fn is_empty(&self) -> (r: bool)
        ensures
            r == (self.items().len() == 0),
    {
        self.media_list.is_empty()
    }

    /// The current position in the media list, if set.
    pub fn current_index(&self) -> (r: Option<usize>)
        ensures
            match r {
                Some(i) => self.cur() == Some(i as int),
                None => self.cur() is None,
            },
    {
        self.media_list.current_index()
    }

    /// The active filter.
    pub fn filter(&self) -> (r: &MediaFilter)
        ensures
            *r == self.active_filter(),
    {
        &self.filter
    }

    /// Sets the filter criteria for navigation.
    pub fn set_filter(&mut self, filter: MediaFilter)
        ensures
            final(self).active_filter() == filter,
            final(self).list() == old(self).list(),
            final(self).current_path() == old(self).current_path(),
    {
        self.filter = filter;
    }

    /// Clears all filter criteria, so that all media match.
    pub fn clear_filter(&mut self)
        ensures
            final(self).active_filter() == inactive_filter(),
            final(self).list() == old(self).list(),
            final(self).current_path() == old(self).current_path(),
    {
        self.filter.clear();
    }

    /// Number of media passing the active filter; the total when no filter is active.
    pub fn filtered_count(&self) -> (r: usize)
        ensures
            r == self.spec_filtered_count(),
    {
        if !self.filter.is_active() {
            return self.len();
        }
        let total = self.len();
        let mut count: usize = 0;
        let mut i: usize = 0;
        while i < total
            invariant
                total == self.items().len(),
                i <= total,
                count <= i,
                count == count_admitted(self.items(), self.active_filter(), i as int),
            decreases total - i,
        {
            match self.media_list.get(i) {
                Some(e) => {
                    if self.filter.matches(e) {
                        count = count + 1;
                    }
                },
                None => {},
            }
            i = i + 1;
        }
        count
    }

    /// The path after `skip_count` other paths that pass the active filter,
    /// going forward and wrapping around; with no active filter, the same as
    /// [`MediaNavigator::peek_nth_next`].
    pub fn peek_nth_next_filtered(&self, skip_count: usize) -> (r: Option<String>)
        ensures
            !self.active_filter().spec_active() ==> match r {
                Some(p) => self.list().spec_forward(skip_count + 1) matches Some(e) && p@ == e.path@,
                None => self.cur() is None,
            },
            self.active_filter().spec_active() ==> search_result(self.items(), self.cur(), true,
                Selection::Matching(self.active_filter()), skip_count as int,
                match r { Some(p) => Some(p@), None => None }),
    {
        if !self.filter.is_active() {
            return self.peek_nth_next(skip_count);
        }
        self.search(true, skip_count, Selection::Matching(self.filter))
    }

    /// The path after `skip_count` other paths that pass the active filter,
    /// going backward and wrapping around; with no active filter, the same as
    /// [`MediaNavigator::peek_nth_previous`].
    pub fn peek_nth_previous_filtered(&self, skip_count: usize) -> (r: Option<String>)
        ensures
            !self.active_filter().spec_active() ==> match r {
                Some(p) => self.list().spec_backward(skip_count + 1) matches Some(e) && p@ == e.path@,
                None => self.cur() is None,
            },
            self.active_filter().spec_active() ==> search_result(self.items(), self.cur(), false,
                Selection::Matching(self.active_filter()), skip_count as int,
                match r { Some(p) => Some(p@), None => None }),
    {
        if !self.filter.is_active() {
            return self.peek_nth_previous(skip_count);
        }
        self.search(false, skip_count, Selection::Matching(self.filter))
    }

    /// The next path passing the active filter.
    pub fn peek_next_filtered(&self) -> (r: Option<String>)
        ensures
            !self.active_filter().spec_active() ==> match r {
                Some(p) => self.list().spec_forward(1) matches Some(e) && p@ == e.path@,
                None => self.cur() is None,
            },
            self.active_filter().spec_active() ==> search_result(self.items(), self.cur(), true,
                Selection::Matching(self.active_filter()), 0,
                match r { Some(p) => Some(p@), None => None }),
    {
        self.peek_nth_next_filtered(0)
    }

    /// The previous path passing the active filter.
    pub fn peek_previous_filtered(&self) -> (r: Option<String>)
        ensures
            !self.active_filter().spec_active() ==> match r {
                Some(p) => self.list().spec_backward(1) matches Some(e) && p@ == e.path@,
                None => self.cur() is None,
            },
            self.active_filter().spec_active() ==> search_result(self.items(), self.cur(), false,
                Selection::Matching(self.active_filter()), 0,
                match r { Some(p) => Some(p@), None => None }),
    {
        self.peek_nth_previous_filtered(0)
    }

    /// Whether the current media passes the active filter: `true` when no
    /// filter is active and a media is current, `false` when no media is
    /// current. The dates of the current media are those of its entry in the
    /// list; a media not in the list has no known dates.
    pub fn current_matches_filter(&self) -> (r: bool)
        ensures
            r == match self.current_path() {
                None => false,
                Some(p) => (exists|i: int| is_first_index_of(self.items(), p, Some(i))
                        && self.active_filter().admits(#[trigger] self.items()[i]))
                    || (is_first_index_of(self.items(), p, None)
                        && self.active_filter().admits_unlisted(p)),
            },
    {
        match &self.current_media_path {
            None => false,
            Some(p) => {
                match self.media_list.position_of(p.as_str()) {
                    Some(i) => match self.media_list.get(i) {
                        Some(e) => self.filter.matches(e),
                        None => false,
                    },
                    None => {
                        let e = MediaEntry::new(p.clone());
                        self.filter.matches(&e)
                    },
                }
            },
        }
    }

    /// A snapshot of the navigation state for the navigation controls.
    pub fn navigation_info(&self) -> (r: NavigationInfo)
        ensures
            r.has_next == (self.cur() is Some),
            r.has_previous == (self.cur() is Some),
            r.at_first == (self.cur() == Some(0int)),
            r.at_last == (self.cur() == Some(self.items().len() - 1)),
            match r.current_index {
                Some(i) => self.cur() == Some(i as int),
                None => self.cur() is None,
            },
            r.total_count == self.items().len(),
            r.filtered_count == self.spec_filtered_count(),
            r.filter_active == self.active_filter().spec_active(),
    {
        NavigationInfo {
            has_next: self.has_next(),
            has_previous: self.has_previous(),
            at_first: self.is_at_first(),
            at_last: self.is_at_last(),
            current_index: self.current_index(),
            total_count: self.len(),
            filtered_count: self.filtered_count(),
            filter_active: self.filter.is_active(),
        }
    }
}

impl Default for MediaNavigator {
    /// An empty navigator, as [`MediaNavigator::new`].
    fn default() -> (r: Self)
        ensures
            r.items() == Seq::<MediaEntry>::empty(),
            r.cur() is None,
            r.current_path() is None,
            r.active_filter() == inactive_filter(),
    {
        MediaNavigator::new()
    }
}

/// Whether each entry's path equals its own and no other entry's path, as
/// holds for the listing of one directory.
pub open spec fn distinct_paths(items: Seq<MediaEntry>) -> bool {
    forall|i: int, j: int| 0 <= i < items.len() && 0 <= j < items.len() ==>
        (same_path(#[trigger] items[i].path@, #[trigger] items[j].path@) <==> i == j)
}

/// Confirming the path that `peek_next` returned moves the position one step
/// forward, wrapping from the last media to the first.
pub proof fn lemma_confirm_peeked_next_advances(before: MediaNavigator, after: MediaNavigator, p: Seq<char>)
    requires
        distinct_paths(before.items()),
        before.list().spec_forward(1) matches Some(e) && p == e.path@,
        after.items() == before.items(),
        is_first_index_of(after.items(), p, after.cur()),
    ensures
        before.cur() matches Some(c) && after.cur() == Some((c + 1) % (before.items().len() as int)),
{
    before.list().lemma_cur_in_bounds();
    let c = before.cur().unwrap();
    let n = before.items().len() as int;
    let k = wrap_forward(c, 1, n);
    assert(0 <= k < n);
    let items = before.items();
    assert(same_path(items[k].path@, items[k].path@));
    match after.cur() {
        Some(m) => {
            assert(same_path(items[m].path@, items[k].path@));
        },
        None => {
            assert(!same_path(items[k].path@, p));
        },
    }
}

/// Confirming the path that `peek_previous` returned moves the position one
/// step backward, wrapping from the first media to the last.
pub proof fn lemma_confirm_peeked_previous_retreats(before: MediaNavigator, after: MediaNavigator, p: Seq<char>)
    requires
        distinct_paths(before.items()),
        before.list().spec_backward(1) matches Some(e) && p == e.path@,
        after.items() == before.items(),
        is_first_index_of(after.items(), p, after.cur()),
    ensures
        before.cur() matches Some(c) && after.cur() == Some((c - 1) % (before.items().len() as int)),
{
    before.list().lemma_cur_in_bounds();
    let c = before.cur().unwrap();
    let n = before.items().len() as int;
    let k = wrap_backward(c, 1, n);
    assert(0 <= k < n);
    let items = before.items();
    assert(same_path(items[k].path@, items[k].path@));
    match after.cur() {
        Some(m) => {
            assert(same_path(items[m].path@, items[k].path@));
        },
        None => {
            assert(!same_path(items[k].path@, p));
        },
    }
}

/// Going to the next media and then peeking back gives the media one started
/// from: `peek_previous` after confirming `peek_next` returns the old current path.
pub proof fn lemma_next_then_previous_returns(before: MediaNavigator, after: MediaNavigator, p: Seq<char>)
    requires
        distinct_paths(before.items()),
        before.list().spec_forward(1) matches Some(e) && p == e.path@,
        after.items() == before.items(),
        is_first_index_of(after.items(), p, after.cur()),
    ensures
        before.cur() matches Some(c) && after.list().spec_backward(1) == Some(before.items()[c]),
{
    lemma_confirm_peeked_next_advances(before, after, p);
    before.list().lemma_cur_in_bounds();
    let c = before.cur().unwrap();
    let n = before.items().len() as int;
    let m = (c + 1) % n;
    assert(wrap_backward(m, 1, n) == c) by {
        if c + 1 < n {
            vstd::arithmetic::div_mod::lemma_small_mod((c + 1) as nat, n as nat);
            vstd::arithmetic::div_mod::lemma_small_mod(c as nat, n as nat);
        } else {
            assert(c + 1 == n);
            vstd::arithmetic::div_mod::lemma_mod_self_0(n);
            vstd::arithmetic::div_mod::lemma_mod_multiples_vanish(-1, n - 1, n);
            vstd::arithmetic::div_mod::lemma_small_mod((n - 1) as nat, n as nat);
        }
    }
}

/// Navigation wraps around: the next media after the last is the first, and
/// the previous media before the first is the last.
pub proof fn lemma_wrap_around(nav: MediaNavigator)
    requires
        nav.cur() is Some,
    ensures
        nav.cur() == Some(nav.items().len() - 1) ==> nav.list().spec_forward(1) == Some(nav.items()[0]),
        nav.cur() == Some(0int) ==> nav.list().spec_backward(1) == Some(nav.items()[nav.items().len() - 1]),
{
    nav.list().lemma_cur_in_bounds();
    let n = nav.items().len() as int;
    vstd::arithmetic::div_mod::lemma_mod_self_0(n);
    vstd::arithmetic::div_mod::lemma_mod_multiples_vanish(-1, n - 1, n);
    vstd::arithmetic::div_mod::lemma_small_mod((n - 1) as nat, n as nat);
}

/// When every entry is a hit, the hit after `skip` others is simply the entry
/// `skip + 1` steps away (for `skip` below the list length).
pub proof fn lemma_all_hits_is_plain_step(items: Seq<MediaEntry>, c: int, forward: bool, sel: Selection, skip: int)
    requires
        0 <= c < items.len(),
        0 <= skip < items.len(),
        forall|i: int| 0 <= i < items.len() ==> sel.selects(#[trigger] items[i]),
    ensures
        is_nth_hit(items, c, forward, sel, skip, skip + 1),
{
    lemma_count_hits_all(items, c, forward, sel, skip);
    lemma_offset_pos_in_bounds(c, skip + 1, items.len() as int, forward);
}

proof fn lemma_offset_pos_in_bounds(c: int, o: int, n: int, forward: bool)
    requires
        n > 0,
    ensures
        0 <= offset_pos(c, o, n, forward) < n,
{
}

proof fn lemma_count_hits_all(items: Seq<MediaEntry>, c: int, forward: bool, sel: Selection, k: int)
    requires
        items.len() > 0,
        0 <= k,
        forall|i: int| 0 <= i < items.len() ==> sel.selects(#[trigger] items[i]),
    ensures
        count_hits(items, c, forward, sel, k) == k,
    decreases k,
{
    if k > 0 {
        lemma_count_hits_all(items, c, forward, sel, k - 1);
        lemma_offset_pos_in_bounds(c, k, items.len() as int, forward);
    }
}

/// The number of media passing a filter never exceeds the total.
pub proof fn lemma_filtered_count_at_most_total(nav: MediaNavigator)
    ensures
        nav.spec_filtered_count() <= nav.items().len(),
{
    lemma_count_admitted_bounded(nav.items(), nav.active_filter(), nav.items().len() as int);
}

proof fn lemma_count_admitted_bounded(items: Seq<MediaEntry>, f: MediaFilter, k: int)
    requires
        0 <= k,
    ensures
        count_admitted(items, f, k) <= k,
    decreases k,
{
    if k > 0 {
        lemma_count_admitted_bounded(items, f, k - 1);
    }
}

/// Some position answers a lookup by path: either a first entry with that
/// path, or none at all.
pub proof fn lemma_lookup_answered(items: Seq<MediaEntry>, p: Seq<char>)
    ensures
        is_first_index_of(items, p, None) || exists|i: int| is_first_index_of(items, p, Some(i)),
{
    if !is_first_index_of(items, p, None) {
        let j = choose|j: int| 0 <= j < items.len() && same_path(#[trigger] items[j].path@, p);
        lemma_minimal_match(items, p, j);
    }
}

proof fn lemma_minimal_match(items: Seq<MediaEntry>, p: Seq<char>, j: int)
    requires
        0 <= j < items.len(),
        same_path(items[j].path@, p),
    ensures
        exists|i: int| is_first_index_of(items, p, Some(i)),
    decreases j,
{
    if exists|k: int| 0 <= k < j && same_path(#[trigger] items[k].path@, p) {
        let k = choose|k: int| 0 <= k < j && same_path(#[trigger] items[k].path@, p);
        lemma_minimal_match(items, p, k);
    } else {
        assert(is_first_index_of(items, p, Some(j)));
    }
}

/// With no active filter, the current media always passes the filter (as
/// `current_matches_filter` reports) whenever a media is current.
pub proof fn lemma_no_filter_current_matches(nav: MediaNavigator, p: Seq<char>)
    requires
        !nav.active_filter().spec_active(),
        nav.current_path() == Some(p),
    ensures
        (exists|i: int| is_first_index_of(nav.items(), p, Some(i))
            && nav.active_filter().admits(#[trigger] nav.items()[i]))
        || (is_first_index_of(nav.items(), p, None) && nav.active_filter().admits_unlisted(p)),
{
    lemma_lookup_answered(nav.items(), p);
    if !is_first_index_of(nav.items(), p, None) {
        let i = choose|i: int| is_first_index_of(nav.items(), p, Some(i));
        assert(nav.active_filter().admits(nav.items()[i]));
    }
}

proof fn lemma_count_hits_monotone(items: Seq<MediaEntry>, c: int, forward: bool, sel: Selection, a: int, b: int)
    requires
        a <= b,
    ensures
        count_hits(items, c, forward, sel, a) <= count_hits(items, c, forward, sel, b),
    decreases b - a,
{
    if a < b {
        lemma_count_hits_monotone(items, c, forward, sel, a, b - 1);
    }
}

/// At most one position is the hit after exactly `skip` others.
pub proof fn lemma_nth_hit_unique(items: Seq<MediaEntry>, c: int, forward: bool, sel: Selection, skip: int, o1: int, o2: int)
    requires
        is_nth_hit(items, c, forward, sel, skip, o1),
        is_nth_hit(items, c, forward, sel, skip, o2),
    ensures
        o1 == o2,
{
    if o1 < o2 {
        lemma_count_hits_monotone(items, c, forward, sel, o1, o2 - 1);
    } else if o2 < o1 {
        lemma_count_hits_monotone(items, c, forward, sel, o2, o1 - 1);
    }
}

/// A search only lands on entries that its selection counts: an image peek
/// never returns a video, a filtered peek never a media that fails the
/// filter. The path returned is that of an entry of the list.
pub proof fn lemma_search_lands_on_hit(items: Seq<MediaEntry>, c: int, forward: bool, sel: Selection, skip: int, p: Seq<char>)
    requires
        search_result(items, Some(c), forward, sel, skip, Some(p)),
    ensures
        exists|i: int| 0 <= i < items.len() && #[trigger] items[i].path@ == p && sel.selects(items[i]),
{
    let o = choose|o: int| #[trigger] is_nth_hit(items, c, forward, sel, skip, o)
        && p == items[offset_pos(c, o, items.len() as int, forward)].path@;
    let i = offset_pos(c, o, items.len() as int, forward);
    lemma_offset_pos_in_bounds(c, o, items.len() as int, forward);
    assert(items[i].path@ == p);
}

/// The path a search returns, as a function of the list, the position, the
/// direction, the selection and the number of hits to skip.
pub open spec fn search_spec(items: Seq<MediaEntry>, cur: Option<int>, forward: bool, sel: Selection, skip: int) -> Option<Seq<char>> {
    match cur {
        Some(c) => if exists|o: int| is_nth_hit(items, c, forward, sel, skip, o) {
            let o = choose|o: int| is_nth_hit(items, c, forward, sel, skip, o);
            Some(items[offset_pos(c, o, items.len() as int, forward)].path@)
        } else {
            None
        },
        None => None,
    }
}

/// A search result is the one that [`search_spec`] names.
pub proof fn lemma_search_result_is_functional(items: Seq<MediaEntry>, cur: Option<int>, forward: bool, sel: Selection, skip: int, r: Option<Seq<char>>)
    requires
        search_result(items, cur, forward, sel, skip, r),
    ensures
        r == search_spec(items, cur, forward, sel, skip),
{
    match cur {
        Some(c) => {
            match r {
                Some(p) => {
                    let o1 = choose|o: int| #[trigger] is_nth_hit(items, c, forward, sel, skip, o)
                        && p == items[offset_pos(c, o, items.len() as int, forward)].path@;
                    let o2 = choose|o: int| is_nth_hit(items, c, forward, sel, skip, o);
                    lemma_nth_hit_unique(items, c, forward, sel, skip, o1, o2);
                },
                None => {
                    if exists|o: int| is_nth_hit(items, c, forward, sel, skip, o) {
                        let o = choose|o: int| is_nth_hit(items, c, forward, sel, skip, o);
                        lemma_count_hits_monotone(items, c, forward, sel, o, items.len() as int);
                    }
                },
            }
        },
        None => {},
    }
}

/// The path that filtered navigation peeks at, as a function of the
/// navigator: the plain step when no filter is active, the filtered search
/// otherwise.
pub open spec fn spec_peek_filtered(nav: MediaNavigator, forward: bool, skip: int) -> Option<Seq<char>> {
    if nav.active_filter().spec_active() {
        search_spec(nav.items(), nav.cur(), forward, Selection::Matching(nav.active_filter()), skip)
    } else {
        let e = if forward { nav.list().spec_forward(skip + 1) } else { nav.list().spec_backward(skip + 1) };
        match e {
            Some(x) => Some(x.path@),
            None => None,
        }
    }
}

/// Image paths among the first `k` filtered peeks in one direction, in order.
pub open spec fn spec_prefetch_side(nav: MediaNavigator, forward: bool, k: int) -> Seq<Seq<char>>
    decreases k,
{
    if k <= 0 {
        Seq::empty()
    } else {
        spec_prefetch_side(nav, forward, k - 1) + match spec_peek_filtered(nav, forward, k - 1) {
            Some(p) => if is_image_path(p) { seq![p] } else { Seq::empty() },
            None => Seq::empty(),
        }
    }
}

/// The path that a navigation request peeks at: for the viewer, the
/// filtered peek; for the editor, the image search.
pub open spec fn spec_peek_for_navigation(nav: MediaNavigator, direction: NavigationDirection, mode: NavigationMode, skip: int) -> Option<Seq<char>> {
    match mode {
        NavigationMode::AllMedia => spec_peek_filtered(nav, direction == NavigationDirection::Next, skip),
        NavigationMode::ImagesOnly => search_spec(nav.items(), nav.cur(),
            direction == NavigationDirection::Next, Selection::Images, skip),
    }
}

/// Direction of a navigation request.
#[derive(Debug, Clone, Copy, PartialEq, Eq, Structural)]
pub enum NavigationDirection {
    Next,
    Previous,
}

/// Which media a navigation request may land on.
#[derive(Debug, Clone, Copy, PartialEq, Eq, Structural)]
pub enum NavigationMode {
    /// Any media passing the active filter (the viewer).
    AllMedia,
    /// Images only, ignoring the filter (the editor).
    ImagesOnly,
}

impl MediaNavigator {
    /// The filtered peek as a function of the navigator.
    pub fn peek_filtered(&self, forward: bool, skip: usize) -> (r: Option<String>)
        ensures
            opt_path(r) == spec_peek_filtered(*self, forward, skip as int),
    {
        let r = if forward { self.peek_nth_next_filtered(skip) } else { self.peek_nth_previous_filtered(skip) };
        proof {
            if self.active_filter().spec_active() {
                lemma_search_result_is_functional(self.items(), self.cur(), forward,
                    Selection::Matching(self.active_filter()), skip as int, opt_path(r));
            }
        }
        r
    }

    /// The path that a navigation request should load, without moving: for
    /// the viewer, the next or previous media passing the filter; for the
    /// editor, the next or previous image. `skip` media that failed to load
    /// are passed over first.
    pub fn peek_for_navigation(&self, direction: NavigationDirection, mode: NavigationMode, skip: usize) -> (r: Option<String>)
        ensures
            opt_path(r) == spec_peek_for_navigation(*self, direction, mode, skip as int),
    {
        match mode {
            NavigationMode::AllMedia => self.peek_filtered(direction == NavigationDirection::Next, skip),
            NavigationMode::ImagesOnly => {
                let forward = direction == NavigationDirection::Next;
                let r = if forward { self.peek_nth_next_image(skip) } else { self.peek_nth_previous_image(skip) };
                proof {
                    lemma_search_result_is_functional(self.items(), self.cur(), forward,
                        Selection::Images, skip as int, opt_path(r));
                }
                r
            },
        }
    }

    /// The media to show after deleting the current one: the next media when
    /// the list holds more than one and the next path differs from the
    /// current one; otherwise none.
    pub fn next_after_delete(&self) -> (r: Option<String>)
        ensures
            self.items().len() <= 1 ==> r is None,
            self.items().len() > 1 ==> match r {
                Some(p) => self.list().spec_forward(1) matches Some(e) && p@ == e.path@
                    && (self.current_path() matches Some(c) && !same_path(p@, c)),
                None => self.cur() is None || self.current_path() is None
                    || (self.list().spec_forward(1) matches Some(e)
                        && self.current_path() matches Some(c) && same_path(e.path@, c)),
            },
    {
        if self.len() <= 1 {
            return None;
        }
        match self.peek_next() {
            Some(next) => match &self.current_media_path {
                Some(current) => {
                    if crate::path_util::paths_equal(next.as_str(), current.as_str()) {
                        None
                    } else {
                        Some(next)
                    }
                },
                None => None,
            },
            None => None,
        }
    }

    /// Paths to prefetch around the current media: the image paths among the
    /// next `count` filtered peeks, then those among the previous `count`.
    pub fn prefetch_candidates(&self, count: usize) -> (r: Vec<String>)
        ensures
            r@.map_values(|p: String| p@) == spec_prefetch_side(*self, true, count as int)
                + spec_prefetch_side(*self, false, count as int),
    {
        let mut r: Vec<String> = Vec::new();
        let mut i: usize = 0;
        while i < count
            invariant
                i <= count,
                r@.map_values(|p: String| p@) == spec_prefetch_side(*self, true, i as int),
            decreases count - i,
        {
            match self.peek_filtered(true, i) {
                Some(p) => {
                    if is_image(p.as_str()) {
                        r.push(p);
                    }
                },
                None => {},
            }
            assert(r@.map_values(|p: String| p@) =~= spec_prefetch_side(*self, true, i + 1));
            i = i + 1;
        }
        let ghost forward_part = spec_prefetch_side(*self, true, count as int);
        let mut j: usize = 0;
        while j < count
            invariant
                j <= count,
                r@.map_values(|p: String| p@) == forward_part + spec_prefetch_side(*self, false, j as int),
            decreases count - j,
        {
            let ghost before = r@.map_values(|p: String| p@);
            let ghost side = spec_prefetch_side(*self, false, j as int);
            let ghost tail = match spec_peek_filtered(*self, false, j as int) {
                Some(p) => if is_image_path(p) { seq![p] } else { Seq::<Seq<char>>::empty() },
                None => Seq::<Seq<char>>::empty(),
            };
            assert(spec_prefetch_side(*self, false, j + 1) == side + tail);
            match self.peek_filtered(false, j) {
                Some(p) => {
                    if is_image(p.as_str()) {
                        r.push(p);
                    }
                },
                None => {},
            }
            assert(r@.map_values(|p: String| p@) =~= before + tail);
            assert(forward_part + (side + tail) =~= (forward_part + side) + tail);
            j = j + 1;
        }
        r
    }
}

/// The view of an optional path.
pub open spec fn opt_path(r: Option<String>) -> Option<Seq<char>> {
    match r {
        Some(p) => Some(p@),
        None => None,
    }
}

fn is_image(path: &str) -> (r: bool)
    ensures
        r == is_image_path(path@),
{
    match detect_media_type(path) {
        Some(MediaType::Image) => true,
        _ => false,
    }
}

/// After a file was saved, the path from which to rescan the viewed
/// directory: the current media, when the saved file lies in the same
/// directory as the current media (so that the new file joins the list while
/// the current media stays selected); `None` otherwise.
pub fn rescan_directory_if_same(nav: &MediaNavigator, saved_path: &str) -> (r: Option<String>)
    ensures
        match r {
            Some(p) => nav.current_path() == Some(p@)
                && (parent_of(saved_path@) matches Some(s)
                    && parent_of(p@) matches Some(c) && same_path(s, c)),
            None => nav.current_path() is None || parent_of(saved_path@) is None
                || (nav.current_path() matches Some(q) && (parent_of(q) is None
                    || (parent_of(saved_path@) matches Some(s)
                        && parent_of(q) matches Some(c) && !same_path(s, c)))),
        },
{
    let saved_dir = match path_parent(saved_path) {
        Some(d) => d,
        None => return None,
    };
    let current = match nav.current_media_path() {
        Some(p) => p,
        None => return None,
    };
    let current_dir = match path_parent(current) {
        Some(d) => d,
        None => return None,
    };
    if paths_equal(saved_dir.as_str(), current_dir.as_str()) {
        Some(current.to_string())
    } else {
        None
    }
}

/// Index of the first entry of `list` that passes `f`.
fn first_admitted(list: &MediaList, f: &MediaFilter) -> (r: Option<usize>)
    ensures
        match r {
            Some(i) => i < list.items().len() && f.admits(list.items()[i as int])
                && forall|j: int| 0 <= j < i ==> !f.admits(#[trigger] list.items()[j]),
            None => forall|j: int| 0 <= j < list.items().len() ==> !f.admits(#[trigger] list.items()[j]),
        },
{
    let total = list.len();
    let mut i: usize = 0;
    while i < total
        invariant
            total == list.items().len(),
            i <= total,
            forall|j: int| 0 <= j < i ==> !f.admits(#[trigger] list.items()[j]),
        decreases total - i,
    {
        match list.get(i) {
            Some(e) => {
                if f.matches(e) {
                    return Some(i);
                }
            },
            None => {},
        }
        i = i + 1;
    }
    None
}

} // verus!
