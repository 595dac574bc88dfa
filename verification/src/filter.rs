//! Media filtering criteria used by navigation.

use vstd::prelude::*;
use crate::media::{detect_media_type, media_type_of_path, MediaType};
use crate::media_list::MediaEntry;

verus! {

/// Which media types a filter lets through.
#[derive(Debug, Clone, Copy, PartialEq, Eq, Structural)]
pub enum MediaTypeFilter {
    All,
    ImagesOnly,
    VideosOnly,
}

impl MediaTypeFilter {
    /// Whether this criterion restricts anything.
    pub open spec fn spec_active(self) -> bool {
        !(self is All)
    }

    /// Whether a path of the given type passes this criterion.
    pub open spec fn admits(self, t: Option<MediaType>) -> bool {
        match self {
            MediaTypeFilter::All => true,
            MediaTypeFilter::ImagesOnly => t == Some(MediaType::Image),
            MediaTypeFilter::VideosOnly => t == Some(MediaType::Video),
        }
    }

    /// Returns `true` unless the criterion lets every media type through.
    pub fn is_active(&self) -> (r: bool)
        ensures
            r == self.spec_active(),
    {
        match self {
            MediaTypeFilter::All => false,
            _ => true,
        }
    }
}

/// Which file date a date range applies to.
#[derive(Debug, Clone, Copy, PartialEq, Eq, Structural)]
pub enum DateField {
    Modified,
    Created,
}

/// A date range on one of the file dates, in seconds since the Unix epoch.
/// Both bounds are inclusive; a missing bound leaves that side open.
#[derive(Debug, Clone, Copy, PartialEq, Eq, Structural)]
pub struct DateRangeFilter {
    pub field: DateField,
    pub start: Option<u64>,
    pub end: Option<u64>,
}

impl DateRangeFilter {
    /// A range on the modification date with no bounds.
    pub fn new() -> (r: Self)
        ensures
            r == (DateRangeFilter { field: DateField::Modified, start: None, end: None }),
    {
        DateRangeFilter { field: DateField::Modified, start: None, end: None }
    }

    /// Whether an entry passes this range: with no bound set every entry
    /// passes; with a bound set the entry's date on the chosen field must be
    /// known and lie within the bounds.
    pub open spec fn admits_entry(self, e: MediaEntry) -> bool {
        let date = match self.field {
            DateField::Modified => e.modified,
            DateField::Created => e.created,
        };
        if self.start is None && self.end is None {
            true
        } else {
            match date {
                None => false,
                Some(d) => (match self.start {
                    Some(s) => s <= d,
                    None => true,
                }) && (match self.end {
                    Some(t) => d <= t,
                    None => true,
                }),
            }
        }
    }

    /// Checks an entry against this range.
    pub fn matches(&self, e: &MediaEntry) -> (r: bool)
        ensures
            r == self.admits_entry(*e),
    {
        if self.start.is_none() && self.end.is_none() {
            return true;
        }
        let date = match self.field {
            DateField::Modified => e.modified,
            DateField::Created => e.created,
        };
        match date {
            None => false,
            Some(d) => {
                let after_start = match self.start {
                    Some(s) => s <= d,
                    None => true,
                };
                let before_end = match self.end {
                    Some(t) => d <= t,
                    None => true,
                };
                after_start && before_end
            },
        }
    }
}

/// The filter criteria applied to navigation: a media type criterion and an
/// optional date range.
#[derive(Debug, Clone, Copy, PartialEq, Eq, Structural)]
pub struct MediaFilter {
    pub media_type: MediaTypeFilter,
    pub date_range: Option<DateRangeFilter>,
}

/// The filter that lets every media file through.
pub open spec fn inactive_filter() -> MediaFilter {
    MediaFilter { media_type: MediaTypeFilter::All, date_range: None }
}

impl MediaFilter {
    /// The default filter: all media types, no date range.
    pub fn new() -> (r: Self)
        ensures
            r == inactive_filter(),
    {
        MediaFilter { media_type: MediaTypeFilter::All, date_range: None }
    }

    /// Whether the filter restricts anything.
    pub open spec fn spec_active(self) -> bool {
        self.media_type.spec_active() || self.date_range is Some
    }

    /// Whether an entry passes the filter.
    pub open spec fn admits(self, e: MediaEntry) -> bool {
        &&& self.media_type.admits(media_type_of_path(e.path@))
        &&& match self.date_range {
            Some(r) => r.admits_entry(e),
            None => true,
        }
    }

    /// Whether a file that is not in the media list (so with no known dates)
    /// passes the filter.
    pub open spec fn admits_unlisted(self, path: Seq<char>) -> bool {
        &&& self.media_type.admits(media_type_of_path(path))
        &&& match self.date_range {
            Some(r) => r.start is None && r.end is None,
            None => true,
        }
    }

    /// Returns `true` if a media type criterion or a date range is set.
    pub fn is_active(&self) -> (r: bool)
        ensures
            r == self.spec_active(),
    {
        self.media_type.is_active() || self.date_range.is_some()
    }

    /// Checks whether an entry passes the filter.
    pub fn matches(&self, e: &MediaEntry) -> (r: bool)
        ensures
            r == self.admits(*e),
    {
        let type_ok = match self.media_type {
            MediaTypeFilter::All => true,
            MediaTypeFilter::ImagesOnly => match detect_media_type(e.path.as_str()) {
                Some(MediaType::Image) => true,
                _ => false,
            },
            MediaTypeFilter::VideosOnly => match detect_media_type(e.path.as_str()) {
                Some(MediaType::Video) => true,
                _ => false,
            },
        };
        if !type_ok {
            return false;
        }
        match &self.date_range {
            Some(r) => r.matches(e),
            None => true,
        }
    }

    /// Resets every criterion, so that all media match.
    pub fn clear(&mut self)
        ensures
            *final(self) == inactive_filter(),
    {
        self.media_type = MediaTypeFilter::All;
        self.date_range = None;
    }
}

impl Default for MediaFilter {
    /// The inactive filter.
    fn default() -> (r: Self)
        ensures
            r == inactive_filter(),
    {
        MediaFilter::new()
    }
}

impl Default for DateRangeFilter {
    /// A range on the modification date with no bounds.
    fn default() -> (r: Self)
        ensures
            r == (DateRangeFilter { field: DateField::Modified, start: None, end: None }),
    {
        DateRangeFilter::new()
    }
}

/// Which bound of a date range a change applies to.
#[derive(Debug, Clone, Copy, PartialEq, Eq, Structural)]
pub enum DateTarget {
    Start,
    End,
}

/// A change that the user makes in the filter dropdown.
#[derive(Debug, Clone, Copy, PartialEq, Eq, Structural)]
pub enum FilterChange {
    /// Select the media type criterion.
    MediaTypeChanged(MediaTypeFilter),
    /// Turn the date range on (with no bounds) or off.
    ToggleDateFilter(bool),
    /// Choose the date the range applies to.
    DateFieldChanged(DateField),
    /// Set a bound to the submitted date (`None` when the date is incomplete).
    DateSubmit(DateTarget, Option<u64>),
    /// Remove a bound.
    ClearDate(DateTarget),
    /// Reset every criterion.
    ResetFilters,
}

/// What a filter change is recorded as in the diagnostics log.
#[derive(Debug, Clone, Copy, PartialEq, Eq, Structural)]
pub enum FilterChangeRecord {
    MediaType { from: MediaTypeFilter, to: MediaTypeFilter },
    DateRangeEnabled,
    DateRangeDisabled,
    DateFieldChanged(DateField),
    DateBoundSet(DateTarget),
    DateBoundCleared(DateTarget),
    /// All criteria were reset; records which were set before.
    Cleared { had_media_type_filter: bool, had_date_filter: bool },
}

/// A date range with one bound replaced.
pub open spec fn with_bound(r: DateRangeFilter, target: DateTarget, value: Option<u64>) -> DateRangeFilter {
    match target {
        DateTarget::Start => DateRangeFilter { start: value, ..r },
        DateTarget::End => DateRangeFilter { end: value, ..r },
    }
}

/// The filter after a change. Changes to the date range's field or bounds
/// have no effect while no date range is set.
pub open spec fn spec_apply_filter_change(f: MediaFilter, c: FilterChange) -> MediaFilter {
    match c {
        FilterChange::MediaTypeChanged(t) => MediaFilter { media_type: t, ..f },
        FilterChange::ToggleDateFilter(on) => MediaFilter {
            date_range: if on {
                Some(DateRangeFilter { field: DateField::Modified, start: None, end: None })
            } else {
                None
            },
            ..f
        },
        FilterChange::DateFieldChanged(field) => MediaFilter {
            date_range: match f.date_range {
                Some(r) => Some(DateRangeFilter { field: field, ..r }),
                None => None,
            },
            ..f
        },
        FilterChange::DateSubmit(target, date) => MediaFilter {
            date_range: match f.date_range {
                Some(r) => Some(with_bound(r, target, date)),
                None => None,
            },
            ..f
        },
        FilterChange::ClearDate(target) => MediaFilter {
            date_range: match f.date_range {
                Some(r) => Some(with_bound(r, target, None)),
                None => None,
            },
            ..f
        },
        FilterChange::ResetFilters => inactive_filter(),
    }
}

/// The diagnostics record of a change applied to `f`.
pub open spec fn spec_filter_change_record(f: MediaFilter, c: FilterChange) -> FilterChangeRecord {
    match c {
        FilterChange::MediaTypeChanged(t) => FilterChangeRecord::MediaType { from: f.media_type, to: t },
        FilterChange::ToggleDateFilter(on) => if on {
            FilterChangeRecord::DateRangeEnabled
        } else {
            FilterChangeRecord::DateRangeDisabled
        },
        FilterChange::DateFieldChanged(field) => FilterChangeRecord::DateFieldChanged(field),
        FilterChange::DateSubmit(target, _) => FilterChangeRecord::DateBoundSet(target),
        FilterChange::ClearDate(target) => FilterChangeRecord::DateBoundCleared(target),
        FilterChange::ResetFilters => FilterChangeRecord::Cleared {
            had_media_type_filter: f.media_type.spec_active(),
            had_date_filter: f.date_range is Some,
        },
    }
}

impl MediaFilter {
    /// Applies a change from the filter dropdown and returns the new filter
    /// with the record that the diagnostics log keeps of the change.
    pub fn apply_change(&self, c: FilterChange) -> (r: (MediaFilter, FilterChangeRecord))
        ensures
            r.0 == spec_apply_filter_change(*self, c),
            r.1 == spec_filter_change_record(*self, c),
    {
        let f = *self;
        match c {
            FilterChange::MediaTypeChanged(t) => (
                MediaFilter { media_type: t, date_range: f.date_range },
                FilterChangeRecord::MediaType { from: f.media_type, to: t },
            ),
            FilterChange::ToggleDateFilter(on) => {
                if on {
                    (MediaFilter { media_type: f.media_type, date_range: Some(DateRangeFilter::new()) },
                        FilterChangeRecord::DateRangeEnabled)
                } else {
                    (MediaFilter { media_type: f.media_type, date_range: None }, FilterChangeRecord::DateRangeDisabled)
                }
            },
            FilterChange::DateFieldChanged(field) => {
                let dr = match f.date_range {
                    Some(r) => Some(DateRangeFilter { field: field, start: r.start, end: r.end }),
                    None => None,
                };
                (MediaFilter { media_type: f.media_type, date_range: dr }, FilterChangeRecord::DateFieldChanged(field))
            },
            FilterChange::DateSubmit(target, date) => {
                let dr = match f.date_range {
                    Some(r) => Some(match target {
                        DateTarget::Start => DateRangeFilter { field: r.field, start: date, end: r.end },
                        DateTarget::End => DateRangeFilter { field: r.field, start: r.start, end: date },
                    }),
                    None => None,
                };
                (MediaFilter { media_type: f.media_type, date_range: dr }, FilterChangeRecord::DateBoundSet(target))
            },
            FilterChange::ClearDate(target) => {
                let dr = match f.date_range {
                    Some(r) => Some(match target {
                        DateTarget::Start => DateRangeFilter { field: r.field, start: None, end: r.end },
                        DateTarget::End => DateRangeFilter { field: r.field, start: r.start, end: None },
                    }),
                    None => None,
                };
                (MediaFilter { media_type: f.media_type, date_range: dr }, FilterChangeRecord::DateBoundCleared(target))
            },
            FilterChange::ResetFilters => (
                MediaFilter::new(),
                FilterChangeRecord::Cleared {
                    had_media_type_filter: f.media_type.is_active(),
                    had_date_filter: f.date_range.is_some(),
                },
            ),
        }
    }
}

/// Resetting the filters always leaves a filter that lets every media through.
pub proof fn lemma_reset_makes_inactive(f: MediaFilter)
    ensures
        !spec_apply_filter_change(f, FilterChange::ResetFilters).spec_active(),
{
}

/// Turning the date range off removes it, whatever its field and bounds.
pub proof fn lemma_date_toggle_off_removes_range(f: MediaFilter)
    ensures
        spec_apply_filter_change(f, FilterChange::ToggleDateFilter(false)).date_range is None,
        spec_apply_filter_change(f, FilterChange::ToggleDateFilter(false)).media_type == f.media_type,
{
}

/// An inactive filter admits every entry.
pub proof fn lemma_inactive_filter_admits_all(f: MediaFilter, e: MediaEntry)
    requires
        !f.spec_active(),
    ensures
        f.admits(e),
{
}


/// Submitting a date sets exactly the chosen bound of the date range: the
/// other bound, the date field and the media type stay as they were; with
/// no date range, nothing changes. Clearing a bound empties exactly that
/// bound in the same way.
pub proof fn lemma_date_bound_changes_only_its_bound(f: MediaFilter, target: DateTarget, date: Option<u64>)
    ensures
        ({
            let g = spec_apply_filter_change(f, FilterChange::DateSubmit(target, date));
            &&& g.media_type == f.media_type
            &&& match f.date_range {
                None => g.date_range is None,
                Some(r) => g.date_range matches Some(n) && n.field == r.field
                    && (target == DateTarget::Start ==> n.start == date && n.end == r.end)
                    && (target == DateTarget::End ==> n.end == date && n.start == r.start),
            }
        }),
        ({
            let g = spec_apply_filter_change(f, FilterChange::ClearDate(target));
            &&& g.media_type == f.media_type
            &&& match f.date_range {
                None => g.date_range is None,
                Some(r) => g.date_range matches Some(n) && n.field == r.field
                    && (target == DateTarget::Start ==> n.start is None && n.end == r.end)
                    && (target == DateTarget::End ==> n.end is None && n.start == r.start),
            }
        }),
{
}

} // verus!
