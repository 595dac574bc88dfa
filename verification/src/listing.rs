//! From the files of a directory to its media list: which files count as
//! media, and the order in which they are shown.

use vstd::prelude::*;
use crate::config::SortOrder;
use crate::media::{detect_media_type, media_type_of_path};
use crate::media_list::MediaEntry;

verus! {

/// Whether `a` comes strictly before `b` character by character, looking
/// from position `i` on; a proper prefix comes first.
pub open spec fn text_before_from(a: Seq<char>, b: Seq<char>, i: int) -> bool
    decreases b.len() - i,
{
    if i < 0 || i >= b.len() {
        false
    } else if i >= a.len() {
        true
    } else if a[i] != b[i] {
        (a[i] as u32) < (b[i] as u32)
    } else {
        text_before_from(a, b, i + 1)
    }
}

/// Whether `a` comes strictly before `b` in the order of their characters.
pub open spec fn text_before(a: Seq<char>, b: Seq<char>) -> bool {
    text_before_from(a, b, 0)
}

/// Whether one optional date sorts strictly before another: known dates in
/// increasing order, unknown dates after all known ones.
pub open spec fn date_before(a: Option<u64>, b: Option<u64>) -> bool {
    match (a, b) {
        (Some(x), Some(y)) => x < y,
        (Some(_), None) => true,
        _ => false,
    }
}

/// Whether entry `a` sorts strictly before entry `b` in the given order.
/// Dates that are equal (or both unknown) are ordered by path.
pub open spec fn entry_before(a: MediaEntry, b: MediaEntry, order: SortOrder) -> bool {
    match order {
        SortOrder::Alphabetical => text_before(a.path@, b.path@),
        SortOrder::ModifiedDate => date_before(a.modified, b.modified)
            || (a.modified == b.modified && text_before(a.path@, b.path@)),
        SortOrder::CreatedDate => date_before(a.created, b.created)
            || (a.created == b.created && text_before(a.path@, b.path@)),
    }
}

/// Whether no later entry sorts strictly before an earlier one.
pub open spec fn sorted_by(items: Seq<MediaEntry>, order: SortOrder) -> bool {
    forall|i: int, j: int| 0 <= i < j < items.len() ==> !entry_before(#[trigger] items[j], #[trigger] items[i], order)
}

/// Whether a file is a media file the viewer shows.
pub open spec fn is_media_entry(e: MediaEntry) -> bool {
    media_type_of_path(e.path@) is Some
}

/// The media files among the files of a directory, in listing order.
pub open spec fn media_entries(files: Seq<MediaEntry>) -> Seq<MediaEntry> {
    files.filter(|e: MediaEntry| is_media_entry(e))
}

/// No text comes before itself.
pub proof fn lemma_text_before_irreflexive(a: Seq<char>, i: int)
    ensures
        !text_before_from(a, a, i),
    decreases a.len() - i,
{
    if 0 <= i < a.len() {
        lemma_text_before_irreflexive(a, i + 1);
    }
}

/// The character order of texts is transitive.
pub proof fn lemma_text_before_transitive(a: Seq<char>, b: Seq<char>, c: Seq<char>, i: int)
    requires
        text_before_from(a, b, i),
        text_before_from(b, c, i),
    ensures
        text_before_from(a, c, i),
    decreases c.len() - i,
{
    if i < a.len() && a[i] == b[i] && b[i] == c[i] {
        lemma_text_before_transitive(a, b, c, i + 1);
    }
}

/// The order of entries is transitive.
pub proof fn lemma_entry_before_transitive(a: MediaEntry, b: MediaEntry, c: MediaEntry, order: SortOrder)
    requires
        entry_before(a, b, order),
        entry_before(b, c, order),
    ensures
        entry_before(a, c, order),
{
    if text_before(a.path@, b.path@) && text_before(b.path@, c.path@) {
        lemma_text_before_transitive(a.path@, b.path@, c.path@, 0);
    }
}

/// No entry sorts before itself, and two entries never sort before each other.
pub proof fn lemma_entry_before_asymmetric(a: MediaEntry, b: MediaEntry, order: SortOrder)
    ensures
        !entry_before(a, a, order),
        !(entry_before(a, b, order) && entry_before(b, a, order)),
{
    lemma_text_before_irreflexive(a.path@, 0);
    if entry_before(a, b, order) && entry_before(b, a, order) {
        lemma_entry_before_transitive(a, b, a, order);
    }
}

/// Of two different texts that agree before position `i`, one comes
/// before the other.
pub proof fn lemma_text_before_total(a: Seq<char>, b: Seq<char>, i: int)
    requires
        0 <= i <= a.len(),
        i <= b.len(),
        a.subrange(0, i) == b.subrange(0, i),
        a != b,
    ensures
        text_before_from(a, b, i) || text_before_from(b, a, i),
    decreases a.len() - i,
{
    if i == a.len() && i == b.len() {
        assert(a =~= a.subrange(0, i));
        assert(b =~= b.subrange(0, i));
    } else if i < a.len() && i < b.len() && a[i] == b[i] {
        assert(a.subrange(0, i + 1) =~= a.subrange(0, i).push(a[i]));
        assert(b.subrange(0, i + 1) =~= b.subrange(0, i).push(b[i]));
        lemma_text_before_total(a, b, i + 1);
    } else if i < a.len() && i < b.len() {
        vstd::utf8::char_u32_cast(a[i], a[i] as u32);
        vstd::utf8::char_u32_cast(b[i], b[i] as u32);
    }
}

/// Two entries with different paths are ordered one way or the other.
pub proof fn lemma_entry_before_total(x: MediaEntry, y: MediaEntry, order: SortOrder)
    requires
        x.path@ != y.path@,
    ensures
        entry_before(x, y, order) || entry_before(y, x, order),
{
    assert(x.path@.subrange(0, 0) =~= y.path@.subrange(0, 0));
    lemma_text_before_total(x.path@, y.path@, 0);
}

/// Whether no two entries share a path.
pub open spec fn pairwise_different_paths(items: Seq<MediaEntry>) -> bool {
    forall|i: int, j: int| 0 <= i < j < items.len() ==> #[trigger] items[i].path@ != #[trigger] items[j].path@
}

/// The files of a directory, whose paths differ, have exactly one arrangement
/// in a given sort order: two sorted sequences holding the same entries are
/// equal.
pub proof fn lemma_sorted_arrangement_unique(a: Seq<MediaEntry>, b: Seq<MediaEntry>, order: SortOrder)
    requires
        sorted_by(a, order),
        sorted_by(b, order),
        a.to_multiset() == b.to_multiset(),
        pairwise_different_paths(a),
    ensures
        a == b,
    decreases a.len(),
{
    a.to_multiset_ensures();
    b.to_multiset_ensures();
    if a.len() == 0 {
        assert(b.len() == 0);
        assert(a =~= b);
    } else {
        assert(b.len() == a.len());
        assert(a.contains(a[0]));
        assert(b.to_multiset().count(a[0]) > 0);
        assert(b.contains(a[0]));
        let j = choose|j: int| 0 <= j < b.len() && b[j] == a[0];
        assert(b.contains(b[0]));
        assert(a.to_multiset().count(b[0]) > 0);
        assert(a.contains(b[0]));
        let i = choose|i: int| 0 <= i < a.len() && a[i] == b[0];
        if a[0] != b[0] {
            assert(i != 0 && j != 0);
            lemma_entry_before_total(a[0], a[i], order);
            assert(!entry_before(a[i], a[0], order));
            assert(!entry_before(b[j], b[0], order));
            assert(false);
        }
        vstd::seq_lib::to_multiset_remove(a, 0);
        vstd::seq_lib::to_multiset_remove(b, 0);
        assert(a.remove(0) =~= a.drop_first());
        assert(b.remove(0) =~= b.drop_first());
        let ra = a.drop_first();
        let rb = b.drop_first();
        assert(sorted_by(ra, order)) by {
            assert forall|p: int, q: int| 0 <= p < q < ra.len() implies !entry_before(#[trigger] ra[q], #[trigger] ra[p], order) by {
                assert(ra[q] == a[q + 1] && ra[p] == a[p + 1]);
            }
        }
        assert(sorted_by(rb, order)) by {
            assert forall|p: int, q: int| 0 <= p < q < rb.len() implies !entry_before(#[trigger] rb[q], #[trigger] rb[p], order) by {
                assert(rb[q] == b[q + 1] && rb[p] == b[p + 1]);
            }
        }
        assert(pairwise_different_paths(ra)) by {
            assert forall|p: int, q: int| 0 <= p < q < ra.len() implies #[trigger] ra[p].path@ != #[trigger] ra[q].path@ by {
                assert(ra[q] == a[q + 1] && ra[p] == a[p + 1]);
            }
        }
        lemma_sorted_arrangement_unique(ra, rb, order);
        assert(a =~= seq![a[0]] + ra);
        assert(b =~= seq![b[0]] + rb);
    }
}

/// Compares two texts character by character.
pub fn text_comes_before(a: &str, b: &str) -> (r: bool)
    ensures
        r == text_before(a@, b@),
{
    let n = a.unicode_len();
    let m = b.unicode_len();
    let mut i: usize = 0;
    while i < n && i < m
        invariant
            n == a@.len(),
            m == b@.len(),
            i <= n,
            i <= m,
            text_before_from(a@, b@, 0) == text_before_from(a@, b@, i as int),
        decreases n - i,
    {
        let x = a.get_char(i);
        let y = b.get_char(i);
        if x != y {
            return (x as u32) < (y as u32);
        }
        i = i + 1;
    }
    i < m
}

fn date_comes_before(a: Option<u64>, b: Option<u64>) -> (r: bool)
    ensures
        r == date_before(a, b),
{
    match (a, b) {
        (Some(x), Some(y)) => x < y,
        (Some(_), None) => true,
        _ => false,
    }
}

fn same_date(a: Option<u64>, b: Option<u64>) -> (r: bool)
    ensures
        r == (a == b),
{
    match (a, b) {
        (Some(x), Some(y)) => x == y,
        (None, None) => true,
        _ => false,
    }
}

/// Checks whether entry `a` sorts strictly before entry `b`.
pub fn entry_comes_before(a: &MediaEntry, b: &MediaEntry, order: SortOrder) -> (r: bool)
    ensures
        r == entry_before(*a, *b, order),
{
    match order {
        SortOrder::Alphabetical => text_comes_before(a.path.as_str(), b.path.as_str()),
        SortOrder::ModifiedDate => date_comes_before(a.modified, b.modified)
            || (same_date(a.modified, b.modified) && text_comes_before(a.path.as_str(), b.path.as_str())),
        SortOrder::CreatedDate => date_comes_before(a.created, b.created)
            || (same_date(a.created, b.created) && text_comes_before(a.path.as_str(), b.path.as_str())),
    }
}

/// Inserts `x` into a sorted vector after every entry that does not sort
/// after it, so that the vector stays sorted.
fn insert_sorted(v: &mut Vec<MediaEntry>, x: MediaEntry, order: SortOrder)
    requires
        sorted_by(old(v)@, order),
    ensures
        sorted_by(final(v)@, order),
        final(v)@.to_multiset() == old(v)@.to_multiset().insert(x),
{
    let n = v.len();
    let mut k: usize = 0;
    while k < n
        invariant
            n == v@.len(),
            k <= n,
            forall|j: int| 0 <= j < k ==> !entry_before(x, #[trigger] v@[j], order),
        ensures
            k <= n,
            forall|j: int| 0 <= j < k ==> !entry_before(x, #[trigger] v@[j], order),
            k < n ==> entry_before(x, v@[k as int], order),
        decreases n - k,
    {
        if entry_comes_before(&x, &v[k], order) {
            break;
        }
        k = k + 1;
    }
    let ghost before = v@;
    proof {
        vstd::seq_lib::to_multiset_insert(before, k as int, x);
        before.insert_ensures(k as int, x);
    }
    v.insert(k, x);
    proof {
        let after = v@;
        assert(after == before.insert(k as int, x));
        assert forall|i: int, j: int| 0 <= i < j < after.len() implies !entry_before(
            #[trigger] after[j],
            #[trigger] after[i],
            order,
        ) by {
            if j < k {
                assert(after[i] == before[i] && after[j] == before[j]);
            } else if j == k {
                assert(after[i] == before[i]);
            } else if i == k {
                let bj = before[j - 1];
                assert(after[j] == bj);
                lemma_entry_before_asymmetric(bj, x, order);
                if k + 1 < j {
                    if entry_before(bj, x, order) {
                        lemma_entry_before_transitive(bj, x, before[k as int], order);
                    }
                } else {
                    assert(j - 1 == k);
                }
            } else if i < k {
                assert(after[i] == before[i] && after[j] == before[j - 1]);
            } else {
                assert(after[i] == before[i - 1] && after[j] == before[j - 1]);
            }
        }
    }
}

/// The media files among `files`, sorted in the given order.
pub fn sort_media_files(files: Vec<MediaEntry>, order: SortOrder) -> (r: Vec<MediaEntry>)
    ensures
        sorted_by(r@, order),
        r@.to_multiset() == media_entries(files@).to_multiset(),
{
    let mut out: Vec<MediaEntry> = Vec::new();
    let n = files.len();
    let mut i: usize = 0;
    proof {
        assert(files@.take(0) =~= Seq::<MediaEntry>::empty());
        assert(media_entries(Seq::<MediaEntry>::empty()) =~= Seq::<MediaEntry>::empty()) by {
            reveal_with_fuel(Seq::filter, 1);
        }
        assert(out@ =~= Seq::<MediaEntry>::empty());
    }
    while i < n
        invariant
            n == files@.len(),
            i <= n,
            sorted_by(out@, order),
            out@.to_multiset() == media_entries(files@.take(i as int)).to_multiset(),
        decreases n - i,
    {
        let e = files[i].duplicate();
        proof {
            assert(files@.take(i + 1) == files@.take(i as int).push(files@[i as int]));
            files@.take(i as int).lemma_filter_push(files@[i as int], |e: MediaEntry| is_media_entry(e));
        }
        match detect_media_type(e.path.as_str()) {
            Some(_) => {
                proof {
                    vstd::seq_lib::to_multiset_build(media_entries(files@.take(i as int)), e);
                }
                insert_sorted(&mut out, e, order);
            },
            None => {},
        }
        i = i + 1;
    }
    proof {
        assert(files@.take(n as int) == files@);
    }
    out
}


/// Past a common prefix, the character order of two texts is decided at
/// the position where they part.
proof fn lemma_text_before_skips_common_prefix(a: Seq<char>, b: Seq<char>, i: int, k: int)
    requires
        0 <= i <= k,
        k <= a.len(),
        k <= b.len(),
        a.subrange(0, k) == b.subrange(0, k),
    ensures
        text_before_from(a, b, i) == text_before_from(a, b, k),
        text_before_from(b, a, i) == text_before_from(b, a, k),
    decreases k - i,
{
    if i < k {
        assert(a.subrange(0, k)[i] == a[i] && b.subrange(0, k)[i] == b[i]);
        lemma_text_before_skips_common_prefix(a, b, i + 1, k);
    }
}

/// Alphabetical order compares paths character by character, whatever their
/// lengths: where two paths first differ, the one with the smaller
/// character comes first, and a path that is a proper prefix of another
/// comes before it.
pub proof fn lemma_alphabetical_is_character_order(a: MediaEntry, b: MediaEntry, k: int)
    requires
        0 <= k <= a.path@.len(),
        k <= b.path@.len(),
        a.path@.subrange(0, k) == b.path@.subrange(0, k),
        (k < a.path@.len() && k < b.path@.len() && (a.path@[k] as u32) < (b.path@[k] as u32))
            || (k == a.path@.len() && k < b.path@.len()),
    ensures
        entry_before(a, b, SortOrder::Alphabetical),
        !entry_before(b, a, SortOrder::Alphabetical),
{
    lemma_text_before_skips_common_prefix(a.path@, b.path@, 0, k);
}

} // verus!
