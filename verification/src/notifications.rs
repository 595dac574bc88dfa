//! Text of the notifications shown after navigation skipped unreadable files.

use vstd::prelude::*;

verus! {

/// Longest file name shown in a notification, in characters.
pub const MAX_FILENAME_LEN: usize = 12;

/// A file name shortened for a notification: unchanged when at most
/// [`MAX_FILENAME_LEN`] characters long, otherwise its first
/// `MAX_FILENAME_LEN - 1` characters followed by an ellipsis.
pub open spec fn spec_truncate_filename(name: Seq<char>) -> Seq<char> {
    if name.len() <= MAX_FILENAME_LEN {
        name
    } else {
        name.subrange(0, MAX_FILENAME_LEN - 1) + "…"@
    }
}

/// Shortens a file name for display in a notification.
pub fn truncate_filename(name: &str) -> (r: String)
    ensures
        r@ == spec_truncate_filename(name@),
        r@.len() <= MAX_FILENAME_LEN,
        name@.len() <= MAX_FILENAME_LEN ==> r@ == name@,
        name@.len() > MAX_FILENAME_LEN ==> r@.subrange(0, MAX_FILENAME_LEN - 1) == name@.subrange(0, MAX_FILENAME_LEN - 1),
{
    if name.unicode_len() <= MAX_FILENAME_LEN {
        name.to_string()
    } else {
        let head = name.substring_char(0, MAX_FILENAME_LEN - 1);
        let mut r = String::from_str(head);
        r.append("…");
        proof {
            reveal_strlit("…");
            assert(r@.subrange(0, MAX_FILENAME_LEN - 1) =~= name@.subrange(0, MAX_FILENAME_LEN - 1));
        }
        r
    }
}

/// The text listing skipped files: nothing for none; the name for one; both
/// names separated by a comma for two; for more, the first name followed by
/// `others_text`, the localised "and N others" phrase for N = count - 1.
/// Each name is shortened by [`spec_truncate_filename`].
pub open spec fn spec_skipped_files_message(files: Seq<Seq<char>>, others_text: Seq<char>) -> Seq<char> {
    if files.len() == 0 {
        Seq::empty()
    } else if files.len() == 1 {
        spec_truncate_filename(files[0])
    } else if files.len() == 2 {
        spec_truncate_filename(files[0]) + ", "@ + spec_truncate_filename(files[1])
    } else {
        spec_truncate_filename(files[0]) + " "@ + others_text
    }
}

/// The N for the "and N others" phrase of [`format_skipped_files_message`]:
/// the number of files beyond the first, when there are three or more.
pub fn skipped_others_count(count: usize) -> (r: Option<usize>)
    ensures
        count >= 3 ==> r == Some((count - 1) as usize),
        count < 3 ==> r is None,
{
    if count >= 3 { Some(count - 1) } else { None }
}

/// Formats the list of files skipped during navigation for a notification.
pub fn format_skipped_files_message(skipped_files: &Vec<String>, others_text: &str) -> (r: String)
    ensures
        r@ == spec_skipped_files_message(skipped_files@.map_values(|f: String| f@), others_text@),
{
    let ghost views = skipped_files@.map_values(|f: String| f@);
    let n = skipped_files.len();
    if n == 0 {
        String::new()
    } else if n == 1 {
        truncate_filename(skipped_files[0].as_str())
    } else if n == 2 {
        let mut r = truncate_filename(skipped_files[0].as_str());
        let second = truncate_filename(skipped_files[1].as_str());
        r.append(", ");
        r.append(second.as_str());
        r
    } else {
        let mut r = truncate_filename(skipped_files[0].as_str());
        r.append(" ");
        r.append(others_text);
        r
    }
}

} // verus!
