//! Navigation that passes over media which fail to load.
//!
//! When the media a navigation request chose fails to load, the request
//! moves on to the following one in the same direction, up to a maximum
//! number of attempts, and collects the names of the files it passed over
//! so that the user can be told about them once.

use vstd::prelude::*;
use crate::navigation::{
    opt_path, spec_peek_for_navigation, MediaNavigator, NavigationDirection, NavigationMode,
};
use crate::path_util::{file_name_of, path_file_name};

verus! {

/// How far a navigation request that skips unloadable media has gone.
#[derive(Debug, Clone, PartialEq)]
pub struct SkipProgress {
    /// The direction of the request.
    pub direction: NavigationDirection,
    /// How many media failed to load so far.
    pub skip_attempts: u32,
    /// Names of the files that failed, in order.
    pub skipped_files: Vec<String>,
}

/// What to do after a media failed to load during navigation.
#[derive(Debug, Clone, PartialEq)]
pub enum SkipDecision {
    /// Load `path` next; the request continues with `progress`.
    Retry { path: String, progress: SkipProgress },
    /// Stop and tell the user about the files that were passed over.
    GiveUp { skipped_files: Vec<String> },
}

/// Decides how a navigation request continues after the media it tried
/// failed to load. The failed file joins the skipped ones; while fewer than
/// `max_attempts` attempts failed before this one, the request peeks past
/// as many media as have now failed (without moving) and retries with the
/// path found; with no such path, or with the attempts used up, it stops.
pub fn after_load_failure(
    nav: &MediaNavigator,
    mode: NavigationMode,
    progress: SkipProgress,
    failed_file: String,
    max_attempts: u32,
) -> (r: SkipDecision)
    ensures
        ({
            let files = progress.skipped_files@.push(failed_file);
            if progress.skip_attempts < max_attempts {
                let k = progress.skip_attempts + 1;
                match spec_peek_for_navigation(*nav, progress.direction, mode, k) {
                    Some(p) => r matches SkipDecision::Retry { path, progress: next }
                        && path@ == p
                        && next.direction == progress.direction
                        && next.skip_attempts == k
                        && next.skipped_files@ == files,
                    None => r matches SkipDecision::GiveUp { skipped_files } && skipped_files@ == files,
                }
            } else {
                r matches SkipDecision::GiveUp { skipped_files } && skipped_files@ == files
            }
        }),
        r matches SkipDecision::Retry { progress: next, .. } ==> next.skip_attempts <= max_attempts,
{
    let direction = progress.direction;
    let attempts = progress.skip_attempts;
    let mut files = progress.skipped_files;
    files.push(failed_file);
    if attempts < max_attempts {
        let k = attempts + 1;
        let next = nav.peek_for_navigation(direction, mode, k as usize);
        proof {
            assert(opt_path(next) == spec_peek_for_navigation(*nav, direction, mode, k as int));
        }
        match next {
            Some(path) => SkipDecision::Retry {
                path,
                progress: SkipProgress { direction, skip_attempts: k, skipped_files: files },
            },
            None => SkipDecision::GiveUp { skipped_files: files },
        }
    } else {
        SkipDecision::GiveUp { skipped_files: files }
    }
}

/// The files to tell the user about once a media loaded: those that a
/// navigation request passed over on its way, if there were any.
pub fn skipped_files_to_report(progress: Option<SkipProgress>) -> (r: Option<Vec<String>>)
    ensures
        match progress {
            Some(p) => if p.skipped_files@.len() > 0 {
                r matches Some(f) && f@ == p.skipped_files@
            } else {
                r is None
            },
            None => r is None,
        },
{
    match progress {
        Some(p) => if p.skipped_files.len() > 0 { Some(p.skipped_files) } else { None },
        None => None,
    }
}

/// The name under which a failed file is reported: its file name, or
/// `"unknown"` when there is no path or the path has no file name.
pub fn failed_file_label(path: Option<&str>) -> (r: String)
    ensures
        r@ == match path {
            Some(p) => match file_name_of(p@) {
                Some(n) => n,
                None => "unknown"@,
            },
            None => "unknown"@,
        },
{
    let name = match path {
        Some(p) => path_file_name(p),
        None => None,
    };
    match name {
        Some(n) => n,
        None => "unknown".to_string(),
    }
}

} // verus!
