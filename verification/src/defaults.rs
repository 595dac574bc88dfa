//! Default values and bounds of the configurable settings.
//!
//! Quantities that the settings screen shows with a fractional part are held
//! in integer units: zoom in percent, volume in percent of the nominal level,
//! seek steps in milliseconds and playback speeds in hundredths.

use vstd::prelude::*;

verus! {

/// Default zoom level when opening an image, in percent (100 = original size).
pub const DEFAULT_ZOOM_PERCENT: u32 = 100;
/// Minimum allowed zoom, in percent.
pub const MIN_ZOOM_PERCENT: u32 = 10;
/// Maximum allowed zoom, in percent.
pub const MAX_ZOOM_PERCENT: u32 = 800;
/// Default zoom step for zoom in/out operations, in percent.
pub const DEFAULT_ZOOM_STEP_PERCENT: u32 = 10;
/// Minimum allowed zoom step, in percent.
pub const MIN_ZOOM_STEP_PERCENT: u32 = 1;
/// Maximum allowed zoom step, in percent.
pub const MAX_ZOOM_STEP_PERCENT: u32 = 200;

/// Default auto-hide timeout for fullscreen overlays, in seconds.
pub const DEFAULT_OVERLAY_TIMEOUT_SECS: u32 = 3;
/// Minimum overlay timeout, in seconds.
pub const MIN_OVERLAY_TIMEOUT_SECS: u32 = 1;
/// Maximum overlay timeout, in seconds.
pub const MAX_OVERLAY_TIMEOUT_SECS: u32 = 30;

/// Default playback volume, in percent of the nominal level.
pub const DEFAULT_VOLUME_PERCENT: u32 = 80;
/// Minimum volume, in percent.
pub const MIN_VOLUME_PERCENT: u32 = 0;
/// Maximum volume, in percent.
pub const MAX_VOLUME_PERCENT: u32 = 100;
/// Volume adjustment per key press, in percent.
pub const VOLUME_STEP_PERCENT: u32 = 5;
/// Target loudness for audio normalization, in LUFS.
pub const DEFAULT_NORMALIZATION_TARGET_LUFS: i32 = -16;

/// Default keyboard seek step (arrow keys), in milliseconds.
pub const DEFAULT_KEYBOARD_SEEK_STEP_MS: u32 = 2000;
/// Minimum keyboard seek step, in milliseconds.
pub const MIN_KEYBOARD_SEEK_STEP_MS: u32 = 500;
/// Maximum keyboard seek step, in milliseconds.
pub const MAX_KEYBOARD_SEEK_STEP_MS: u32 = 30000;

/// Default frame cache size in megabytes for video seek optimization.
pub const DEFAULT_FRAME_CACHE_MB: u32 = 64;
/// Minimum frame cache size in megabytes.
pub const MIN_FRAME_CACHE_MB: u32 = 16;
/// Maximum frame cache size in megabytes.
pub const MAX_FRAME_CACHE_MB: u32 = 512;
/// Default frame history size in megabytes for backward frame stepping.
pub const DEFAULT_FRAME_HISTORY_MB: u32 = 128;
/// Minimum frame history size in megabytes.
pub const MIN_FRAME_HISTORY_MB: u32 = 32;
/// Maximum frame history size in megabytes.
pub const MAX_FRAME_HISTORY_MB: u32 = 512;

/// Default playback speed, in hundredths (100 = normal speed).
pub const DEFAULT_PLAYBACK_SPEED_HUNDREDTHS: u32 = 100;
/// Minimum playback speed, in hundredths.
pub const MIN_PLAYBACK_SPEED_HUNDREDTHS: u32 = 10;
/// Maximum playback speed, in hundredths.
pub const MAX_PLAYBACK_SPEED_HUNDREDTHS: u32 = 800;
/// Speed above which audio is muted, in hundredths.
pub const PLAYBACK_SPEED_AUTO_MUTE_THRESHOLD_HUNDREDTHS: u32 = 200;

/// Playback speed presets in hundredths, slowest first.
pub open spec fn playback_speed_presets() -> Seq<u32> {
    seq![10u32, 15, 20, 25, 33, 50, 75, 100, 125, 150, 200, 400, 800]
}

/// The playback speed presets in hundredths, slowest first.
pub fn playback_speed_presets_hundredths() -> (r: Vec<u32>)
    ensures
        r@ == playback_speed_presets(),
{
    let r: Vec<u32> = vec![10u32, 15, 20, 25, 33, 50, 75, 100, 125, 150, 200, 400, 800];
    assert(r@ =~= playback_speed_presets());
    r
}

/// The defaults lie within their bounds, the bounds are ordered, and the
/// playback speed presets ascend strictly, stay within the speed bounds and
/// include the normal speed.
pub proof fn lemma_defaults_are_consistent()
    ensures
        0 < MIN_ZOOM_PERCENT < DEFAULT_ZOOM_PERCENT < MAX_ZOOM_PERCENT,
        0 < MIN_ZOOM_STEP_PERCENT <= DEFAULT_ZOOM_STEP_PERCENT <= MAX_ZOOM_STEP_PERCENT,
        MIN_ZOOM_STEP_PERCENT < MAX_ZOOM_STEP_PERCENT,
        0 < MIN_OVERLAY_TIMEOUT_SECS <= DEFAULT_OVERLAY_TIMEOUT_SECS <= MAX_OVERLAY_TIMEOUT_SECS,
        MIN_VOLUME_PERCENT <= DEFAULT_VOLUME_PERCENT <= MAX_VOLUME_PERCENT,
        VOLUME_STEP_PERCENT > 0,
        0 < MIN_KEYBOARD_SEEK_STEP_MS <= DEFAULT_KEYBOARD_SEEK_STEP_MS <= MAX_KEYBOARD_SEEK_STEP_MS,
        0 < MIN_FRAME_CACHE_MB <= DEFAULT_FRAME_CACHE_MB <= MAX_FRAME_CACHE_MB,
        0 < MIN_FRAME_HISTORY_MB <= DEFAULT_FRAME_HISTORY_MB <= MAX_FRAME_HISTORY_MB,
        0 < MIN_PLAYBACK_SPEED_HUNDREDTHS <= DEFAULT_PLAYBACK_SPEED_HUNDREDTHS <= MAX_PLAYBACK_SPEED_HUNDREDTHS,
        100 < PLAYBACK_SPEED_AUTO_MUTE_THRESHOLD_HUNDREDTHS <= MAX_PLAYBACK_SPEED_HUNDREDTHS,
        playback_speed_presets().len() > 0,
        forall|i: int| 0 <= i < playback_speed_presets().len() ==>
            MIN_PLAYBACK_SPEED_HUNDREDTHS <= #[trigger] playback_speed_presets()[i] <= MAX_PLAYBACK_SPEED_HUNDREDTHS,
        forall|i: int, j: int| 0 <= i < j < playback_speed_presets().len() ==>
            #[trigger] playback_speed_presets()[i] < #[trigger] playback_speed_presets()[j],
        playback_speed_presets().contains(DEFAULT_PLAYBACK_SPEED_HUNDREDTHS),
{
    let p = playback_speed_presets();
    assert(p[7] == DEFAULT_PLAYBACK_SPEED_HUNDREDTHS);
    assert forall|i: int, j: int| 0 <= i < j < p.len() implies #[trigger] p[i] < #[trigger] p[j] by {
        assert(forall|k: int| 0 <= k < p.len() - 1 ==> #[trigger] p[k] < p[k + 1]);
        lemma_ascending_steps(p, i, j);
    }
}

proof fn lemma_ascending_steps(p: Seq<u32>, i: int, j: int)
    requires
        0 <= i < j < p.len(),
        forall|k: int| 0 <= k < p.len() - 1 ==> #[trigger] p[k] < p[k + 1],
    ensures
        p[i] < p[j],
    decreases j - i,
{
    if j > i + 1 {
        lemma_ascending_steps(p, i, j - 1);
    }
}

/// The zoom step, in percent, brought within the supported bounds.
pub open spec fn spec_clamp_zoom_step(value: u32) -> u32 {
    if value < MIN_ZOOM_STEP_PERCENT {
        MIN_ZOOM_STEP_PERCENT
    } else if value > MAX_ZOOM_STEP_PERCENT {
        MAX_ZOOM_STEP_PERCENT
    } else {
        value
    }
}

/// Keeps a zoom step (in percent) inside the supported range, so that
/// persisted configurations cannot request nonsensical increments.
pub fn clamp_zoom_step(value: u32) -> (r: u32)
    ensures
        r == spec_clamp_zoom_step(value),
        MIN_ZOOM_STEP_PERCENT <= r <= MAX_ZOOM_STEP_PERCENT,
        MIN_ZOOM_STEP_PERCENT <= value <= MAX_ZOOM_STEP_PERCENT ==> r == value,
{
    if value < MIN_ZOOM_STEP_PERCENT {
        MIN_ZOOM_STEP_PERCENT
    } else if value > MAX_ZOOM_STEP_PERCENT {
        MAX_ZOOM_STEP_PERCENT
    } else {
        value
    }
}

/// Clamping a zoom step twice gives the same result as clamping it once.
pub proof fn lemma_clamp_zoom_step_idempotent(value: u32)
    ensures
        spec_clamp_zoom_step(spec_clamp_zoom_step(value)) == spec_clamp_zoom_step(value),
{
}

} // verus!
