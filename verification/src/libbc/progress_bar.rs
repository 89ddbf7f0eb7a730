//! The "now playing" progress display as data: total and elapsed seconds.
//! Drawing it is the render collaborator's job; the model decides what the
//! display says and when the quit watcher may let the process end.

use vstd::prelude::*;
use vstd::string::StringExecFns;
use crate::libbc::player::PlaybackContext;
use crate::libbc::strutil::{format_duration, spec_format_duration};
use crate::models::shared_data_models::CurrentTrack;

verus! {

/// One progress bar: how long the playing track is and how far it has come,
/// both in whole seconds. A `total` of `u64::MAX` means the length is
/// unknown and only the elapsed time is shown.
pub struct ProgressBarModel {
    pub total: u64,
    pub position: u64,
}

/// The at-most-one progress bar on screen.
pub struct ProgressModel {
    pub bar: Option<ProgressBarModel>,
}

impl ProgressModel {
    /// No bar yet.
    pub fn new() -> (r: ProgressModel)
        ensures
            r.bar is None,
    {
        ProgressModel { bar: None }
    }
}

/// Seconds left on a bar; zero once the position has reached the total.
pub open spec fn spec_remaining(b: ProgressBarModel) -> u64 {
    if b.position >= b.total {
        0
    } else {
        (b.total - b.position) as u64
    }
}

/// Starts a fresh progress bar for the track that was just promoted: its
/// length is the track's duration, or unknown when the catalog reported no
/// duration, and it starts at zero.
pub fn update_song_info_on_screen(pm: &mut ProgressModel, item: &CurrentTrack)
    ensures
        (match final(pm).bar {
            Some(b) => {
                &&& b.total == (if item@.duration > 0 {
                    item@.duration
                } else {
                    u64::MAX
                })
                &&& b.position == 0
            },
            None => false,
        }),
{
    let total = if item.duration > 0 {
        item.duration
    } else {
        u64::MAX
    };
    pm.bar = Some(ProgressBarModel { total, position: 0 });
}

/// What the progress text of a bar says.
pub open spec fn spec_progress_info(elapsed_seconds: int, total_seconds: Option<u64>) -> Seq<
    char,
> {
    match total_seconds {
        Some(t) => if t != u64::MAX {
            spec_format_duration(elapsed_seconds) + " / "@ + spec_format_duration(t as int)
        } else {
            spec_format_duration(elapsed_seconds)
        },
        None => spec_format_duration(elapsed_seconds),
    }
}

/// The progress text beside the bar: elapsed time, and the total when it is
/// known.
pub fn get_progress_bar_progress_info(elapsed_seconds: u64, total_seconds: Option<u64>) -> (r:
    String)
    ensures
        r@ == spec_progress_info(elapsed_seconds as int, total_seconds),
{
    let mut r = format_duration(elapsed_seconds);
    match total_seconds {
        Some(t) => {
            if t != u64::MAX {
                r.append(" / ");
                let rest = format_duration(t);
                r.append(rest.as_str());
            }
        },
        None => {},
    }
    r
}

/// Seconds left on the bar on screen. Callers must know a bar exists — the
/// quit watcher only runs after a track was promoted.
pub fn get_progress_bar_current_position(pm: &ProgressModel) -> (r: u64)
    requires
        pm.bar is Some,
    ensures
        r == spec_remaining(pm.bar->0),
{
    match &pm.bar {
        Some(b) => {
            if b.position >= b.total {
                0
            } else {
                b.total - b.position
            }
        },
        None => 0,
    }
}

/// Whether the supervisory quit watcher may let the process end: the playing
/// track's remaining time has reached zero, so quitting does not cut audio
/// off mid-track.
pub fn quit_watch_done(pm: &ProgressModel) -> (r: bool)
    requires
        pm.bar is Some,
    ensures
        r == (spec_remaining(pm.bar->0) == 0),
{
    get_progress_bar_current_position(pm) == 0
}

/// One ticker step: while the ticker is enabled, the bar advances a second.
pub fn tick_progress_bar_progress(pm: &mut ProgressModel, ctx: &PlaybackContext)
    ensures
        (match (old(pm).bar, final(pm).bar) {
            (Some(b0), Some(b1)) => {
                &&& b1.total == b0.total
                &&& b1.position as int == (if ctx.tick_enabled && b0.position < u64::MAX {
                    b0.position + 1
                } else {
                    b0.position as int
                })
            },
            (None, None) => true,
            _ => false,
        }),
{
    if ctx.tick_enabled {
        match &mut pm.bar {
            Some(b) => {
                if b.position < u64::MAX {
                    b.position = b.position + 1;
                }
            },
            None => {},
        }
    }
}

/// Takes the progress bar off the screen.
pub fn destroy(pm: &mut ProgressModel)
    ensures
        final(pm).bar is None,
{
    pm.bar = None;
}

} // verus!
