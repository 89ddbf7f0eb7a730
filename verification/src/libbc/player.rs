//! The playback core: the coordination flags, the single-flight look-ahead
//! buffering protocol, the per-tick promote-and-play step, and the command
//! vocabulary.
//!
//! One tick of the playback loop runs, in this order: refill the queue when
//! the sink is empty (see `fill_playlist_plan`), trigger the look-ahead fetch
//! (`enqueue_truck_buffer`), promote the queue head into the playing slot when
//! the sink is empty and the head is buffered (`play`), and drain at most one
//! pending command (`dispatch_command` / `apply_command`). A command issued
//! this tick therefore affects only the next tick's playback decision. The
//! caller performs the fetch that `enqueue_truck_buffer` asks for and reports
//! its bytes back through `complete_buffer_fetch`.

use vstd::prelude::*;
use vstd::string::StringExecFns;
use crate::libbc::shared_data::{buffer_write_effect, SharedState};
use crate::libbc::strutil::{
    format_duration, info_line, opt_or_empty, opt_str, spec_format_duration, spec_info_line,
};
use crate::models::bc_discover_index::Element;
use crate::models::bc_error::BcradioError;
use crate::models::shared_data_models::{CurrentTrackView, ResultsJson, ResultsJsonView};

verus! {

/// The process-wide coordination flags, gathered in one explicit context
/// instead of global state. `park` is true when the playback loop owns key
/// dispatch and false while a modal dialog reads the terminal directly.
/// `enqueue_free` is the single-flight flag: true means the buffering slot is
/// free. `tick_enabled` drives the progress ticker. `task_live` records that
/// an abortable background fetch handle is stored.
pub struct PlaybackContext {
    pub park: bool,
    pub enqueue_free: bool,
    pub tick_enabled: bool,
    pub task_live: bool,
}

impl PlaybackContext {
    /// The flags at process start: input parked with the reader, buffering
    /// slot free, ticker running, no background fetch.
    pub fn new() -> (r: PlaybackContext)
        ensures
            r.park == false,
            r.enqueue_free == true,
            r.tick_enabled == true,
            r.task_live == false,
    {
        PlaybackContext { park: false, enqueue_free: true, tick_enabled: true, task_live: false }
    }
}

/// Claims keyboard input for a dialog: the reader stops forwarding keys.
pub fn park_lock(ctx: &mut PlaybackContext)
    ensures
        final(ctx).park == false,
        final(ctx).enqueue_free == old(ctx).enqueue_free,
        final(ctx).tick_enabled == old(ctx).tick_enabled,
        final(ctx).task_live == old(ctx).task_live,
{
    ctx.park = false;
}

/// Releases keyboard input back to the playback loop.
pub fn park_unlock(ctx: &mut PlaybackContext)
    ensures
        final(ctx).park == true,
        final(ctx).enqueue_free == old(ctx).enqueue_free,
        final(ctx).tick_enabled == old(ctx).tick_enabled,
        final(ctx).task_live == old(ctx).task_live,
{
    ctx.park = true;
}

/// The bounded non-linear volume mapping: the 0 to 9 scale is squared so it
/// feels perceptually linear, expressed in thousandths of full output.
pub open spec fn volume_permille(v: u8) -> int {
    (v as int * v as int * 1000) / 81
}

/// Maps a volume digit to the sink's output level, in thousandths of full
/// output: digit 0 is silence, digit 9 is full output.
pub fn map_volume_to_sink_volume(volume: u8) -> (r: u32)
    requires
        volume <= 9,
    ensures
        r == volume_permille(volume),
{
    proof {
        assert((volume as int) * (volume as int) <= 81) by (nonlinear_arith)
            requires
                volume <= 9,
        ;
    }
    (volume as u32 * volume as u32 * 1000) / 81
}

/// The volume mapping is strictly monotonic and spans the whole range:
/// digit 0 gives the minimum output, digit 9 the maximum, and a larger digit
/// always gives a strictly larger output.
pub proof fn lemma_volume_mapping_monotone(v1: u8, v2: u8)
    requires
        v1 < v2,
        v2 <= 9,
    ensures
        volume_permille(v1) < volume_permille(v2),
        volume_permille(0) == 0,
        volume_permille(9) == 1000,
{
    let a = v1 as int * v1 as int * 1000;
    let b = v2 as int * v2 as int * 1000;
    assert(a + 1000 <= b && a >= 0) by (nonlinear_arith)
        requires
            v1 < v2,
            v2 <= 9,
            a == v1 as int * v1 as int * 1000,
            b == v2 as int * v2 as int * 1000,
    ;
    vstd::arithmetic::div_mod::lemma_fundamental_div_mod(a, 81);
    vstd::arithmetic::div_mod::lemma_remainder_upper(a, 81);
    assert(b >= 81 * (a / 81 + 1)) by (nonlinear_arith)
        requires
            a == 81 * (a / 81) + a % 81,
            a % 81 < 81,
            b >= a + 1000,
    ;
    vstd::arithmetic::div_mod::lemma_div_multiples_vanish(a / 81 + 1, 81);
    vstd::arithmetic::div_mod::lemma_div_is_ordered(81 * (a / 81 + 1), b, 81);
}

/// What the look-ahead trigger asks of its caller: start one background
/// fetch of the given stream URL, or nothing.
pub enum BufferAction {
    StartFetch(String),
    Idle,
}

/// Whether the look-ahead trigger must start a fetch: the queue is not
/// empty, its head has no buffer yet, and the single-flight slot is free.
pub open spec fn should_fetch(ctx: PlaybackContext, state: SharedState) -> bool {
    &&& state.queue().len() > 0
    &&& state.queue()[0]@.buffer.len() == 0
    &&& ctx.enqueue_free
}

/// The context after the trigger claims the buffering slot: the slot is
/// busy and one live fetch handle is stored (any older handle was aborted
/// and replaced).
pub open spec fn claimed(ctx: PlaybackContext) -> PlaybackContext {
    PlaybackContext { enqueue_free: false, task_live: true, ..ctx }
}

/// The whole effect of one look-ahead trigger call: either the slot is
/// claimed and the head's URL is fetched, or nothing happens at all.
pub open spec fn trigger_transition(ctx: PlaybackContext, state: SharedState) -> (
    PlaybackContext,
    Option<Seq<char>>,
) {
    if should_fetch(ctx, state) {
        (claimed(ctx), Some(state.queue()[0]@.url))
    } else {
        (ctx, None)
    }
}

/// The look-ahead buffer trigger. If the queue head still needs its buffer
/// and the single-flight slot is free, the slot is claimed — the
/// compare-and-swap of the single-flight guarantee — and the caller is told
/// to fetch the head's URL in the
/// background; any previously stored fetch handle is superseded. In every
/// other case this is a no-op: repeated calls while a fetch is in flight, or
/// while the head is already buffered, change nothing.
pub fn enqueue_truck_buffer(ctx: &mut PlaybackContext, state: &SharedState) -> (a: BufferAction)
    ensures
        *final(ctx) == trigger_transition(*old(ctx), *state).0,
        (match a {
            BufferAction::StartFetch(u) => Some(u@),
            BufferAction::Idle => None::<Seq<char>>,
        }) == trigger_transition(*old(ctx), *state).1,
{
    let l = state.queue_length_from_truck_list();
    if l > 0 && !state.exists_track_buffer(0) && ctx.enqueue_free {
        ctx.enqueue_free = false;
        ctx.task_live = true;
        BufferAction::StartFetch(state.get_track_url(0))
    } else {
        BufferAction::Idle
    }
}

/// At most one buffer fetch is ever in flight: once a trigger has started a
/// fetch, every further trigger before completion is a no-op.
pub proof fn lemma_buffer_single_flight(ctx: PlaybackContext, state: SharedState)
    requires
        trigger_transition(ctx, state).1 is Some,
    ensures
        trigger_transition(trigger_transition(ctx, state).0, state) == (
            trigger_transition(ctx, state).0,
            None::<Seq<char>>,
        ),
{
}

/// Triggering the look-ahead while the queue head is already buffered is a
/// no-op: no fetch starts and the context is unchanged (and the store is
/// never touched by a trigger at all).
pub proof fn lemma_trigger_buffered_noop(ctx: PlaybackContext, state: SharedState)
    requires
        state.queue().len() > 0,
        state.queue()[0]@.buffer.len() > 0,
    ensures
        trigger_transition(ctx, state) == (ctx, None::<Seq<char>>),
{
}

/// The tail of the background fetch. The caller probes the playable
/// duration of the fetched bytes — that is the decode collaborator's call,
/// which stays outside the library because its failures are fatal at the
/// process boundary — and hands the probe's result in as a plain value. The
/// library then decides everything, for every outcome: a probed duration
/// writes buffer and duration into the store keyed by the URL the fetch was
/// issued for (a stale write is silently dropped) and must succeed; a failed
/// probe leaves the store untouched and must fail, and the caller quits with
/// the error. On both paths the single-flight slot is freed and the stored
/// fetch handle is gone.
pub fn complete_buffer_fetch(
    ctx: &mut PlaybackContext,
    state: &mut SharedState,
    url: &str,
    buf: Vec<u8>,
    duration: Option<u64>,
) -> (r: Result<(), BcradioError>)
    ensures
        final(ctx).enqueue_free == true,
        final(ctx).task_live == false,
        final(ctx).park == old(ctx).park,
        final(ctx).tick_enabled == old(ctx).tick_enabled,
        (r is Ok) == (duration is Some),
        (match duration {
            Some(d) => buffer_write_effect(*old(state), *final(state), url@, buf@, d),
            None => {
                &&& *final(state) == *old(state)
                &&& r == Err::<(), BcradioError>(BcradioError::PhaseError)
            },
        }),
{
    let r = match duration {
        Some(d) => {
            state.set_track_buffer(url, buf, d);
            Ok(())
        },
        None => Err(BcradioError::PhaseError),
    };
    ctx.enqueue_free = true;
    ctx.task_live = false;
    r
}

/// How many seconds are in a queue whose head is buffered: at least the head.
proof fn lemma_count_buffered_head(s: Seq<crate::models::shared_data_models::Track>)
    requires
        s.len() > 0,
        s[0]@.buffer.len() > 0,
    ensures
        crate::libbc::shared_data::count_buffered(s) > 0,
    decreases s.len(),
{
    if s.len() > 1 {
        lemma_count_buffered_head(s.drop_last());
    }
}

/// The promote-and-play step of one tick. When the audio sink is empty and
/// the queue head has its buffer, the head is popped into the playing slot
/// (stamped with `play_date`, seconds since the Unix epoch) and its bytes are
/// returned for the caller to decode and hand to the sink; a decode failure
/// there is non-fatal and must not roll anything back. In every other case
/// nothing changes and nothing is returned.
pub fn play(state: &mut SharedState, sink_empty: bool, play_date: i64) -> (r: Option<Vec<u8>>)
    ensures
        (sink_empty && old(state).queue().len() > 0 && old(state).queue()[0]@.buffer.len() > 0)
            ==> {
            &&& (match r {
                Some(b) => b@ == old(state).queue()[0]@.buffer,
                None => false,
            })
            &&& final(state).queue() == old(state).queue().skip(1)
            &&& final(state).current()@ == promoted_current(*old(state), play_date)
            &&& final(state).post() == old(state).post()
            &&& crate::libbc::shared_data::browsing_unchanged(*old(state), *final(state))
            &&& crate::libbc::shared_data::server_unchanged(*old(state), *final(state))
        },
        !(sink_empty && old(state).queue().len() > 0 && old(state).queue()[0]@.buffer.len() > 0)
            ==> r is None && *final(state) == *old(state),
{
    if sink_empty && state.get_buffer_set_queue_length() > 0 {
        proof {
            lemma_len_when_buffered(state.queue());
        }
        let buf = state.get_track_buffer(0);
        if buf.is_empty() {
            return None;
        }
        state.move_to_current_track(play_date);
        Some(buf)
    } else {
        proof {
            if state.queue().len() > 0 && state.queue()[0]@.buffer.len() > 0 {
                lemma_count_buffered_head(state.queue());
            }
        }
        None
    }
}

/// A queue with a buffered track is not empty.
proof fn lemma_len_when_buffered(s: Seq<crate::models::shared_data_models::Track>)
    requires
        crate::libbc::shared_data::count_buffered(s) > 0,
    ensures
        s.len() > 0,
{
}

/// What one drained command asks of the playback loop. The single-character
/// vocabulary is the protocol between keyboard capture and the playback core:
/// digits set the volume, `n` skips, `p` toggles pause, `i m l f s h` open
/// the modal dialogs, `Q` ends the loop, anything else is silently ignored.
pub enum CommandEffect {
    SetVolume(u8),
    StopSink,
    TogglePause,
    OpenInfo,
    OpenMenu,
    OpenPlaylist,
    FavoriteSearch,
    OpenSearch,
    ShowHelp,
    QuitLoop,
    Ignored,
}

/// The command vocabulary, exactly.
pub open spec fn spec_dispatch(c: char) -> CommandEffect {
    if '0' as u32 <= c as u32 && c as u32 <= '9' as u32 {
        CommandEffect::SetVolume((c as u32 - 48) as u8)
    } else if c == 'n' {
        CommandEffect::StopSink
    } else if c == 'p' {
        CommandEffect::TogglePause
    } else if c == 'i' {
        CommandEffect::OpenInfo
    } else if c == 'm' {
        CommandEffect::OpenMenu
    } else if c == 'l' {
        CommandEffect::OpenPlaylist
    } else if c == 'f' {
        CommandEffect::FavoriteSearch
    } else if c == 's' {
        CommandEffect::OpenSearch
    } else if c == 'h' {
        CommandEffect::ShowHelp
    } else if c == 'Q' {
        CommandEffect::QuitLoop
    } else {
        CommandEffect::Ignored
    }
}

/// Reads one drained command character.
pub fn dispatch_command(c: char) -> (e: CommandEffect)
    ensures
        e == spec_dispatch(c),
        (match e {
            CommandEffect::SetVolume(d) => d <= 9,
            _ => true,
        }),
{
    let u = c as u32;
    if 48 <= u && u <= 57 {
        CommandEffect::SetVolume((u - 48) as u8)
    } else if c == 'n' {
        CommandEffect::StopSink
    } else if c == 'p' {
        CommandEffect::TogglePause
    } else if c == 'i' {
        CommandEffect::OpenInfo
    } else if c == 'm' {
        CommandEffect::OpenMenu
    } else if c == 'l' {
        CommandEffect::OpenPlaylist
    } else if c == 'f' {
        CommandEffect::FavoriteSearch
    } else if c == 's' {
        CommandEffect::OpenSearch
    } else if c == 'h' {
        CommandEffect::ShowHelp
    } else if c == 'Q' {
        CommandEffect::QuitLoop
    } else {
        CommandEffect::Ignored
    }
}

/// Applies the sink-level part of one command: volume, skip, or pause. The
/// dialog commands and the quit command leave sink and context alone; the
/// loop around this call opens the dialog or breaks. A volume digit only
/// changes the output level; a skip only empties the sink, so that the next
/// tick's empty-sink branch promotes the next queued track; a pause toggle
/// also toggles the progress ticker.
pub fn apply_command(
    e: &CommandEffect,
    ctx: &mut PlaybackContext,
    sink: &mut crate::libbc::sink::SinkModel,
)
    requires
        (match e {
            CommandEffect::SetVolume(d) => d <= 9,
            _ => true,
        }),
    ensures
        (match e {
            CommandEffect::SetVolume(d) => {
                &&& final(sink).volume == volume_permille(*d)
                &&& final(sink).empty == old(sink).empty
                &&& final(sink).paused == old(sink).paused
                &&& *final(ctx) == *old(ctx)
            },
            CommandEffect::StopSink => {
                &&& final(sink).empty == true
                &&& final(sink).volume == old(sink).volume
                &&& final(sink).paused == old(sink).paused
                &&& *final(ctx) == *old(ctx)
            },
            CommandEffect::TogglePause => {
                &&& final(sink).paused == !old(sink).paused
                &&& final(sink).empty == old(sink).empty
                &&& final(sink).volume == old(sink).volume
                &&& final(ctx).tick_enabled == old(sink).paused
                &&& final(ctx).park == old(ctx).park
                &&& final(ctx).enqueue_free == old(ctx).enqueue_free
                &&& final(ctx).task_live == old(ctx).task_live
            },
            _ => *final(sink) == *old(sink) && *final(ctx) == *old(ctx),
        }),
{
    match e {
        CommandEffect::SetVolume(d) => {
            sink.volume = map_volume_to_sink_volume(*d);
        },
        CommandEffect::StopSink => {
            sink.empty = true;
        },
        CommandEffect::TogglePause => {
            if sink.paused {
                sink.paused = false;
                enable_tick(ctx);
            } else {
                sink.paused = true;
                disable_tick(ctx);
            }
        },
        _ => {},
    }
}

/// Lets the progress ticker advance.
pub fn enable_tick(ctx: &mut PlaybackContext)
    ensures
        final(ctx).tick_enabled == true,
        final(ctx).park == old(ctx).park,
        final(ctx).enqueue_free == old(ctx).enqueue_free,
        final(ctx).task_live == old(ctx).task_live,
{
    ctx.tick_enabled = true;
}

/// Freezes the progress ticker.
pub fn disable_tick(ctx: &mut PlaybackContext)
    ensures
        final(ctx).tick_enabled == false,
        final(ctx).park == old(ctx).park,
        final(ctx).enqueue_free == old(ctx).enqueue_free,
        final(ctx).task_live == old(ctx).task_live,
{
    ctx.tick_enabled = false;
}

/// The modal dialogs that may borrow the terminal from the playback loop.
pub enum Dialog {
    Info,
    Menu,
    PlaylistView,
    FavoriteSearch,
    FreeSearch,
    Help,
}

/// Why a dialog ended: it ran to completion, the user escaped out of it, or
/// it failed on the way.
pub enum DialogExit {
    Completed,
    Cancelled,
    Failed,
}

/// The context after a whole dialog session, whatever the dialog and however
/// it ended: the park flag is back with the playback loop.
pub open spec fn dialog_transition(
    ctx: PlaybackContext,
    dialog: Dialog,
    exit: DialogExit,
) -> PlaybackContext {
    PlaybackContext { park: true, ..ctx }
}

/// One whole dialog session as the playback loop sees it: the dialog claims
/// keyboard input on entry and the scope-guarded release gives it back on
/// every exit path — normal completion, cancellation, and failure alike.
pub fn dialog_session(ctx: &mut PlaybackContext, dialog: Dialog, exit: DialogExit)
    ensures
        *final(ctx) == dialog_transition(*old(ctx), dialog, exit),
        final(ctx).park == true,
{
    park_lock(ctx);
    match exit {
        DialogExit::Completed => {},
        DialogExit::Cancelled => {},
        DialogExit::Failed => {},
    }
    park_unlock(ctx);
}

/// Entering any modal dialog and leaving it on any exit path — cancel paths
/// included — always leaves the park flag set: the playback loop owns input
/// again.
pub proof fn lemma_park_restored(ctx: PlaybackContext, dialog: Dialog, exit: DialogExit)
    ensures
        dialog_transition(ctx, dialog, exit).park == true,
{
}

/// What the keyboard reader does with one pressed key.
pub enum KeyRoute {
    /// Send the key into the command channel.
    Forward,
    /// Send the key, then stop reading: the player is quitting.
    ForwardAndStop,
    /// Swallow the key.
    Dropped,
}

/// The keyboard reader's routing protocol. While the park flag is down a
/// dialog owns raw input and nothing is forwarded. A dialog-opening key
/// claims the park flag before it is forwarded, so the reader stops
/// dispatching before the dialog starts reading; the other printable
/// commands are forwarded as they are; `Q` is forwarded and ends the reader.
pub open spec fn spec_route(ctx: PlaybackContext, c: char) -> (PlaybackContext, KeyRoute) {
    if !ctx.park {
        (ctx, KeyRoute::Dropped)
    } else if c == 's' || c == 'h' || c == 'm' || c == 'i' || c == 'l' {
        (PlaybackContext { park: false, ..ctx }, KeyRoute::Forward)
    } else if ('a' as u32 <= c as u32 && c as u32 <= 'z' as u32) || ('0' as u32 <= c as u32
        && c as u32 <= '9' as u32) {
        (ctx, KeyRoute::Forward)
    } else if c == 'Q' {
        (ctx, KeyRoute::ForwardAndStop)
    } else {
        (ctx, KeyRoute::Dropped)
    }
}

/// Routes one pressed key per the reader's protocol.
pub fn route_key(ctx: &mut PlaybackContext, c: char) -> (r: KeyRoute)
    ensures
        (*final(ctx), r) == spec_route(*old(ctx), c),
{
    if !ctx.park {
        return KeyRoute::Dropped;
    }
    if c == 's' || c == 'h' || c == 'm' || c == 'i' || c == 'l' {
        park_lock(ctx);
        return KeyRoute::Forward;
    }
    let u = c as u32;
    if (97 <= u && u <= 122) || (48 <= u && u <= 57) {
        return KeyRoute::Forward;
    }
    if c == 'Q' {
        return KeyRoute::ForwardAndStop;
    }
    KeyRoute::Dropped
}

/// The label of the first cached genre with the given id, or empty when the
/// id is unknown.
pub open spec fn spec_genre_label(genres: Seq<Element>, id: i64) -> Seq<char>
    decreases genres.len(),
{
    if genres.len() == 0 {
        Seq::empty()
    } else if genres[0]@.id == id {
        genres[0]@.label
    } else {
        spec_genre_label(genres.skip(1), id)
    }
}

/// Looks a genre label up by id in the cached genre tree.
fn genre_label(genres: &Vec<Element>, id: i64) -> (r: String)
    ensures
        r@ == spec_genre_label(genres@, id),
{
    let mut i: usize = 0;
    proof {
        assert(genres@.skip(0) =~= genres@);
    }
    while i < genres.len()
        invariant
            i <= genres@.len(),
            spec_genre_label(genres@, id) == spec_genre_label(genres@.skip(i as int), id),
        decreases genres@.len() - i,
    {
        proof {
            assert(genres@.skip(i as int)[0] == genres@[i as int]);
            assert(genres@.skip(i as int).skip(1) =~= genres@.skip(i + 1));
        }
        if genres[i].id == id {
            return genres[i].label.clone();
        }
        i = i + 1;
    }
    String::new()
}

/// Every line of the track-info panel, top to bottom: the playing track's
/// header fields, then the richer metadata its discovery payload carries.
pub open spec fn spec_track_info(st: SharedState) -> Seq<Seq<char>> {
    let c = st.current()@;
    let base = seq![
        Seq::<char>::empty(),
        spec_info_line("Artist:"@, c.artist_name),
        spec_info_line("Album:"@, c.album_title),
        spec_info_line("Song:"@, c.track),
        spec_info_line("Duration:"@, spec_format_duration(c.duration as int)),
    ];
    match c.results {
        ResultsJsonView::Select(g) => base + seq![
            spec_info_line("Category:"@, spec_genre_label(st.state.player.genres@, g.band_genre_id)),
            spec_info_line("Genre:"@, opt_or_empty(c.genre)),
            spec_info_line("Subgenre:"@, opt_or_empty(c.subgenre)),
            spec_info_line("Item Price:"@, g.item_currency + seq![' '] + g.item_price),
            spec_info_line("Labels:"@, opt_or_empty(g.label_name)),
            spec_info_line("Location:"@, opt_or_empty(g.band_location)),
            spec_info_line("Release Date:"@, g.release_date),
            spec_info_line("Label URL:"@, opt_or_empty(g.label_url)),
            spec_info_line("Band URL:"@, g.band_url),
            spec_info_line("Item URL:"@, g.item_url),
        ],
        ResultsJsonView::Search(g) => base + seq![
            spec_info_line("Release Date:"@, g.current.release_date),
            spec_info_line("Album URL:"@, opt_or_empty(g.album_url)),
            spec_info_line("Item URL:"@, opt_or_empty(g.item_url)),
        ],
        ResultsJsonView::Empty => base,
    }
}

impl SharedState {
    /// The lines of the info panel for the track now playing.
    #[verifier::rlimit(100)]
    pub fn track_info(&self) -> (r: Vec<String>)
        ensures
            r.deep_view() == spec_track_info(*self),
    {
        let c = &self.state.player.current_track;
        let mut v: Vec<String> = Vec::new();
        v.push(String::new());
        v.push(info_line("Artist:", c.artist_name.as_str()));
        v.push(info_line("Album:", c.album_title.as_str()));
        v.push(info_line("Song:", c.track.as_str()));
        let dur = format_duration(c.duration);
        v.push(info_line("Duration:", dur.as_str()));
        match &c.results {
            ResultsJson::Select(g) => {
                let label = genre_label(&self.state.player.genres, g.band_genre_id);
                v.push(info_line("Category:", label.as_str()));
                v.push(info_line("Genre:", opt_str(&c.genre)));
                v.push(info_line("Subgenre:", opt_str(&c.subgenre)));
                let mut price = g.item_currency.clone();
                price.append(" ");
                price.append(g.item_price.as_str());
                proof {
                    reveal_strlit(" ");
                    assert(price@ =~= g@.item_currency + seq![' '] + g@.item_price);
                }
                v.push(info_line("Item Price:", price.as_str()));
                v.push(info_line("Labels:", opt_str(&g.label_name)));
                v.push(info_line("Location:", opt_str(&g.band_location)));
                v.push(info_line("Release Date:", g.release_date.as_str()));
                v.push(info_line("Label URL:", opt_str(&g.label_url)));
                v.push(info_line("Band URL:", g.band_url.as_str()));
                v.push(info_line("Item URL:", g.item_url.as_str()));
            },
            ResultsJson::Search(g) => {
                v.push(info_line("Release Date:", g.current.release_date.as_str()));
                v.push(info_line("Album URL:", opt_str(&g.album_url)));
                v.push(info_line("Item URL:", opt_str(&g.item_url)));
            },
            ResultsJson::Empty => {},
        }
        proof {
            reveal_strlit(" ");
            assert(v.deep_view() =~~= spec_track_info(*self));
        }
        v
    }
}

/// The playing slot after promoting the head of `pre`'s queue at `play_date`:
/// every field comes from the popped track except the genre line of the
/// status display, which keeps its previous text.
pub open spec fn promoted_current(pre: SharedState, play_date: i64) -> CurrentTrackView {
    CurrentTrackView {
        duration: pre.queue()[0]@.duration,
        track: pre.queue()[0]@.track,
        art_id: pre.queue()[0]@.art_id,
        band_id: pre.queue()[0]@.band_id,
        album_title: pre.queue()[0]@.album_title,
        artist_name: pre.queue()[0]@.artist_name,
        genre_text: pre.current()@.genre_text,
        play_date: play_date,
        results: pre.queue()[0]@.results,
        genre: pre.queue()[0]@.genre,
        subgenre: pre.queue()[0]@.subgenre,
    }
}

} // verus!
