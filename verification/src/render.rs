//! The per-frame state machine: it owns the tick counter and the last
//! rendered snapshot, decides when scrolling restarts, and turns a snapshot
//! and an artwork outcome into the fixed command sequence of one frame.

use crate::artwork::{ArtError, ArtOutcome, outcome_of};
use crate::metadata::{HIDSongMetadata, SnapshotView};
use crate::scroll::window;
use crate::scroll::window_spec;
use vstd::prelude::*;

verus! {

/// The tick value at which the scroll position is re-synchronized even
/// without a metadata change.
pub const TICK_LIMIT: u64 = 50;

/// Process-lifetime state owned by the render loop: the frame tick and the
/// previously rendered snapshot, kept only for change detection.
pub struct RenderState {
    pub tick: u64,
    pub last_snapshot: Option<HIDSongMetadata>,
}

impl RenderState {
    /// The tick never runs past the wraparound limit.
    pub open spec fn wf(&self) -> bool {
        self.tick <= TICK_LIMIT
    }

    /// The startup state: tick at zero, nothing rendered yet.
    pub fn new() -> (s: Self)
        ensures
            s.tick == 0,
            s.last_snapshot is None,
            s.wf(),
    {
        RenderState { tick: 0, last_snapshot: None }
    }
}

/// A snapshot counts as changed when nothing was rendered before or when
/// the new snapshot differs structurally from the last one in any field,
/// the art reference included.
pub open spec fn snapshot_changed(last: Option<HIDSongMetadata>, snap: SnapshotView) -> bool {
    match last {
        Some(p) => p@ != snap,
        None => true,
    }
}

/// Scrolling restarts when the tick has reached the wraparound limit or
/// when the snapshot changed; the two triggers are independent.
pub open spec fn reset_needed(st: RenderState, snap: SnapshotView) -> bool {
    st.tick == TICK_LIMIT || snapshot_changed(st.last_snapshot, snap)
}

/// The tick a frame is rendered with: zero after a reset, the stored tick
/// otherwise.
pub open spec fn used_tick(st: RenderState, snap: SnapshotView) -> nat {
    if reset_needed(st, snap) {
        0
    } else {
        st.tick as nat
    }
}

/// One logical draw command of a frame, in device terms but free of device
/// types: positions are pixels, text sizes are font points.
pub enum DrawCommand {
    Clear,
    Image { bytes: Vec<u8>, x: u32, y: u32, scale: bool },
    Placeholder { x: u32, y: u32, size: u32 },
    Text { text: String, x: u32, y: u32, size: u32 },
    Send,
}

/// The command sequence of one frame: clear, then the art region (the
/// image bytes at the art position, or the placeholder glyph), then the
/// three text fields windowed at the frame's tick, then the flush.
pub open spec fn frame_spec(
    cmds: Seq<DrawCommand>,
    snap: SnapshotView,
    art: ArtOutcome,
    tick: nat,
) -> bool {
    &&& cmds.len() == 6
    &&& cmds[0] is Clear
    &&& (match art {
        ArtOutcome::Image(b) => cmds[1] matches DrawCommand::Image { bytes, x, y, scale }
            && bytes == b && x == 0 && y == 95 && scale == true,
        ArtOutcome::NoArt => cmds[1] matches DrawCommand::Placeholder { x, y, size } && x == 10
            && y == 100 && size == 30,
    })
    &&& (cmds[2] matches DrawCommand::Text { text, x, y, size } && text@ == window_spec(
        snap.title,
        tick,
    ) && x == 0 && y == 80 && size == 12)
    &&& (cmds[3] matches DrawCommand::Text { text, x, y, size } && text@ == window_spec(
        snap.album,
        tick,
    ) && x == 0 && y == 60 && size == 12)
    &&& (cmds[4] matches DrawCommand::Text { text, x, y, size } && text@ == window_spec(
        snap.artist,
        tick,
    ) && x == 0 && y == 40 && size == 12)
    &&& cmds[5] is Send
}

/// Render one frame: decide the scroll reset, emit the frame's command
/// sequence at the resulting tick, remember the snapshot for the next
/// change detection, and advance the tick.
pub fn render_frame(state: &mut RenderState, snapshot: HIDSongMetadata, art: ArtOutcome) -> (cmds:
    Vec<DrawCommand>)
    requires
        old(state).wf(),
    ensures
        final(state).wf(),
        final(state).tick == used_tick(*old(state), snapshot@) + 1,
        final(state).last_snapshot == Some(snapshot),
        frame_spec(cmds@, snapshot@, art, used_tick(*old(state), snapshot@)),
{
    let changed = match &state.last_snapshot {
        Some(p) => !(*p == snapshot),
        None => true,
    };
    if state.tick == TICK_LIMIT || changed {
        state.tick = 0;
    }
    let t = state.tick;
    assert(t as nat == used_tick(*old(state), snapshot@));
    assert(t < TICK_LIMIT);

    let title_win = window(snapshot.title.as_str(), t);
    let album_win = window(snapshot.album.as_str(), t);
    let artist_win = window(snapshot.artist.as_str(), t);

    let mut cmds: Vec<DrawCommand> = Vec::new();
    cmds.push(DrawCommand::Clear);
    match art {
        ArtOutcome::Image(b) => cmds.push(
            DrawCommand::Image { bytes: b, x: 0, y: 95, scale: true },
        ),
        ArtOutcome::NoArt => cmds.push(DrawCommand::Placeholder { x: 10, y: 100, size: 30 }),
    }
    cmds.push(DrawCommand::Text { text: title_win, x: 0, y: 80, size: 12 });
    cmds.push(DrawCommand::Text { text: album_win, x: 0, y: 60, size: 12 });
    cmds.push(DrawCommand::Text { text: artist_win, x: 0, y: 40, size: 12 });
    cmds.push(DrawCommand::Send);

    state.last_snapshot = Some(snapshot);
    state.tick = t + 1;
    cmds
}

/// Scroll reset law: a frame whose snapshot differs from the previously
/// rendered one is always rendered with tick zero, wherever the previous
/// scroll had reached.
pub proof fn lemma_scroll_reset(st: RenderState, snap: SnapshotView)
    requires
        snapshot_changed(st.last_snapshot, snap),
    ensures
        used_tick(st, snap) == 0,
{
}

/// Wraparound law: absent a metadata change, the tick a frame uses is the
/// stored tick until that tick reaches the limit, and exactly then it is
/// reset to zero; the frame afterwards resumes incrementing from it.
pub proof fn lemma_wraparound(st: RenderState, snap: SnapshotView)
    requires
        st.wf(),
        !snapshot_changed(st.last_snapshot, snap),
    ensures
        st.tick == TICK_LIMIT ==> used_tick(st, snap) == 0,
        st.tick != TICK_LIMIT ==> used_tick(st, snap) == st.tick,
{
}

/// Artwork degradation law: when the fetch or the decode fails, the frame
/// carries the placeholder command in the art region instead of an image
/// command, and still carries the full text stage and the flush.
pub proof fn lemma_art_degradation(
    cmds: Seq<DrawCommand>,
    snap: SnapshotView,
    fetched: Result<Vec<u8>, ArtError>,
    tick: nat,
)
    requires
        fetched is Err,
        frame_spec(cmds, snap, outcome_of(fetched), tick),
    ensures
        cmds[1] is Placeholder,
        !(cmds[1] is Image),
        cmds[2] is Text && cmds[3] is Text && cmds[4] is Text,
        cmds[5] is Send,
{
}

} // verus!
