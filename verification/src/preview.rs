//! The playback decisions of the preview of a recorded take. The player
//! (its clock and song) and the renderers live outside the library; they
//! report to the preview whether the song has finished and carry out its
//! decisions, and the preview keeps whether playback is paused.

use vstd::prelude::*;

verus! {

/// The playback state of the preview: whether its player is paused.
pub struct Preview {
    paused: bool,
}

impl Preview {
    pub closed spec fn spec_paused(&self) -> bool {
        self.paused
    }

    /// A new preview starts paused.
    pub fn new() -> (r: Self)
        ensures
            r.spec_paused(),
    {
        Preview { paused: true }
    }

    /// Whether playback is paused.
    pub fn is_paused(&self) -> (r: bool)
        ensures
            r == self.spec_paused(),
    {
        self.paused
    }

    /// One frame of the preview, after the player advanced: a player that
    /// has finished while playing is paused. The result says whether the
    /// player must be paused now.
    pub fn update(&mut self, player_finished: bool) -> (pause_now: bool)
        ensures
            pause_now == (player_finished && !old(self).spec_paused()),
            final(self).spec_paused() == (old(self).spec_paused() || player_finished),
    {
        if player_finished && !self.paused {
            self.paused = true;
            true
        } else {
            false
        }
    }

    /// Pauses a playing preview, resumes a paused one.
    pub fn pause_resume(&mut self)
        ensures
            final(self).spec_paused() == !old(self).spec_paused(),
    {
        self.paused = !self.paused;
    }
}

/// Toggles playback of the preview, when there is one.
pub fn toggle_preview_playback(preview: &mut Option<Preview>)
    ensures
        (*old(preview)) is None ==> (*final(preview)) is None,
        (*old(preview)) matches Some(p) ==> (*final(preview)) matches Some(q) && q.spec_paused()
            == !p.spec_paused(),
{
    match preview {
        Some(p) => p.pause_resume(),
        None => {},
    }
}

/// Whether a track of the song is shown.
#[derive(Clone, Copy, PartialEq, Eq, Debug, Structural)]
pub struct TrackVisibility {
    pub track_id: usize,
    pub visible: bool,
}

/// The ids of the tracks that are not shown, in track order.
pub open spec fn hidden_track_ids(tracks: Seq<TrackVisibility>) -> Seq<usize>
    decreases tracks.len(),
{
    if tracks.len() == 0 {
        Seq::empty()
    } else {
        let rest = hidden_track_ids(tracks.drop_last());
        if tracks.last().visible {
            rest
        } else {
            rest.push(tracks.last().track_id)
        }
    }
}

/// The tracks that the preview's waterfall leaves out: those that are not
/// shown.
pub fn hidden_tracks(tracks: &[TrackVisibility]) -> (r: Vec<usize>)
    ensures
        r@ == hidden_track_ids(tracks@),
{
    let mut r: Vec<usize> = Vec::new();
    let mut i: usize = 0;
    while i < tracks.len()
        invariant
            i <= tracks@.len(),
            r@ == hidden_track_ids(tracks@.take(i as int)),
        decreases tracks@.len() - i,
    {
        let t = tracks[i];
        proof {
            assert(tracks@.take(i + 1).drop_last() =~= tracks@.take(i as int));
        }
        if !t.visible {
            r.push(t.track_id);
        }
        i += 1;
    }
    assert(tracks@.take(tracks@.len() as int) =~= tracks@);
    r
}

} // verus!
