//! The playback scheduler: the state carried across scheduling cycles —
//! the current track set and the recently-played window — and the
//! decisions of one cycle: react to a rescan, select a track, record the
//! outcome of a play, and wait out a duration against a skip signal.

use vstd::prelude::*;
use crate::select::{select_track, spec_eligible};
use crate::track::{identity_of, spec_identity};
use crate::window::{spec_record, RecentWindow};

verus! {

/// How long the scheduler sleeps between polls of the skip channel, in
/// milliseconds.
pub const POLL_INTERVAL_MS: u64 = 100;

/// The window after a finished play: a natural completion records the
/// track's identity; a skip records nothing.
pub open spec fn spec_window_after(w: Seq<Seq<char>>, id: Seq<char>, skipped: bool) -> Seq<
    Seq<char>,
> {
    if skipped {
        w
    } else {
        spec_record(w, id)
    }
}

/// The state the scheduler carries from cycle to cycle: the track set of
/// the watched folder as of the last successful rescan, and the
/// recently-played window.
pub struct Scheduler {
    /// The paths of the tracks currently in the watched folder.
    pub files: Vec<String>,
    /// The identities of the recently completed tracks.
    pub window: RecentWindow,
}

impl Scheduler {
    /// The scheduler's window never exceeds its capacity.
    pub open spec fn wf(&self) -> bool {
        self.window.wf()
    }

    /// Starts a scheduler over an initial track set, with nothing played
    /// yet.
    pub fn new(files: Vec<String>) -> (r: Scheduler)
        ensures
            r.files@ == files@,
            r.window@ =~= Seq::<Seq<char>>::empty(),
            r.wf(),
    {
        Scheduler { files, window: RecentWindow::new() }
    }

    /// Applies one rescan of the watched folder. A successful scan
    /// replaces the track set wholesale; a failed one keeps the previous
    /// set. The window is untouched either way. Returns `true` exactly
    /// when no track remains, the one condition that halts the loop.
    pub fn apply_rescan(&mut self, scanned: Option<Vec<String>>) -> (halt: bool)
        requires
            old(self).wf(),
        ensures
            final(self).wf(),
            final(self).window@ == old(self).window@,
            match scanned {
                Some(files) => final(self).files@ == files@,
                None => final(self).files@ == old(self).files@,
            },
            halt == (final(self).files@.len() == 0),
    {
        match scanned {
            Some(files) => {
                self.files = files;
            },
            None => {},
        }
        self.files.len() == 0
    }

    /// Selects a track for this cycle: one whose identity is not in the
    /// window, at random, or `None` exactly when every current track was
    /// recently played.
    pub fn select(&self) -> (r: Option<usize>)
        ensures
            match r {
                Some(i) => i < self.files@.len() && spec_eligible(
                    self.files@[i as int]@,
                    self.window@,
                ),
                None => forall|k: int|
                    0 <= k < self.files@.len() ==> !spec_eligible(self.files@[k]@, self.window@),
            },
    {
        select_track(&self.files, &self.window)
    }

    /// The path of the track at a selected index.
    pub fn track(&self, i: usize) -> (r: &String)
        requires
            i < self.files@.len(),
        ensures
            r == self.files@[i as int],
    {
        &self.files[i]
    }

    /// How many tracks the current set holds.
    pub fn track_count(&self) -> (r: usize)
        ensures
            r == self.files@.len(),
    {
        self.files.len()
    }

    /// Records the outcome of a finished play of the track at index `i`:
    /// a natural completion appends its identity to the window (evicting
    /// the oldest entry over capacity); a skip leaves the window exactly
    /// as it was. The track set is untouched either way.
    pub fn finish_play(&mut self, i: usize, skipped: bool)
        requires
            old(self).wf(),
            i < old(self).files@.len(),
        ensures
            final(self).wf(),
            final(self).files@ == old(self).files@,
            final(self).window@ == spec_window_after(
                old(self).window@,
                spec_identity(old(self).files@[i as int]@),
                skipped,
            ),
    {
        if !skipped {
            let id = identity_of(self.files[i].as_str());
            self.window.record_completion(id);
        }
    }
}

/// What the scheduler does at one poll while a track plays.
pub enum WaitDecision {
    /// The full duration has elapsed: the track completed naturally.
    Finished,
    /// A skip signal is pending before the duration elapsed: stop playback
    /// now and record nothing.
    Skipped,
    /// Neither yet: sleep one poll interval and look again.
    KeepWaiting,
}

/// Decides one poll of the wait loop. Elapsed time is checked first, so a
/// track whose duration is over completes naturally even if a skip signal
/// is pending.
pub fn wait_decision(elapsed_ms: u64, duration_ms: u64, skip_pending: bool) -> (r: WaitDecision)
    ensures
        r is Finished <==> elapsed_ms >= duration_ms,
        r is Skipped <==> elapsed_ms < duration_ms && skip_pending,
        r is KeepWaiting <==> elapsed_ms < duration_ms && !skip_pending,
{
    if elapsed_ms >= duration_ms {
        WaitDecision::Finished
    } else if skip_pending {
        WaitDecision::Skipped
    } else {
        WaitDecision::KeepWaiting
    }
}

/// Advances the elapsed time by one poll interval, stopping at the
/// largest representable value instead of wrapping.
pub fn advance_elapsed(elapsed_ms: u64) -> (r: u64)
    ensures
        r == if elapsed_ms + POLL_INTERVAL_MS <= u64::MAX {
            elapsed_ms + POLL_INTERVAL_MS
        } else {
            u64::MAX as int
        },
{
    if elapsed_ms <= u64::MAX - POLL_INTERVAL_MS {
        elapsed_ms + POLL_INTERVAL_MS
    } else {
        u64::MAX
    }
}

} // verus!
