//! The recently-played window: a fixed-capacity FIFO of track identities,
//! used to keep a just-played track from being selected again at once.

use vstd::prelude::*;

verus! {

/// How many recently played identities the window remembers.
pub const RECENTLY_PLAYED_LIMIT: usize = 3;

/// The window after recording one natural completion: the identity is
/// appended, and the oldest entry is evicted when that exceeds the
/// capacity.
pub open spec fn spec_record(w: Seq<Seq<char>>, id: Seq<char>) -> Seq<Seq<char>> {
    let pushed = w.push(id);
    if pushed.len() > RECENTLY_PLAYED_LIMIT {
        pushed.drop_first()
    } else {
        pushed
    }
}

/// A fixed-capacity FIFO of the identities of recently completed tracks.
/// Oldest first; never longer than [`RECENTLY_PLAYED_LIMIT`].
pub struct RecentWindow {
    pub entries: Vec<String>,
}

impl View for RecentWindow {
    type V = Seq<Seq<char>>;

    open spec fn view(&self) -> Seq<Seq<char>> {
        self.entries@.map_values(|s: String| s@)
    }
}

impl RecentWindow {
    /// The window never holds more identities than its capacity.
    pub open spec fn wf(&self) -> bool {
        self@.len() <= RECENTLY_PLAYED_LIMIT
    }

    /// Creates an empty window.
    pub fn new() -> (r: RecentWindow)
        ensures
            r@ =~= Seq::<Seq<char>>::empty(),
            r.wf(),
    {
        RecentWindow { entries: Vec::new() }
    }

    /// How many identities the window currently holds.
    pub fn len(&self) -> (r: usize)
        ensures
            r == self@.len(),
    {
        self.entries.len()
    }

    /// Whether the window holds the given identity.
    pub fn contains(&self, id: &String) -> (r: bool)
        ensures
            r == self@.contains(id@),
    {
        let mut i: usize = 0;
        while i < self.entries.len()
            invariant
                i <= self.entries.len(),
                forall|k: int| 0 <= k < i ==> self@[k] != id@,
            decreases self.entries.len() - i,
        {
            let e: &String = &self.entries[i];
            if e.eq(id) {
                proof {
                    assert(self@[i as int] == id@);
                }
                return true;
            }
            i = i + 1;
        }
        false
    }

    /// Records a natural completion: appends the identity and evicts the
    /// oldest entry when the window would exceed its capacity. Skipped
    /// tracks are never recorded.
    pub fn record_completion(&mut self, id: String)
        requires
            old(self).wf(),
        ensures
            final(self)@ == spec_record(old(self)@, id@),
            final(self).wf(),
    {
        let ghost w0 = self@;
        self.entries.push(id);
        proof {
            assert(self@ =~= w0.push(id@));
        }
        if self.entries.len() > RECENTLY_PLAYED_LIMIT {
            let ghost w1 = self@;
            self.entries.remove(0);
            proof {
                assert(self@ =~= w1.drop_first());
            }
        }
        proof {
            assert(self@ =~= spec_record(w0, id@));
        }
    }
}

} // verus!
