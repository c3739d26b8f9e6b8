//! The selection policy: filter the current track set down to the paths
//! whose identity is not in the recently-played window, then pick one of
//! the survivors uniformly at random.

use vstd::prelude::*;
use crate::track::{identity_of, spec_identity};
use crate::window::RecentWindow;

verus! {

/// Relies on rand::random_range over `0..n`: it returns a value of the
/// range, uniformly drawn, and the range is non-empty here.
#[verifier::external_body]
fn choose_index(n: usize) -> (r: usize)
    requires
        n > 0,
    ensures
        r < n,
{
    rand::random_range(0..n)
}

/// Whether a track may be selected: its identity is not held in the
/// recently-played window.
pub open spec fn spec_eligible(path: Seq<char>, w: Seq<Seq<char>>) -> bool {
    !w.contains(spec_identity(path))
}

/// Picks a track to play: one of the given paths whose identity is not in
/// the window, uniformly at random, or `None` exactly when every current
/// track was recently played — a normal transient condition, not an error.
pub fn select_track(files: &Vec<String>, window: &RecentWindow) -> (r: Option<usize>)
    ensures
        match r {
            Some(i) => i < files@.len() && spec_eligible(files@[i as int]@, window@),
            None => forall|k: int|
                0 <= k < files@.len() ==> !spec_eligible(files@[k]@, window@),
        },
{
    let mut eligible: Vec<usize> = Vec::new();
    let mut i: usize = 0;
    while i < files.len()
        invariant
            i <= files.len(),
            forall|m: int|
                0 <= m < eligible@.len() ==> eligible@[m] < files@.len()
                    && spec_eligible(files@[eligible@[m] as int]@, window@),
            forall|k: int|
                0 <= k < i && spec_eligible(files@[k]@, window@) ==> eligible@.contains(
                    k as usize,
                ),
        decreases files.len() - i,
    {
        let id = identity_of(files[i].as_str());
        if !window.contains(&id) {
            let ghost e0 = eligible@;
            eligible.push(i);
            proof {
                assert(eligible@[e0.len() as int] == i);
                assert forall|k: int|
                    0 <= k <= i && spec_eligible(files@[k]@, window@) implies eligible@.contains(
                    k as usize,
                ) by {
                    if k < i {
                        assert(e0.contains(k as usize));
                        let m = choose|m: int| 0 <= m < e0.len() && e0[m] == k as usize;
                        assert(eligible@[m] == k as usize);
                    } else {
                        assert(eligible@[e0.len() as int] == k as usize);
                    }
                }
            }
        }
        i = i + 1;
    }
    if eligible.len() == 0 {
        proof {
            assert(forall|k: int|
                0 <= k < files@.len() ==> !spec_eligible(files@[k]@, window@));
        }
        None
    } else {
        let pick = choose_index(eligible.len());
        Some(eligible[pick])
    }
}

} // verus!
