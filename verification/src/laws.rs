//! The scheduling laws: what holds of selection, the recently-played
//! window, and skips, across every cycle.

use vstd::prelude::*;
use crate::select::spec_eligible;
use crate::track::spec_identity;
use crate::window::{spec_record, RECENTLY_PLAYED_LIMIT};
use crate::schedule::spec_window_after;

verus! {

/// An eligible track — in particular any track that `select_track`
/// returns — is never equal, by identity, to any entry currently in the
/// recently-played window.
pub proof fn lemma_selected_not_recent(files: Seq<Seq<char>>, w: Seq<Seq<char>>, i: int)
    requires
        0 <= i < files.len(),
        spec_eligible(files[i], w),
    ensures
        forall|j: int| 0 <= j < w.len() ==> spec_identity(files[i]) != w[j],
{
    assert forall|j: int| 0 <= j < w.len() implies spec_identity(files[i]) != w[j] by {
        if spec_identity(files[i]) == w[j] {
            assert(w.contains(spec_identity(files[i])));
        }
    }
}

/// Recording a completion never grows the window past its capacity.
pub proof fn lemma_window_bound(w: Seq<Seq<char>>, id: Seq<char>)
    requires
        w.len() <= RECENTLY_PLAYED_LIMIT,
    ensures
        spec_record(w, id).len() <= RECENTLY_PLAYED_LIMIT,
{
}

/// After four natural completions starting from an empty window, only the
/// last three identities remain, so the first one — when the later three
/// differ from it — is no longer present.
pub proof fn lemma_fourth_completion_evicts_first(
    a: Seq<char>,
    b: Seq<char>,
    c: Seq<char>,
    d: Seq<char>,
)
    ensures
        spec_record(spec_record(spec_record(spec_record(Seq::empty(), a), b), c), d) =~= seq![
            b,
            c,
            d,
        ],
        a != b && a != c && a != d ==> !spec_record(
            spec_record(spec_record(spec_record(Seq::empty(), a), b), c),
            d,
        ).contains(a),
{
    let w4 = spec_record(spec_record(spec_record(spec_record(Seq::empty(), a), b), c), d);
    assert(w4 =~= seq![b, c, d]);
    if a != b && a != c && a != d {
        assert forall|j: int| 0 <= j < w4.len() implies w4[j] != a by {}
        assert(!w4.contains(a));
    }
}

/// A skip leaves the recently-played window exactly as it was, so every
/// track that was eligible before the skip — the skipped track itself
/// included — is still eligible on the next cycle.
pub proof fn lemma_skip_does_not_pollute(w: Seq<Seq<char>>, id: Seq<char>, t: Seq<char>)
    requires
        spec_eligible(t, w),
    ensures
        spec_window_after(w, id, true) == w,
        spec_eligible(t, spec_window_after(w, id, true)),
{
}

/// When every current track's identity is in the window — as with a track
/// set no larger than the window's capacity, all recently played — no
/// track is eligible, so a selection cycle yields no track rather than an
/// error, and the loop goes on to the next rescan.
pub proof fn lemma_all_recent_yields_no_selection(files: Seq<Seq<char>>, w: Seq<Seq<char>>)
    requires
        forall|k: int| 0 <= k < files.len() ==> w.contains(spec_identity(files[k])),
    ensures
        forall|k: int| 0 <= k < files.len() ==> !spec_eligible(files[k], w),
{
}

} // verus!
