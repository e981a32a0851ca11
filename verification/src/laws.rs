//! Laws of the reconciliation engine, stated over the spec-level
//! transitions that the engine's contracts are written in.
//!
//! Each lemma is a property of every state the spec functions allow, not of
//! chosen values; the concrete scenarios live in the crate's tests.

use crate::engine::{
    clamp_after, clamp_before, next_serial, spec_activate, spec_commit, spec_commit_string,
    spec_delete, spec_promote_notices, spec_split, spec_step, EngineView,
};
use crate::messages::EventView;
use vstd::prelude::*;

verus! {

/// Every inbound event takes a well-formed engine to a well-formed engine:
/// both cursors stay valid split points of their surrounding text.
pub proof fn lemma_step_preserves_wf(s: EngineView, e: EventView)
    requires
        s.wf(),
    ensures
        spec_step(s, e).wf(),
{
}

/// `commit_string` keeps the engine well-formed: the pending cursor lands
/// exactly after the inserted text, inside the new surrounding text.
pub proof fn lemma_commit_string_preserves_wf(s: EngineView, text: Seq<char>)
    requires
        s.wf(),
    ensures
        spec_commit_string(s, text).wf(),
{
}

/// `delete_surrounding_text` keeps the engine well-formed for any requested
/// counts: clamping puts both removals inside the pending text.
pub proof fn lemma_delete_preserves_wf(s: EngineView, before: int, after: int)
    requires
        s.wf(),
        0 <= before,
        0 <= after,
    ensures
        spec_delete(s, before, after).wf(),
{
}

/// `commit` keeps the engine well-formed.
pub proof fn lemma_commit_preserves_wf(s: EngineView)
    requires
        s.wf(),
    ensures
        spec_commit(s).wf(),
{
}

/// Clamp law: the counts a `delete_surrounding_text` request is emitted
/// with never reach before the start of the known pending surrounding text
/// nor past its end, whatever the caller asked for.
pub proof fn lemma_delete_request_clamped(s: EngineView, before: int, after: int)
    requires
        s.wf(),
        0 <= before,
        0 <= after,
    ensures
        0 <= clamp_before(s.pending, before) <= s.pending.cursor,
        0 <= clamp_after(s.pending, after),
        s.pending.cursor + clamp_after(s.pending, after) <= s.pending.surrounding_text.len(),
{
}

/// From an active session whose pending text is empty with the cursor at
/// the start, `commit_string(text)` followed by `commit()` promotes exactly
/// `text`, with the cursor after it: the observable split is `(text, "")`.
pub proof fn lemma_commit_string_then_commit(s: EngineView, text: Seq<char>)
    requires
        s.wf(),
        s.current.active,
        s.pending.surrounding_text == Seq::<char>::empty(),
        s.pending.cursor == 0,
    ensures
        ({
            let after = spec_commit(spec_commit_string(s, text));
            &&& after.current.surrounding_text == text
            &&& after.current.cursor == text.len()
            &&& spec_split(after.current) == (text, Seq::<char>::empty())
        }),
{
    let after = spec_commit(spec_commit_string(s, text));
    assert(after.current.surrounding_text =~= text);
    assert(spec_split(after.current).0 =~= text);
    assert(spec_split(after.current).1 =~= Seq::<char>::empty());
}

/// Promotion notification law: an `activate` event immediately followed by
/// `done`, starting from a session that is not currently active, makes the
/// promotion report exactly one show notification and no hide
/// notification.  (The notices record one dispatch per aspect, so `Some`
/// here is one `activate_im` call, and `deactivated == false` is none.)
pub proof fn lemma_activate_then_done_notifies_show(s: EngineView)
    requires
        s.wf(),
        !s.current.active,
    ensures
        spec_promote_notices(spec_activate(s)).activated is Some,
        !spec_promote_notices(spec_activate(s)).deactivated,
{
}

/// Serial law: three consecutive successful `commit()` calls emit three
/// pairwise distinct, consecutively increasing serials (mod 2^32).  The
/// session stays active across them because promotion copies the active
/// pending state, so each later commit is indeed successful.
pub proof fn lemma_three_commits_consecutive_serials(s: EngineView)
    requires
        s.wf(),
        s.current.active,
        s.pending.active,
    ensures
        ({
            let s1 = spec_commit(s);
            let s2 = spec_commit(s1);
            // each of the three calls finds an active session
            &&& s1.current.active
            &&& s2.current.active
            // the serials emitted are s.serial, s1.serial, s2.serial;
            // each is the wrapping successor of the one before
            &&& s1.serial == next_serial(s.serial)
            &&& s2.serial == next_serial(s1.serial)
            // and the three are pairwise distinct
            &&& s.serial != s1.serial
            &&& s1.serial != s2.serial
            &&& s.serial != s2.serial
        }),
{
}

} // verus!
