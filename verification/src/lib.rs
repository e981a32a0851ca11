//! Client-side state machine for a windowing-system input-method protocol.
//!
//! The heart of the crate is a double-buffered reconciliation engine: server
//! events accumulate in a `pending` snapshot, local edit requests mutate the
//! same snapshot speculatively, and a synchronization point atomically
//! promotes `pending` to the externally observable `current` state.  The
//! engine itself is a plain value; the embedding wraps it in an
//! exclusive-access handle and wires it to the display-server transport.

mod engine;
mod laws;
mod messages;
mod state;
mod traits;

pub use engine::{
    clamp_after, clamp_before, next_serial, spec_activate, spec_commit, spec_commit_string,
    spec_content_type, spec_deactivate, spec_delete, spec_promote, spec_promote_notices,
    spec_remove, spec_split, spec_step, spec_step_request, spec_surrounding_text,
    spec_text_change_cause, spec_unavailable, EngineView, IMServiceArc,
};
pub use laws::{
    lemma_activate_then_done_notifies_show, lemma_commit_preserves_wf,
    lemma_commit_string_preserves_wf, lemma_commit_string_then_commit,
    lemma_delete_preserves_wf, lemma_delete_request_clamped, lemma_step_preserves_wf,
    lemma_three_commits_consecutive_serials,
};
pub use messages::{Event, EventView, NoticesView, PromotionNotices, Request, RequestView};
pub use state::{ChangeCause, ContentHint, ContentPurpose, IMProtocolState, StateView};
pub use traits::{HintPurpose, IMVisibility, ReceiveSurroundingText};

use vstd::prelude::*;

verus! {

/// Error when issuing an edit request to the server.
#[derive(Debug, Clone, Copy, PartialEq, Eq, Structural)]
pub enum SubmitError {
    /// The input method is not the one currently receiving focus.
    NotActive,
}

} // verus!
