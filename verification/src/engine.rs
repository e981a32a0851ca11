//! The double-buffered reconciliation engine.
//!
//! The engine owns two snapshots.  `pending` is the write-ahead buffer: every
//! inbound server event and every speculative local edit lands there first.
//! `current` is the last promoted, externally observable state; read
//! accessors never look at `pending`.  A synchronization point — the
//! server's `done` event or a successful local `commit` — promotes `pending`
//! to `current` atomically and reports what changed to the collaborators.
//!
//! The engine is a plain value with no synchronization of its own.  The
//! embedding must guard every call, collaborator notifications included,
//! with one exclusive-access region per invocation.

use crate::messages::{Event, EventView, NoticesView, PromotionNotices, Request, RequestView};
use crate::state::{ChangeCause, ContentHint, ContentPurpose, IMProtocolState, StateView};
use crate::traits::{HintPurpose, IMVisibility, ReceiveSurroundingText};
use crate::SubmitError;
use vstd::prelude::*;
use vstd::string::{StrSliceExecFns, StringExecFns};

verus! {

/// Mathematical model of the whole engine: both snapshots and the serial
/// counter stamped on locally issued commits.
#[verifier::ext_equal]
pub struct EngineView {
    pub pending: StateView,
    pub current: StateView,
    pub serial: u32,
}

impl EngineView {
    /// Both cursors are valid split points of their surrounding text.
    pub open spec fn wf(self) -> bool {
        self.pending.wf() && self.current.wf()
    }

    /// The state a fresh engine starts from.
    pub open spec fn initial() -> EngineView {
        EngineView {
            pending: StateView::default_view(),
            current: StateView::default_view(),
            serial: 0,
        }
    }
}

/// The serial counter after one locally issued commit: it increments by one
/// and wraps on overflow, which is expected over a long session.
pub open spec fn next_serial(n: u32) -> u32 {
    if n == 0xffff_ffffu32 {
        0u32
    } else {
        (n + 1) as u32
    }
}

/// Effect of the server's `activate` event: `pending` is replaced wholesale
/// by a fresh default snapshot that is active, discarding any unconsumed
/// pending edits — server-driven activation always wins.
pub open spec fn spec_activate(s: EngineView) -> EngineView {
    EngineView {
        pending: StateView { active: true, ..StateView::default_view() },
        ..s
    }
}

/// Effect of the server's `deactivate` event: only `pending.active` drops.
pub open spec fn spec_deactivate(s: EngineView) -> EngineView {
    EngineView { pending: StateView { active: false, ..s.pending }, ..s }
}

/// Effect of the server's `surrounding_text` event with an in-range cursor:
/// the pending text and cursor are overwritten with the server's values.
pub open spec fn spec_surrounding_text(s: EngineView, text: Seq<char>, cursor: int) -> EngineView {
    EngineView {
        pending: StateView { surrounding_text: text, cursor: cursor, ..s.pending },
        ..s
    }
}

/// Effect of the server's `text_change_cause` event.
pub open spec fn spec_text_change_cause(s: EngineView, cause: ChangeCause) -> EngineView {
    EngineView { pending: StateView { text_change_cause: cause, ..s.pending }, ..s }
}

/// Effect of the server's `content_type` event.
pub open spec fn spec_content_type(
    s: EngineView,
    hint: ContentHint,
    purpose: ContentPurpose,
) -> EngineView {
    EngineView {
        pending: StateView { content_hint: hint, content_purpose: purpose, ..s.pending },
        ..s
    }
}

/// Promotion: `current` is replaced by a copy of `pending`; `pending` stays
/// as it is, so a later commit without intervening edits re-sends the same
/// state instead of silently dropping edits issued in between.
pub open spec fn spec_promote(s: EngineView) -> EngineView {
    EngineView { current: s.pending, ..s }
}

/// The observable split of a snapshot: the halves of its surrounding text
/// left and right of its cursor.  Reading it is a pure function of the
/// snapshot, so two reads without an intervening promotion are identical.
pub open spec fn spec_split(s: StateView) -> (Seq<char>, Seq<char>) {
    (
        s.surrounding_text.subrange(0, s.cursor),
        s.surrounding_text.subrange(s.cursor, s.surrounding_text.len() as int),
    )
}

/// What a promotion reports, evaluated against the pre-promotion state:
/// the new text split when the text changed, a show notification carrying
/// hint and purpose when the session just became active, a hide
/// notification when it just became inactive.
pub open spec fn spec_promote_notices(s: EngineView) -> NoticesView {
    let active_changed = s.current.active != s.pending.active;
    NoticesView {
        text_change: if s.current.surrounding_text != s.pending.surrounding_text {
            Some(spec_split(s.pending))
        } else {
            None
        },
        activated: if active_changed && s.pending.active {
            Some((s.pending.content_hint, s.pending.content_purpose))
        } else {
            None
        },
        deactivated: active_changed && !s.pending.active,
    }
}

/// Effect of the server's `unavailable` event (and of a protocol violation,
/// which is treated as fatal to the session): `current.active` is forced
/// off.  Terminal: no request may be issued afterwards.
pub open spec fn spec_unavailable(s: EngineView) -> EngineView {
    EngineView { current: StateView { active: false, ..s.current }, ..s }
}

/// Effect of a successful `commit_string(text)`: `text` is inserted into
/// the pending surrounding text at the pending cursor, and the cursor
/// advances past it.
pub open spec fn spec_commit_string(s: EngineView, text: Seq<char>) -> EngineView {
    let t = s.pending.surrounding_text;
    let c = s.pending.cursor;
    EngineView {
        pending: StateView {
            surrounding_text: t.subrange(0, c) + text + t.subrange(c, t.len() as int),
            cursor: c + text.len(),
            ..s.pending
        },
        ..s
    }
}

/// The deletion count left of the cursor, clamped so the request never
/// reaches before the start of the known surrounding text.
pub open spec fn clamp_before(s: StateView, before: int) -> int {
    if before <= s.cursor {
        before
    } else {
        s.cursor
    }
}

/// The deletion count right of the cursor, clamped so the request never
/// reaches past the end of the known surrounding text.
pub open spec fn clamp_after(s: StateView, after: int) -> int {
    let room = s.surrounding_text.len() - s.cursor;
    if after <= room {
        after
    } else {
        room
    }
}

/// Removal of `b` text units ending at the pending cursor and `a` starting
/// at it, for counts already known to be in range: the cursor moves to the
/// end of the left remainder.
pub open spec fn spec_remove(s: EngineView, b: int, a: int) -> EngineView {
    let t = s.pending.surrounding_text;
    let c = s.pending.cursor;
    EngineView {
        pending: StateView {
            surrounding_text: t.subrange(0, c - b) + t.subrange(c + a, t.len() as int),
            cursor: c - b,
            ..s.pending
        },
        ..s
    }
}

/// Effect of a successful `delete_surrounding_text(before, after)`: the
/// clamped counts are removed left and right of the pending cursor.
pub open spec fn spec_delete(s: EngineView, before: int, after: int) -> EngineView {
    spec_remove(s, clamp_before(s.pending, before), clamp_after(s.pending, after))
}

/// Effect of a successful `commit()`: the serial increments (wrapping) and
/// `pending` is promoted.  The emitted request carries the serial captured
/// before the increment.
pub open spec fn spec_commit(s: EngineView) -> EngineView {
    spec_promote(EngineView { serial: next_serial(s.serial), ..s })
}

/// Effect of one inbound event on the engine state.  A `surrounding_text`
/// event whose cursor is not a valid split point of its text is a protocol
/// violation, fatal to the session.
pub open spec fn spec_step(s: EngineView, e: EventView) -> EngineView {
    match e {
        EventView::Activate => spec_activate(s),
        EventView::Deactivate => spec_deactivate(s),
        EventView::SurroundingText { text, cursor, anchor } => {
            if 0 <= cursor <= text.len() {
                spec_surrounding_text(s, text, cursor)
            } else {
                spec_unavailable(s)
            }
        },
        EventView::TextChangeCause { cause } => spec_text_change_cause(s, cause),
        EventView::ContentType { hint, purpose } => spec_content_type(s, hint, purpose),
        EventView::Done => spec_promote(s),
        EventView::Unavailable => spec_unavailable(s),
    }
}

/// The request an inbound event causes to be emitted: only teardown —
/// `unavailable` or a fatal protocol violation — emits one, `destroy`.
pub open spec fn spec_step_request(s: EngineView, e: EventView) -> Option<RequestView> {
    match e {
        EventView::SurroundingText { text, cursor, anchor } => {
            if 0 <= cursor <= text.len() {
                None
            } else {
                Some(RequestView::Destroy)
            }
        },
        EventView::Unavailable => Some(RequestView::Destroy),
        _ => None,
    }
}

/// Manages the pending state and the current state of the input method.
///
/// The name records how the embedding is expected to hold it: behind a
/// shared, mutually exclusive handle, since one thread delivers server
/// events while others issue requests.  The engine itself is a plain value;
/// see the crate root for the split between engine and embedding.
pub struct IMServiceArc<T: IMVisibility + HintPurpose, D: ReceiveSurroundingText> {
    ui_connector: T,
    content_connector: D,
    pending: IMProtocolState,
    current: IMProtocolState,
    serial: u32,
}

impl<T: IMVisibility + HintPurpose, D: ReceiveSurroundingText> View for IMServiceArc<T, D> {
    type V = EngineView;

    closed spec fn view(&self) -> EngineView {
        EngineView { pending: self.pending@, current: self.current@, serial: self.serial }
    }
}

impl<T: IMVisibility + HintPurpose, D: ReceiveSurroundingText> IMServiceArc<T, D> {
    /// Both snapshots keep their cursor a valid split point of their
    /// surrounding text, in every reachable state.
    #[verifier::type_invariant]
    spec fn well_formed(self) -> bool {
        self@.wf()
    }

    /// Creates a new engine for one input-method session: both snapshots
    /// default (inactive, empty text), serial 0.
    pub fn new(ui_connector: T, content_connector: D) -> (s: Self)
        ensures
            s@ == EngineView::initial(),
    {
        let s = IMServiceArc {
            ui_connector,
            content_connector,
            pending: IMProtocolState::default(),
            current: IMProtocolState::default(),
            serial: 0,
        };
        proof {
            assert(s@ =~= EngineView::initial());
        }
        s
    }

    /// Routes one inbound event to its handler.  This is the whole of the
    /// event dispatch: the embedding turns each wire message into an
    /// [`Event`] and passes it here, under the same exclusive access as
    /// every other operation.  The returned request, if any (only teardown
    /// produces one), must be sent.
    pub fn handle_event(&mut self, event: Event) -> (emit: Option<Request>)
        ensures
            final(self)@ == spec_step(old(self)@, event@),
            (emit matches Some(req) && Some(req@) == spec_step_request(old(self)@, event@))
                || (emit is None && spec_step_request(old(self)@, event@) is None),
    {
        match event {
            Event::Activate => {
                self.handle_activate();
                None
            },
            Event::Deactivate => {
                self.handle_deactivate();
                None
            },
            Event::SurroundingText { text, cursor, anchor } => self.handle_surrounding_text(
                text,
                cursor,
                anchor,
            ),
            Event::TextChangeCause { cause } => {
                self.handle_text_change_cause(cause);
                None
            },
            Event::ContentType { hint, purpose } => {
                self.handle_content_type(hint, purpose);
                None
            },
            Event::Done => {
                let _notices = self.handle_done();
                None
            },
            Event::Unavailable => Some(self.handle_unavailable()),
        }
    }

    /// Returns whether the input method is currently active, read from the
    /// promoted state.
    pub fn is_active(&self) -> (active: bool)
        ensures
            active == self@.current.active,
    {
        self.current.active
    }

    /// Issues a `commit_string` request: inserts `text` into the pending
    /// surrounding text at the pending cursor, advances the cursor past
    /// it, and returns the request to send.  Fails with `NotActive`, and
    /// changes nothing, unless the promoted state is active.  Does not by
    /// itself promote `pending` to `current`.
    pub fn commit_string(&mut self, text: String) -> (r: Result<Request, SubmitError>)
        ensures
            old(self)@.current.active ==> {
                &&& final(self)@ == spec_commit_string(old(self)@, text@)
                &&& r matches Ok(req) && req@ == RequestView::CommitString { text: text@ }
            },
            !old(self)@.current.active ==> {
                &&& final(self)@ == old(self)@
                &&& r == Err::<Request, SubmitError>(SubmitError::NotActive)
            },
    {
        proof {
            use_type_invariant(&*self);
        }
        if self.current.active {
            let cursor_position = self.pending.cursor;
            let st = self.pending.surrounding_text.as_str();
            let units = st.unicode_len();
            let mut new_text = st.substring_char(0, cursor_position).to_owned();
            new_text.append(text.as_str());
            let new_cursor = new_text.as_str().unicode_len();
            new_text.append(st.substring_char(cursor_position, units));
            self.pending.surrounding_text = new_text;
            self.pending.cursor = new_cursor;
            proof {
                assert(self@ =~~= spec_commit_string(old(self)@, text@));
            }
            Ok(Request::CommitString { text })
        } else {
            Err(SubmitError::NotActive)
        }
    }

    /// Issues a `delete_surrounding_text` request: removes the clamped
    /// counts of text units left and right of the pending cursor and
    /// returns the request to send, carrying the clamped counts — the
    /// server drops a request that reaches outside the known surrounding
    /// text, so an unclamped one must never be emitted.  Fails with
    /// `NotActive`, and changes nothing, unless the promoted state is
    /// active.
    pub fn delete_surrounding_text(&mut self, before: usize, after: usize) -> (r: Result<
        Request,
        SubmitError,
    >)
        ensures
            old(self)@.current.active ==> {
                &&& final(self)@ == spec_delete(old(self)@, before as int, after as int)
                &&& r matches Ok(req) && req@ == RequestView::DeleteSurroundingText {
                    before: clamp_before(old(self)@.pending, before as int),
                    after: clamp_after(old(self)@.pending, after as int),
                }
            },
            !old(self)@.current.active ==> {
                &&& final(self)@ == old(self)@
                &&& r == Err::<Request, SubmitError>(SubmitError::NotActive)
            },
    {
        proof {
            use_type_invariant(&*self);
        }
        if self.current.active {
            let (before, after) = self.limit_before_after(before, after);
            self.update_cursor_and_surrounding_text(before, after);
            Ok(Request::DeleteSurroundingText { before, after })
        } else {
            Err(SubmitError::NotActive)
        }
    }

    /// Issues a `commit` request: returns the request carrying the serial
    /// captured at call time, increments the serial (wrapping on overflow,
    /// which is expected over a long session), and promotes `pending` to
    /// `current`, notifying the collaborators of what changed.  Fails with
    /// `NotActive`, and changes nothing, unless the promoted state is
    /// active.
    pub fn commit(&mut self) -> (r: Result<Request, SubmitError>)
        ensures
            old(self)@.current.active ==> {
                &&& final(self)@ == spec_commit(old(self)@)
                &&& r matches Ok(req) && req@ == RequestView::Commit {
                    serial: old(self)@.serial,
                }
            },
            !old(self)@.current.active ==> {
                &&& final(self)@ == old(self)@
                &&& r == Err::<Request, SubmitError>(SubmitError::NotActive)
            },
    {
        proof {
            use_type_invariant(&*self);
        }
        if self.current.active {
            let req = Request::Commit { serial: self.serial };
            if self.serial == 0xffff_ffffu32 {
                self.serial = 0;
            } else {
                self.serial = self.serial + 1;
            }
            // The notifications fire inside the promotion; the record of
            // them is not part of this request's result.
            let _notices = self.pending_becomes_current();
            proof {
                assert(self@ =~~= spec_commit(old(self)@));
            }
            Ok(req)
        } else {
            Err(SubmitError::NotActive)
        }
    }

    /// Clamps the requested deletion counts to what the known surrounding
    /// text can honour: at most `cursor` text units to the left, at most
    /// `len - cursor` to the right.
    fn limit_before_after(&self, before: usize, after: usize) -> (limited: (usize, usize))
        ensures
            limited.0 == clamp_before(self@.pending, before as int),
            limited.1 == clamp_after(self@.pending, after as int),
    {
        proof {
            use_type_invariant(&*self);
        }
        let cursor_position = self.pending.cursor;
        let units = self.pending.surrounding_text.as_str().unicode_len();
        let before = if before <= cursor_position {
            before
        } else {
            cursor_position
        };
        let after = if after <= units - cursor_position {
            after
        } else {
            units - cursor_position
        };
        (before, after)
    }

    /// Removes `before` text units ending at the pending cursor and
    /// `after` starting at it, and recomputes the cursor as the length of
    /// the left remainder.  The counts must already be clamped.
    fn update_cursor_and_surrounding_text(&mut self, before: usize, after: usize)
        requires
            before <= old(self)@.pending.cursor,
            old(self)@.pending.cursor + after <= old(self)@.pending.surrounding_text.len(),
        ensures
            final(self)@ == spec_remove(old(self)@, before as int, after as int),
    {
        proof {
            use_type_invariant(&*self);
        }
        let cursor_position = self.pending.cursor;
        let st = self.pending.surrounding_text.as_str();
        let units = st.unicode_len();
        let mut new_text = st.substring_char(0, cursor_position - before).to_owned();
        let new_cursor = cursor_position - before;
        new_text.append(st.substring_char(cursor_position + after, units));
        self.pending.cursor = new_cursor;
        self.pending.surrounding_text = new_text;
        proof {
            assert(self@ =~~= spec_remove(old(self)@, before as int, after as int));
        }
    }

    /// Handles the server's `activate` event: `pending` is replaced
    /// wholesale by a fresh default snapshot that is active.  Any
    /// unconsumed pending edits are discarded — server-driven activation
    /// always wins.
    pub fn handle_activate(&mut self)
        ensures
            final(self)@ == spec_activate(old(self)@),
    {
        proof {
            use_type_invariant(&*self);
        }
        self.pending = IMProtocolState { active: true, ..IMProtocolState::default() };
        proof {
            assert(self@ =~~= spec_activate(old(self)@));
        }
    }

    /// Handles the server's `deactivate` event: only `pending.active`
    /// drops; every other pending field stays untouched.
    pub fn handle_deactivate(&mut self)
        ensures
            final(self)@ == spec_deactivate(old(self)@),
    {
        proof {
            use_type_invariant(&*self);
        }
        self.pending.active = false;
        proof {
            assert(self@ =~~= spec_deactivate(old(self)@));
        }
    }

    /// Handles the server's `surrounding_text` event: the pending text and
    /// cursor are overwritten with the server's values.  The selection
    /// anchor is accepted but not retained.
    ///
    /// A cursor that is not a valid split point of `text` is a protocol
    /// violation outside this engine's control; it is fatal to the session,
    /// handled exactly like `unavailable`, and the returned `destroy`
    /// request must be sent.
    pub fn handle_surrounding_text(&mut self, text: String, cursor: usize, _anchor: usize) -> (teardown: Option<Request>)
        ensures
            cursor <= text@.len() ==> {
                &&& final(self)@ == spec_surrounding_text(old(self)@, text@, cursor as int)
                &&& teardown is None
            },
            cursor > text@.len() ==> {
                &&& final(self)@ == spec_unavailable(old(self)@)
                &&& teardown == Some(Request::Destroy)
            },
    {
        proof {
            use_type_invariant(&*self);
        }
        let units = text.as_str().unicode_len();
        if cursor <= units {
            self.pending = IMProtocolState {
                surrounding_text: text,
                cursor,
                content_hint: self.pending.content_hint,
                content_purpose: self.pending.content_purpose,
                text_change_cause: self.pending.text_change_cause,
                active: self.pending.active,
            };
            proof {
                assert(self@ =~~= spec_surrounding_text(old(self)@, text@, cursor as int));
            }
            None
        } else {
            Some(self.handle_unavailable())
        }
    }

    /// Handles the server's `text_change_cause` event: records why the
    /// surrounding text will have changed at the next synchronization
    /// point.
    pub fn handle_text_change_cause(&mut self, cause: ChangeCause)
        ensures
            final(self)@ == spec_text_change_cause(old(self)@, cause),
    {
        proof {
            use_type_invariant(&*self);
        }
        self.pending.text_change_cause = cause;
        proof {
            assert(self@ =~~= spec_text_change_cause(old(self)@, cause));
        }
    }

    /// Handles the server's `content_type` event: records both the hint and
    /// the purpose of the focused text field.
    pub fn handle_content_type(&mut self, hint: ContentHint, purpose: ContentPurpose)
        ensures
            final(self)@ == spec_content_type(old(self)@, hint, purpose),
    {
        proof {
            use_type_invariant(&*self);
        }
        self.pending.content_hint = hint;
        self.pending.content_purpose = purpose;
        proof {
            assert(self@ =~~= spec_content_type(old(self)@, hint, purpose));
        }
    }

    /// Handles the server's `done` event, the synchronization point: all
    /// accumulated pending state is promoted to `current` as one atomic
    /// update, and the collaborators are notified of what changed.
    pub fn handle_done(&mut self) -> (notices: PromotionNotices)
        ensures
            final(self)@ == spec_promote(old(self)@),
            notices@ == spec_promote_notices(old(self)@),
    {
        self.pending_becomes_current()
    }

    /// Promotion: replaces `current` with a copy of `pending` and notifies
    /// the collaborators, at most once per changed aspect.  Both change
    /// tests are evaluated against the pre-promotion `current`; the text
    /// split reported is that of the newly promoted state.  The returned
    /// value records exactly which notifications fired.
    fn pending_becomes_current(&mut self) -> (notices: PromotionNotices)
        ensures
            final(self)@ == spec_promote(old(self)@),
            notices@ == spec_promote_notices(old(self)@),
    {
        proof {
            use_type_invariant(&*self);
        }
        let active_changed = self.current.active != self.pending.active;
        let text_changed = !(self.current.surrounding_text == self.pending.surrounding_text);

        // Make the pending changes permanent.
        self.current = self.pending.duplicate();
        proof {
            assert(self@ =~~= spec_promote(old(self)@));
        }

        let mut notices = PromotionNotices { text_change: None, activated: None, deactivated: false };

        if text_changed {
            let (left, right) = self.get_surrounding_text();
            self.content_connector.text_changed(left.clone(), right.clone());
            notices.text_change = Some((left, right));
        }

        if active_changed {
            if self.current.active {
                self.ui_connector.activate_im();
                self.ui_connector.set_hint_purpose(
                    self.current.content_hint,
                    self.current.content_purpose,
                );
                notices.activated = Some(
                    (self.current.content_hint, self.current.content_purpose),
                );
            } else {
                self.ui_connector.deactivate_im();
                notices.deactivated = true;
            }
        }

        proof {
            assert(notices@ =~~= spec_promote_notices(old(self)@));
        }
        notices
    }

    /// Handles the server's `unavailable` event: the session is torn down.
    /// `current.active` is forced off, the visibility collaborator is told
    /// to hide, and the returned `destroy` request must be sent.  Terminal:
    /// no further request may be issued afterwards.
    pub fn handle_unavailable(&mut self) -> (destroy: Request)
        ensures
            final(self)@ == spec_unavailable(old(self)@),
            destroy == Request::Destroy,
    {
        proof {
            use_type_invariant(&*self);
        }
        self.current.active = false;
        self.ui_connector.deactivate_im();
        proof {
            assert(self@ =~~= spec_unavailable(old(self)@));
        }
        Request::Destroy
    }

    /// Returns the promoted surrounding text split at the promoted cursor:
    /// the halves left and right of it.  `pending` is never consulted, as
    /// it may hold edits not yet acknowledged by a synchronization point;
    /// so without an intervening promotion the result cannot change.
    pub fn get_surrounding_text(&self) -> (split: (String, String))
        ensures
            (split.0@, split.1@) == spec_split(self@.current),
    {
        proof {
            use_type_invariant(&*self);
        }
        let st = self.current.surrounding_text.as_str();
        let len = st.unicode_len();
        let left = st.substring_char(0, self.current.cursor).to_owned();
        let right = st.substring_char(self.current.cursor, len).to_owned();
        (left, right)
    }
}

} // verus!
