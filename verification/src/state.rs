//! The protocol snapshot value type and the small classification types it
//! carries.
//!
//! The surrounding text is modelled as its sequence of text units (`char`s),
//! and the cursor as an index into that sequence.  Working on whole text
//! units means the cursor can never point into the middle of a multi-byte
//! encoding: every index `0 <= cursor <= len` is a valid split point.

use vstd::prelude::*;

verus! {

/// Classification bits describing the expected shape of the input text
/// (password, multiline, ...).  The engine passes the value through
/// unchanged; the embedding maps it from and to the transport's encoding.
#[derive(Debug, Clone, Copy, PartialEq, Eq, Structural)]
pub struct ContentHint {
    pub bits: u32,
}

/// Classification of the purpose of the input field (normal text, digits,
/// a password, ...).  Passed through unchanged, like [`ContentHint`].
#[derive(Debug, Clone, Copy, PartialEq, Eq, Structural)]
pub enum ContentPurpose {
    Normal,
    Alpha,
    Digits,
    Number,
    Phone,
    Url,
    Email,
    Name,
    Password,
    Pin,
    Date,
    Time,
    Datetime,
    Terminal,
}

/// Reason the surrounding text last changed.
#[derive(Debug, Clone, Copy, PartialEq, Eq, Structural)]
pub enum ChangeCause {
    /// The change was caused by this input method itself.
    InputMethod,
    /// The change came from somewhere else (the user typing, the
    /// application replacing the field, ...).
    Other,
}

/// Mathematical model of one protocol snapshot.
#[verifier::ext_equal]
pub struct StateView {
    pub surrounding_text: Seq<char>,
    pub cursor: int,
    pub content_hint: ContentHint,
    pub content_purpose: ContentPurpose,
    pub text_change_cause: ChangeCause,
    pub active: bool,
}

impl StateView {
    /// The cursor is a valid split point of the surrounding text.
    pub open spec fn wf(self) -> bool {
        0 <= self.cursor <= self.surrounding_text.len()
    }

    /// The snapshot a fresh session starts from: empty text, cursor at the
    /// start, neutral classification, not active.
    pub open spec fn default_view() -> StateView {
        StateView {
            surrounding_text: Seq::empty(),
            cursor: 0,
            content_hint: ContentHint { bits: 0 },
            content_purpose: ContentPurpose::Normal,
            text_change_cause: ChangeCause::InputMethod,
            active: false,
        }
    }
}

/// One snapshot of the server-visible input-method state.
///
/// `cursor` counts text units, not bytes, so it is a valid split point of
/// `surrounding_text` whenever it is in range.
pub struct IMProtocolState {
    pub surrounding_text: String,
    pub cursor: usize,
    pub content_hint: ContentHint,
    pub content_purpose: ContentPurpose,
    pub text_change_cause: ChangeCause,
    pub active: bool,
}

impl View for IMProtocolState {
    type V = StateView;

    open spec fn view(&self) -> StateView {
        StateView {
            surrounding_text: self.surrounding_text@,
            cursor: self.cursor as int,
            content_hint: self.content_hint,
            content_purpose: self.content_purpose,
            text_change_cause: self.text_change_cause,
            active: self.active,
        }
    }
}

impl IMProtocolState {
    /// An equal copy of the snapshot; promotion copies `pending` by value.
    pub fn duplicate(&self) -> (s: IMProtocolState)
        ensures
            s@ == self@,
    {
        let s = IMProtocolState {
            surrounding_text: self.surrounding_text.clone(),
            cursor: self.cursor,
            content_hint: self.content_hint,
            content_purpose: self.content_purpose,
            text_change_cause: self.text_change_cause,
            active: self.active,
        };
        proof {
            assert(s@ =~= self@);
        }
        s
    }
}

impl Default for IMProtocolState {
    /// A fresh snapshot: empty text, cursor 0, neutral hint and purpose,
    /// change cause "input method", inactive.
    fn default() -> (s: IMProtocolState)
        ensures
            s@ == StateView::default_view(),
    {
        let s = IMProtocolState {
            surrounding_text: String::new(),
            cursor: 0,
            content_hint: ContentHint { bits: 0 },
            content_purpose: ContentPurpose::Normal,
            text_change_cause: ChangeCause::InputMethod,
            active: false,
        };
        proof {
            assert(s@ =~= StateView::default_view());
        }
        s
    }
}

} // verus!
