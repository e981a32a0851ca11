//! Inbound events, outbound requests, and the notifications a promotion
//! produces, together with their mathematical views.
//!
//! The engine never talks to the transport itself: the embedding turns the
//! wire messages into [`Event`] values, and sends each [`Request`] value the
//! engine hands back.  Requests are fire-and-forget; nothing here blocks.

use crate::state::{ChangeCause, ContentHint, ContentPurpose};
use vstd::prelude::*;

verus! {

/// An inbound protocol event, as delivered by the server.
pub enum Event {
    /// This input method became the one receiving focus.
    Activate,
    /// This input method stopped receiving focus.
    Deactivate,
    /// The text around the cursor, as the focused text field reports it.
    /// `cursor` and `anchor` are text-unit indices into `text`; the anchor
    /// (the other end of the selection) is accepted but not retained.
    SurroundingText { text: String, cursor: usize, anchor: usize },
    /// Why the surrounding text last changed.
    TextChangeCause { cause: ChangeCause },
    /// Classification of the focused text field.
    ContentType { hint: ContentHint, purpose: ContentPurpose },
    /// Synchronization point: all pending events form one atomic update.
    Done,
    /// The protocol object became unavailable.  Terminal.
    Unavailable,
}

/// Mathematical view of an [`Event`].
#[verifier::ext_equal]
pub enum EventView {
    Activate,
    Deactivate,
    SurroundingText { text: Seq<char>, cursor: int, anchor: int },
    TextChangeCause { cause: ChangeCause },
    ContentType { hint: ContentHint, purpose: ContentPurpose },
    Done,
    Unavailable,
}

impl View for Event {
    type V = EventView;

    open spec fn view(&self) -> EventView {
        match self {
            Event::Activate => EventView::Activate,
            Event::Deactivate => EventView::Deactivate,
            Event::SurroundingText { text, cursor, anchor } => EventView::SurroundingText {
                text: text@,
                cursor: *cursor as int,
                anchor: *anchor as int,
            },
            Event::TextChangeCause { cause } => EventView::TextChangeCause { cause: *cause },
            Event::ContentType { hint, purpose } => EventView::ContentType {
                hint: *hint,
                purpose: *purpose,
            },
            Event::Done => EventView::Done,
            Event::Unavailable => EventView::Unavailable,
        }
    }
}

/// An outbound protocol request for the embedding to send.
pub enum Request {
    /// Commit `text` at the cursor of the focused text field.
    CommitString { text: String },
    /// Delete `before` text units left and `after` text units right of the
    /// cursor.  The counts are already clamped to the known surrounding
    /// text, as the server drops a request that reaches outside it.
    DeleteSurroundingText { before: usize, after: usize },
    /// Commit the pending edits, stamped with the serial captured at call
    /// time.
    Commit { serial: u32 },
    /// Destroy the protocol object.  Sent once; nothing may follow it.
    Destroy,
}

/// Mathematical view of a [`Request`].
#[verifier::ext_equal]
pub enum RequestView {
    CommitString { text: Seq<char> },
    DeleteSurroundingText { before: int, after: int },
    Commit { serial: u32 },
    Destroy,
}

impl View for Request {
    type V = RequestView;

    open spec fn view(&self) -> RequestView {
        match self {
            Request::CommitString { text } => RequestView::CommitString { text: text@ },
            Request::DeleteSurroundingText { before, after } => (
                RequestView::DeleteSurroundingText { before: *before as int, after: *after as int }
            ),
            Request::Commit { serial } => RequestView::Commit { serial: *serial },
            Request::Destroy => RequestView::Destroy,
        }
    }
}

/// What one promotion reported to the collaborators: the new split of the
/// surrounding text if the text changed, the hint and purpose delivered
/// after a show notification if the session just became active, and whether
/// a hide notification fired because it just became inactive.
pub struct PromotionNotices {
    pub text_change: Option<(String, String)>,
    pub activated: Option<(ContentHint, ContentPurpose)>,
    pub deactivated: bool,
}

/// Mathematical view of [`PromotionNotices`].
#[verifier::ext_equal]
pub struct NoticesView {
    pub text_change: Option<(Seq<char>, Seq<char>)>,
    pub activated: Option<(ContentHint, ContentPurpose)>,
    pub deactivated: bool,
}

impl View for PromotionNotices {
    type V = NoticesView;

    open spec fn view(&self) -> NoticesView {
        NoticesView {
            text_change: match self.text_change {
                Some((l, r)) => Some((l@, r@)),
                None => None,
            },
            activated: self.activated,
            deactivated: self.deactivated,
        }
    }
}

} // verus!
