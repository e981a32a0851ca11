//! Collaborator interfaces the engine expects from its embedding.
//!
//! The embedding supplies one implementation of each; the engine invokes
//! them synchronously from promotion (and from teardown), always under the
//! same exclusive access as every other operation.  Implementations must not
//! call back into the service from inside a notification.

use crate::state::{ContentHint, ContentPurpose};
use vstd::prelude::*;

verus! {

/// Notified when the input method becomes, or stops being, the one
/// receiving focus — for example to show or hide a keyboard.
pub trait IMVisibility {
    fn activate_im(&self);

    fn deactivate_im(&self);
}

/// Notified when the text surrounding the cursor changed, with the halves
/// left and right of the cursor.
pub trait ReceiveSurroundingText {
    fn text_changed(&self, string_left_of_cursor: String, string_right_of_cursor: String);
}

/// Notified of the classification of the text field currently being edited.
pub trait HintPurpose {
    fn set_hint_purpose(&self, content_hint: ContentHint, content_purpose: ContentPurpose);
}

} // verus!
