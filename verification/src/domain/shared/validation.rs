use vstd::prelude::*;

use super::notification::{with_messages_appended, ErrorEntry, Notification};

verus! {

/// The longest text, in UTF-8 bytes, that a name or title may have.
pub const MAX_TEXT_BYTES: usize = 255;

/// The text is longer than 255 bytes once encoded in UTF-8.
pub open spec fn exceeds_max_length(text: Seq<char>) -> bool {
    vstd::utf8::encode_utf8(text).len() > MAX_TEXT_BYTES
}

/// The message recorded when `field` is too long.
pub open spec fn too_long_message(field: Seq<char>) -> Seq<char> {
    field + " must be shorter than or equal to 255 characters"@
}

/// The notification after checking the length of `text`, recorded under `field`.
pub open spec fn checked_length(
    notification: Seq<ErrorEntry>,
    field: Seq<char>,
    text: Seq<char>,
) -> Seq<ErrorEntry> {
    if exceeds_max_length(text) {
        with_messages_appended(notification, field, seq![too_long_message(field)])
    } else {
        notification
    }
}

/// Records on the notification, under `field`, that `text` is too long when it is.
pub fn check_length(notification: &mut Notification, field: &str, text: &str)
    ensures
        final(notification)@ == checked_length(old(notification)@, field@, text@),
{
    if text.as_bytes().len() > MAX_TEXT_BYTES {
        let mut message = String::from_str(field);
        message.append(" must be shorter than or equal to 255 characters");
        notification.add_error(message.as_str(), Some(field));
    }
}

} // verus!
