use vstd::prelude::*;

verus! {

/// What the message of a refused id starts with: `invalid <kind> id: `.
pub open spec fn invalid_id_prefix(kind: Seq<char>) -> Seq<char> {
    "invalid "@ + kind + " id: "@
}

/// The message an id refusal is shown with: `invalid <kind> id: <reason>`.
pub fn invalid_id(kind: &str, reason: &str) -> (message: String)
    ensures
        message@ == invalid_id_prefix(kind@) + reason@,
{
    let mut message = String::from_str("invalid ");
    message.append(kind);
    message.append(" id: ");
    let ghost prefix = message@;
    assert(prefix =~= invalid_id_prefix(kind@));
    message.append(reason);
    message
}

} // verus!
