//! What viewers submit: a post, and the name that they post under.

use vstd::prelude::*;
use crate::text::{lowercase, same_text, to_lowercase, trim, trimmed};

verus! {

/// A post as it is submitted.
#[derive(Debug)]
pub struct MessageNew {
    pub contents: String,
}

/// The name that a viewer asks to post under.
#[derive(Debug)]
pub struct NamePayload {
    pub name: String,
}

/// A name that was refused, as it is shown to who asked for it.
#[derive(Debug)]
pub struct BannedName {
    pub name: String,
}

/// The name that no viewer may take, in lowercase: it is the sender of the
/// feed's own announcements.
pub const RESERVED_NAME: &'static str = "system";

/// Whether a name is reserved: whether it is the reserved name once the
/// whitespace around it is dropped and case is ignored.
pub open spec fn is_reserved(name: Seq<char>) -> bool {
    lowercase(trimmed(name)) == RESERVED_NAME@
}

/// Decides on a name that a viewer asks for. A reserved name is refused, and
/// the refusal carries the name without the whitespace around it; any other
/// name is accepted.
pub fn banned_name(payload: &NamePayload) -> (r: Option<BannedName>)
    ensures
        r is Some <==> is_reserved(payload.name@),
        r is Some ==> r->0.name@ == trimmed(payload.name@),
{
    let name = trim(payload.name.as_str());
    let lower = to_lowercase(name.as_str());
    if same_text(lower.as_str(), RESERVED_NAME) {
        Some(BannedName { name })
    } else {
        None
    }
}

} // verus!
