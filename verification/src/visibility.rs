use crate::types::{EventKind, Settings};
use vstd::prelude::*;

verus! {

/// Whether a note of this kind gets a slot in the feed at all: text notes
/// always, reposts and encrypted direct messages only when the viewer has
/// switched them on, every other kind never.
pub open spec fn spec_should_render(kind: EventKind, s: Settings) -> bool {
    ||| kind is TextNote
    ||| (s.reposts && kind is Repost)
    ||| (s.direct_messages && kind is EncryptedDirectMessage)
}

/// Decide whether a note of this kind is renderable under these settings.
pub fn should_render(kind: &EventKind, s: &Settings) -> (r: bool)
    ensures
        r == spec_should_render(*kind, *s),
{
    match kind {
        EventKind::TextNote => true,
        EventKind::Repost => s.reposts,
        EventKind::EncryptedDirectMessage => s.direct_messages,
        EventKind::Other(_) => false,
    }
}

} // verus!
