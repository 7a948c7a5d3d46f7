use crate::session::{opt_is, spec_has_id, spec_height, spec_quoted, Session};
use crate::types::{Event, EventKind, Id, PubKey};
use vstd::prelude::*;

verus! {

/// A user gesture on a rendered note.
#[derive(Clone, Copy, PartialEq, Eq, Structural)]
pub enum Action {
    /// React with the default symbol.
    Like,
    /// Start composing a reply to this note.
    Reply,
    /// Quote this note's reference into the draft.
    Quote,
    /// Dismiss this note for the session.
    Dismiss,
    /// Copy the note's reference in its textual form.
    CopyId,
    /// Copy the note's id as hex.
    CopyIdHex,
    /// Copy the note's contents (or its raw form when raw view is on).
    CopyContents,
    /// Navigate to this note's thread.
    ViewThread,
    /// Toggle the raw view of this note.
    ToggleRaw,
    /// Toggle the code-image view of this note.
    ToggleQr,
    /// Approve past this note's content warning.
    Approve,
}

/// What the surrounding page must carry out after a dispatch. Sends and
/// clipboard writes are the page's business: the engine only decides them.
pub enum Effect {
    /// Nothing outward; any state change happened in the session.
    Nothing,
    /// Send a react message naming the note and its signer.
    SendLike { id: Id, author: PubKey },
    /// Put this text on the clipboard.
    Clipboard(String),
    /// Serialize the full event named here and put that on the clipboard.
    ClipboardRawEvent(Id),
    /// Navigate to the thread view of this note.
    ShowThread { id: Id, referenced_by: Id },
    /// The note's reference could not be encoded: the one action failed,
    /// and nothing else changed.
    EncodeFailed,
}

/// The note reference in its textual transfer form, when the id has one.
pub uninterp spec fn bech32_note_ref(id_hex: Seq<char>) -> Option<Seq<char>>;

/// Relies on nostr_types::Id::try_as_bech32_string: the note reference in
/// its textual transfer form, a function of the id alone. An id whose hex
/// form does not parse back into an id has no reference.
#[verifier::external_body]
fn encode_note_ref(id: &Id) -> (r: Option<String>)
    ensures
        r is Some <==> bech32_note_ref(id@) is Some,
        r matches Some(s) ==> bech32_note_ref(id@) == Some(s@),
{
    let nid = match nostr_types::Id::try_from_hex_string(&id.hex) {
        Ok(n) => n,
        Err(_) => return None,
    };
    nid.try_as_bech32_string().ok()
}

/// Whether the page offers this gesture on this note: thread navigation
/// never points at the note already framing the page and never at an
/// encrypted message; replying never answers an encrypted message; the
/// row of content gestures exists only under a full note; reacting also
/// needs reactions switched on.
pub open spec fn spec_action_available(
    kind: EventKind,
    is_main: bool,
    as_reply_to: bool,
    reactions_enabled: bool,
    action: Action,
) -> bool {
    match action {
        Action::ViewThread => !is_main && !(kind is EncryptedDirectMessage),
        Action::Reply => !as_reply_to && !(kind is EncryptedDirectMessage),
        Action::Like => !as_reply_to && reactions_enabled,
        Action::Quote => !as_reply_to,
        Action::CopyContents => !as_reply_to,
        Action::ToggleRaw => !as_reply_to,
        Action::ToggleQr => !as_reply_to,
        Action::CopyId => true,
        Action::CopyIdHex => true,
        Action::Dismiss => true,
        Action::Approve => true,
    }
}

/// Decide whether a gesture is offered.
pub fn action_available(
    kind: &EventKind,
    is_main: bool,
    as_reply_to: bool,
    reactions_enabled: bool,
    action: &Action,
) -> (r: bool)
    ensures
        r == spec_action_available(*kind, is_main, as_reply_to, reactions_enabled, *action),
{
    let dm = matches!(kind, EventKind::EncryptedDirectMessage);
    match action {
        Action::ViewThread => !is_main && !dm,
        Action::Reply => !as_reply_to && !dm,
        Action::Like => !as_reply_to && reactions_enabled,
        Action::Quote => !as_reply_to,
        Action::CopyContents => !as_reply_to,
        Action::ToggleRaw => !as_reply_to,
        Action::ToggleQr => !as_reply_to,
        Action::CopyId => true,
        Action::CopyIdHex => true,
        Action::Dismiss => true,
        Action::Approve => true,
    }
}

/// Both sessions hold the very same state.
pub open spec fn session_unchanged(a: Session, b: Session) -> bool {
    &&& a.viewed@ == b.viewed@
    &&& a.approved@ == b.approved@
    &&& a.heights@ == b.heights@
    &&& a.render_raw == b.render_raw
    &&& a.render_qr == b.render_qr
    &&& a.dismissed@ == b.dismissed@
    &&& a.draft@ == b.draft@
    &&& a.replying_to == b.replying_to
}

/// Translate a gesture into a session change and an outward effect. A
/// gesture that copies or navigates changes no session state; a gesture
/// that quotes or replies changes only the draft or the composer pointer;
/// an encoding failure fails that one gesture and nothing else.
pub fn dispatch(session: &mut Session, ev: &Event, action: &Action) -> (r: Effect)
    ensures
        *action is Like ==> session_unchanged(*final(session), *old(session)) && (
        r matches Effect::SendLike { id, author } && id@ == ev.id@ && author@ == ev.pubkey@),
        *action is Reply ==> opt_is(final(session).replying_to, ev.id@) && final(session).draft@
            == old(session).draft@ && final(session).viewed@ == old(session).viewed@ && final(session).approved@ == old(session).approved@ && final(session).heights@ == old(session).heights@
            && final(session).render_raw == old(session).render_raw && final(session).render_qr
            == old(session).render_qr && final(session).dismissed@ == old(session).dismissed@ && (
        r is Nothing),
        *action is Quote ==> match bech32_note_ref(ev.id@) {
            Some(s) => final(session).draft@ == spec_quoted(old(session).draft@, s) && final(session).viewed@ == old(session).viewed@ && final(session).approved@ == old(session).approved@ && final(session).heights@ == old(session).heights@ && final(session).render_raw == old(session).render_raw && final(session).render_qr == old(session).render_qr && final(session).dismissed@ == old(session).dismissed@ && final(session).replying_to == old(session).replying_to && (r is Nothing),
            None => session_unchanged(*final(session), *old(session)) && (r is EncodeFailed),
        },
        *action is Dismiss ==> final(session).dismissed@.len() == old(session).dismissed@.len()
            + 1 && final(session).dismissed@[old(session).dismissed@.len() as int]@ == ev.id@ && (
        forall|k: int|
            0 <= k < old(session).dismissed@.len() ==> final(session).dismissed@[k] == old(session).dismissed@[k]) && final(session).draft@ == old(session).draft@ && final(session).viewed@ == old(session).viewed@ && final(session).approved@ == old(session).approved@
            && final(session).heights@ == old(session).heights@ && final(session).render_raw
            == old(session).render_raw && final(session).render_qr == old(session).render_qr
            && final(session).replying_to == old(session).replying_to && (r is Nothing),
        *action is CopyId ==> session_unchanged(*final(session), *old(session)) && match bech32_note_ref(
            ev.id@,
        ) {
            Some(s) => r matches Effect::Clipboard(t) && t@ == s,
            None => r is EncodeFailed,
        },
        *action is CopyIdHex ==> session_unchanged(*final(session), *old(session)) && (
        r matches Effect::Clipboard(t) && t@ == ev.id@),
        *action is CopyContents ==> session_unchanged(*final(session), *old(session)) && (if opt_is(
            old(session).render_raw,
            ev.id@,
        ) {
            r matches Effect::ClipboardRawEvent(i) && i@ == ev.id@
        } else {
            r matches Effect::Clipboard(t) && t@ == ev.content@
        }),
        *action is ViewThread ==> session_unchanged(*final(session), *old(session)) && (
        r matches Effect::ShowThread { id, referenced_by } && id@ == ev.id@ && referenced_by@
            == ev.id@),
        *action is ToggleRaw ==> (r is Nothing) && final(session).draft@ == old(session).draft@
            && final(session).heights@ == old(session).heights@ && final(session).dismissed@
            == old(session).dismissed@ && final(session).replying_to == old(session).replying_to
            && (opt_is(old(session).render_raw, ev.id@) ==> final(session).render_raw is None
            && final(session).render_qr == old(session).render_qr) && (!opt_is(
            old(session).render_raw,
            ev.id@,
        ) ==> opt_is(final(session).render_raw, ev.id@) && (opt_is(
            old(session).render_qr,
            ev.id@,
        ) ==> final(session).render_qr is None) && (!opt_is(old(session).render_qr, ev.id@)
            ==> final(session).render_qr == old(session).render_qr)),
        *action is ToggleQr ==> (r is Nothing) && final(session).draft@ == old(session).draft@
            && final(session).heights@ == old(session).heights@ && final(session).dismissed@
            == old(session).dismissed@ && final(session).replying_to == old(session).replying_to
            && (opt_is(old(session).render_qr, ev.id@) ==> final(session).render_qr is None
            && final(session).render_raw == old(session).render_raw) && (!opt_is(
            old(session).render_qr,
            ev.id@,
        ) ==> opt_is(final(session).render_qr, ev.id@) && (opt_is(
            old(session).render_raw,
            ev.id@,
        ) ==> final(session).render_raw is None) && (!opt_is(old(session).render_raw, ev.id@)
            ==> final(session).render_raw == old(session).render_raw)),
        *action is Approve ==> spec_has_id(final(session).approved@, ev.id@) && spec_height(
            final(session).heights@,
            ev.id@,
        ) is None && (forall|x: Seq<char>|
            x != ev.id@ ==> spec_has_id(final(session).approved@, x) == spec_has_id(
                old(session).approved@,
                x,
            )) && (forall|x: Seq<char>|
            x != ev.id@ ==> spec_height(final(session).heights@, x) == spec_height(
                old(session).heights@,
                x,
            )) && final(session).viewed@ == old(session).viewed@ && final(session).draft@ == old(session).draft@ && final(session).render_raw == old(session).render_raw && final(session).render_qr == old(session).render_qr && final(session).dismissed@ == old(session).dismissed@ && final(session).replying_to == old(session).replying_to && (r is Nothing),
        forall|x: Seq<char>|
            spec_has_id(old(session).viewed@, x) ==> spec_has_id(final(session).viewed@, x),
        forall|x: Seq<char>|
            spec_has_id(old(session).approved@, x) ==> spec_has_id(final(session).approved@, x),
{
    match action {
        Action::Like => Effect::SendLike {
            id: ev.id.clone_id(),
            author: ev.pubkey.clone_key(),
        },
        Action::Reply => {
            session.set_replying_to(&ev.id);
            Effect::Nothing
        },
        Action::Quote => {
            match encode_note_ref(&ev.id) {
                Some(s) => {
                    session.quote_append(s.as_str());
                    Effect::Nothing
                },
                None => Effect::EncodeFailed,
            }
        },
        Action::Dismiss => {
            session.dismiss(&ev.id);
            Effect::Nothing
        },
        Action::CopyId => {
            match encode_note_ref(&ev.id) {
                Some(s) => Effect::Clipboard(s),
                None => Effect::EncodeFailed,
            }
        },
        Action::CopyIdHex => Effect::Clipboard(ev.id.hex.clone()),
        Action::CopyContents => {
            let raw_here = match &session.render_raw {
                Some(r) => r.same(&ev.id),
                None => false,
            };
            if raw_here {
                Effect::ClipboardRawEvent(ev.id.clone_id())
            } else {
                Effect::Clipboard(ev.content.clone())
            }
        },
        Action::ViewThread => Effect::ShowThread {
            id: ev.id.clone_id(),
            referenced_by: ev.id.clone_id(),
        },
        Action::ToggleRaw => {
            session.toggle_raw(&ev.id);
            Effect::Nothing
        },
        Action::ToggleQr => {
            session.toggle_qr(&ev.id);
            Effect::Nothing
        },
        Action::Approve => {
            session.approve(&ev.id);
            Effect::Nothing
        },
    }
}

} // verus!
