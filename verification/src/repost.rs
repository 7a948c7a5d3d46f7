use crate::types::{Event, EventKind, Id, PubKey, Tag};
use nostr_types::Event as NostrEvent;
use vstd::prelude::*;
use vstd::string::StrSliceExecFns;

verus! {

/// Whether a string is the complete serialized form of a signed note.
pub uninterp spec fn parses_as_note(s: Seq<char>) -> bool;

#[verifier::external_type_specification]
#[verifier::external_body]
pub struct ExNostrEvent(NostrEvent);

/// Relies on serde_json::from_str for nostr_types::Event: the string
/// parses, or it does not, as a function of the string alone.
#[verifier::external_body]
fn parse_note_json(content: &String) -> (r: Option<NostrEvent>)
    ensures
        r is Some <==> parses_as_note(content@),
{
    serde_json::from_str::<NostrEvent>(content.as_str()).ok()
}

/// Relies on nostr_types::Id::as_hex_string: the parsed note's id, as hex.
#[verifier::external_body]
fn ev_id_hex(e: &NostrEvent) -> String {
    e.id.as_hex_string()
}

/// Relies on nostr_types::PublicKey::as_hex_string: the signer's key, as hex.
#[verifier::external_body]
fn ev_pubkey_hex(e: &NostrEvent) -> String {
    e.pubkey.as_hex_string()
}

/// Relies on u64::from(nostr_types::EventKind): the note's numeric kind.
#[verifier::external_body]
fn ev_kind_num(e: &NostrEvent) -> u64 {
    u64::from(e.kind)
}

/// Relies on nostr_types::Unixtime being the seconds as an i64.
#[verifier::external_body]
fn ev_created_at(e: &NostrEvent) -> i64 {
    e.created_at.0
}

/// Relies on nostr_types::Event's public content field.
#[verifier::external_body]
fn ev_content(e: &NostrEvent) -> String {
    e.content.clone()
}

/// Relies on nostr_types::Event's public tags field.
#[verifier::external_body]
fn ev_tag_count(e: &NostrEvent) -> usize {
    e.tags.len()
}

#[verifier::external_type_specification]
#[verifier::external_body]
pub struct ExPublicKeyHex(nostr_types::PublicKeyHex);

#[verifier::external_type_specification]
#[verifier::external_body]
pub struct ExDelegationConditions(nostr_types::DelegationConditions);

#[verifier::external_type_specification]
#[verifier::external_body]
pub struct ExSignatureHex(nostr_types::SignatureHex);

/// Relies on nostr_types' delegation tag fields: the delegator key and the
/// signature as their hex text, the conditions as their three parts.
#[verifier::external_body]
fn deleg_tag(
    pubkey: &nostr_types::PublicKeyHex,
    conditions: &nostr_types::DelegationConditions,
    sig: &nostr_types::SignatureHex,
) -> Tag {
    Tag::Delegation {
        delegator_hex: pubkey.as_str().to_owned(),
        cond_kind: conditions.kind.map(u64::from),
        cond_created_after: conditions.created_after.map(|t| t.0),
        cond_created_before: conditions.created_before.map(|t| t.0),
        sig_hex: sig.0.clone(),
    }
}

/// Relies on nostr_types::Tag: each variant the engine reads is carried
/// over field by field; every other variant, and any index out of range,
/// is an unread tag.
#[verifier::external_body]
fn ev_tag_at(e: &NostrEvent, i: usize) -> Tag {
    let t = match e.tags.get(i) { Some(t) => t, None => return Tag::Other };
    match t {
        nostr_types::Tag::Event { id, recommended_relay_url: _, marker } => Tag::Event { id: Id { hex: id.as_hex_string() }, marker: marker.clone() },
        nostr_types::Tag::Subject(s) => Tag::Subject(s.clone()),
        nostr_types::Tag::ContentWarning(w) => Tag::ContentWarning(w.clone()),
        nostr_types::Tag::Delegation { pubkey, conditions, sig } => deleg_tag(pubkey, conditions, sig),
        nostr_types::Tag::Nonce { nonce: _, target } => Tag::Nonce { target: target.clone() },
        _ => Tag::Other,
    }
}

/// The event kind a numeric protocol code names.
pub fn kind_of_num(n: u64) -> (r: EventKind)
    ensures
        crate::delegation::spec_kind_num(r) == n,
        n == 1 ==> r is TextNote,
        n == 4 ==> r is EncryptedDirectMessage,
        n == 6 ==> r is Repost,
        n != 1 && n != 4 && n != 6 ==> (r matches EventKind::Other(m) && m == n),
{
    if n == 1 {
        EventKind::TextNote
    } else if n == 4 {
        EventKind::EncryptedDirectMessage
    } else if n == 6 {
        EventKind::Repost
    } else {
        EventKind::Other(n)
    }
}

/// Assemble the engine's view of a parsed note, field by field. Nothing
/// is known of the values beyond what the parse wrappers hand back: every
/// caller must be, and is, correct for any note whatsoever.
fn convert_event(e: &NostrEvent) -> Event {
    let mut tags: Vec<Tag> = Vec::new();
    let n = ev_tag_count(e);
    for i in 0..n {
        tags.push(ev_tag_at(e, i));
    }
    Event {
        id: Id { hex: ev_id_hex(e) },
        pubkey: PubKey { hex: ev_pubkey_hex(e) },
        kind: kind_of_num(ev_kind_num(e)),
        created_at: ev_created_at(e),
        content: ev_content(e),
        tags,
    }
}

/// Parse a repost's content as a complete embedded note, if it is one.
pub fn parse_embedded_note(content: &String) -> (r: Option<Event>)
    ensures
        r is Some <==> parses_as_note(content@),
{
    match parse_note_json(content) {
        Some(ne) => Some(convert_event(&ne)),
        None => None,
    }
}

/// The three shapes a repost can take.
pub enum RepostShape {
    /// The content is a complete embedded note, handed back parsed.
    Embedded(Event),
    /// The content is empty: only a reference marker stands in for the
    /// reposted note.
    BareMention,
    /// The content is ordinary text that may carry mention references.
    PlainQuote,
}

/// Classify a repost by its content: a complete embedded note, an empty
/// bare mention, or a plain quote; exactly one of the three.
pub fn classify_repost(ev: &Event) -> (r: RepostShape)
    requires
        ev.kind is Repost,
    ensures
        parses_as_note(ev.content@) <==> r is Embedded,
        (!parses_as_note(ev.content@) && ev.content@.len() == 0) <==> r is BareMention,
        (!parses_as_note(ev.content@) && ev.content@.len() > 0) <==> r is PlainQuote,
{
    match parse_embedded_note(&ev.content) {
        Some(inner) => RepostShape::Embedded(inner),
        None => {
            if ev.content.as_str().unicode_len() == 0 {
                RepostShape::BareMention
            } else {
                RepostShape::PlainQuote
            }
        },
    }
}

/// Repost classification is total and exclusive: whatever the content
/// string, exactly one of the three shapes describes it.
pub proof fn lemma_repost_classification_total(c: Seq<char>)
    ensures
        parses_as_note(c) || (!parses_as_note(c) && c.len() == 0) || (!parses_as_note(c)
            && c.len() > 0),
        parses_as_note(c) ==> !(!parses_as_note(c) && c.len() == 0) && !(!parses_as_note(c)
            && c.len() > 0),
        (!parses_as_note(c) && c.len() == 0) ==> !(!parses_as_note(c) && c.len() > 0),
{
}

} // verus!
