use crate::tags::{spec_delegation_tag, DelegTag};
use crate::types::{Event, EventKind, PubKey, Tag};
use vstd::prelude::*;

verus! {

/// Why a delegation tag failed to validate.
#[derive(Clone, Copy, PartialEq, Eq, Structural)]
pub enum InvalidReason {
    /// The signature (or a key or signature that would not even parse)
    /// does not witness the delegation token.
    BadSignature,
    /// The delegation does not cover this event's kind.
    WrongKind,
    /// The event was created before the delegation started.
    TooEarly,
    /// The event was created after the delegation ended.
    TooLate,
}

/// What an event's delegation tag, if any, amounts to.
pub enum DelegationClaim {
    /// The event carries no delegation tag.
    NotDelegated,
    /// The tag validates; the key is the delegator's.
    DelegatedBy(PubKey),
    /// The tag is present but does not validate.
    Invalid(InvalidReason),
}

/// The numeric protocol code of an event kind.
pub open spec fn spec_kind_num(k: EventKind) -> u64 {
    match k {
        EventKind::TextNote => 1,
        EventKind::EncryptedDirectMessage => 4,
        EventKind::Repost => 6,
        EventKind::Other(n) => n,
    }
}

/// The numeric protocol code of an event kind.
pub fn kind_num(k: &EventKind) -> (r: u64)
    ensures
        r == spec_kind_num(*k),
{
    match k {
        EventKind::TextNote => 1,
        EventKind::EncryptedDirectMessage => 4,
        EventKind::Repost => 6,
        EventKind::Other(n) => *n,
    }
}

/// Whether `sig_hex` is `delegator_hex`'s valid signature over the
/// delegation token that names `delegatee_hex` and these conditions.
pub uninterp spec fn delegation_sig_valid(
    delegator_hex: Seq<char>,
    delegatee_hex: Seq<char>,
    cond_kind: Option<u64>,
    cond_created_after: Option<i64>,
    cond_created_before: Option<i64>,
    sig_hex: Seq<char>,
) -> bool;

/// Relies on nostr_types::DelegationConditions::verify_signature: whether
/// `sig_hex` is `d.delegator_hex`'s Schnorr signature over the delegation
/// token naming `delegatee_hex` and `d`'s conditions. A key or signature
/// that does not parse as hex verifies as false, the same way
/// nostr_types::Event::delegation treats it.
#[verifier::external_body]
fn verify_delegation_sig(d: &DelegTag, delegatee_hex: &String) -> (r: bool)
    ensures
        r == delegation_sig_valid(
            d.delegator_hex@,
            delegatee_hex@,
            d.cond_kind,
            d.cond_created_after,
            d.cond_created_before,
            d.sig_hex@,
        ),
{
    let conditions = nostr_types::DelegationConditions {
        kind: d.cond_kind.map(nostr_types::EventKind::from),
        created_after: d.cond_created_after.map(nostr_types::Unixtime),
        created_before: d.cond_created_before.map(nostr_types::Unixtime),
    };
    let delegator = match nostr_types::PublicKey::try_from_hex_string(&d.delegator_hex) { Ok(k) => k, Err(_) => return false };
    let delegatee = match nostr_types::PublicKey::try_from_hex_string(delegatee_hex) { Ok(k) => k, Err(_) => return false };
    let sig = match nostr_types::Signature::try_from_hex_string(&d.sig_hex) { Ok(s) => s, Err(_) => return false };
    conditions.verify_signature(&delegator, &delegatee, sig).is_ok()
}

/// The delegator key a delegation tag names.
pub open spec fn spec_delegator_hex(t: Tag) -> Seq<char> {
    match t {
        Tag::Delegation { delegator_hex, .. } => delegator_hex@,
        _ => Seq::empty(),
    }
}

/// What the signature oracle says of a delegation tag on this delegatee.
pub open spec fn spec_tag_sig_valid(t: Tag, delegatee_hex: Seq<char>) -> bool {
    match t {
        Tag::Delegation {
            delegator_hex,
            cond_kind,
            cond_created_after,
            cond_created_before,
            sig_hex,
        } => delegation_sig_valid(
            delegator_hex@,
            delegatee_hex,
            cond_kind,
            cond_created_after,
            cond_created_before,
            sig_hex@,
        ),
        _ => false,
    }
}

/// What the signature oracle says of this event's delegation tag; an
/// event without one has nothing to verify.
pub open spec fn spec_sig_verdict(ev: Event) -> bool {
    match spec_delegation_tag(ev.tags@) {
        Some(t) => spec_tag_sig_valid(t, ev.pubkey@),
        None => false,
    }
}

/// Why a delegation tag fails on this event, given the signature verdict;
/// `None` means the tag validates. The signature is judged first, then the
/// kind condition, then the two time conditions.
pub open spec fn spec_deleg_reason(
    t: Tag,
    kind_num: u64,
    created_at: i64,
    sig_ok: bool,
) -> Option<InvalidReason> {
    match t {
        Tag::Delegation { cond_kind, cond_created_after, cond_created_before, .. } => {
            if !sig_ok {
                Some(InvalidReason::BadSignature)
            } else if cond_kind matches Some(k) && k != kind_num {
                Some(InvalidReason::WrongKind)
            } else if cond_created_after matches Some(t0) && created_at < t0 {
                Some(InvalidReason::TooEarly)
            } else if cond_created_before matches Some(t1) && created_at > t1 {
                Some(InvalidReason::TooLate)
            } else {
                None
            }
        },
        _ => None,
    }
}

/// What `resolve` owes: the effective author and the claim, as a relation
/// between the event, the signature verdict, and the result.
pub open spec fn resolution_ok(
    ev: Event,
    sig_ok: bool,
    author: PubKey,
    claim: DelegationClaim,
) -> bool {
    match spec_delegation_tag(ev.tags@) {
        None => claim is NotDelegated && author@ == ev.pubkey@,
        Some(t) => match spec_deleg_reason(t, spec_kind_num(ev.kind), ev.created_at, sig_ok) {
            Some(why) => {
                &&& claim matches DelegationClaim::Invalid(w) && w == why
                &&& author@ == ev.pubkey@
            },
            None => {
                &&& claim matches DelegationClaim::DelegatedBy(pk) && pk@ == spec_delegator_hex(t)
                &&& author@ == spec_delegator_hex(t)
            },
        },
    }
}

/// Resolve the effective author, taking the signature verdict as an
/// argument: the delegation tag's conditions are judged here, for every
/// value the verifier could hand back.
pub fn resolve_with_sig(ev: &Event, sig_ok: bool) -> (r: (PubKey, DelegationClaim))
    ensures
        resolution_ok(*ev, sig_ok, r.0, r.1),
{
    match ev.delegation_tag() {
        None => (ev.pubkey.clone_key(), DelegationClaim::NotDelegated),
        Some(d) => {
            if !sig_ok {
                (ev.pubkey.clone_key(), DelegationClaim::Invalid(InvalidReason::BadSignature))
            } else if d.cond_kind.is_some() && d.cond_kind.unwrap() != kind_num(&ev.kind) {
                (ev.pubkey.clone_key(), DelegationClaim::Invalid(InvalidReason::WrongKind))
            } else if d.cond_created_after.is_some() && ev.created_at < d.cond_created_after.unwrap() {
                (ev.pubkey.clone_key(), DelegationClaim::Invalid(InvalidReason::TooEarly))
            } else if d.cond_created_before.is_some() && ev.created_at > d.cond_created_before.unwrap() {
                (ev.pubkey.clone_key(), DelegationClaim::Invalid(InvalidReason::TooLate))
            } else {
                (PubKey { hex: d.delegator_hex.clone() }, DelegationClaim::DelegatedBy(PubKey { hex: d.delegator_hex }))
            }
        },
    }
}

/// Resolve the effective author of an event under the delegation rules:
/// a valid delegation tag hands authorship to the delegator; an invalid
/// one is reported but leaves authorship with the signer.
pub fn resolve(ev: &Event) -> (r: (PubKey, DelegationClaim))
    ensures
        resolution_ok(*ev, spec_sig_verdict(*ev), r.0, r.1),
{
    match ev.delegation_tag() {
        None => (ev.pubkey.clone_key(), DelegationClaim::NotDelegated),
        Some(d) => {
            let sig_ok = verify_delegation_sig(&d, &ev.pubkey.hex);
            resolve_with_sig(ev, sig_ok)
        },
    }
}

} // verus!
