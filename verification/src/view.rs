use crate::delegation::{resolution_ok, resolve, spec_sig_verdict, DelegationClaim};
use crate::pow::spec_pow;
use crate::reactions::{spec_default_counts, spec_other_reactions, tally_display, ReactionDisplay};
use crate::repost::{classify_repost, parses_as_note, RepostShape};
use crate::session::{opt_is, spec_has_id, Session};
use crate::store::{person_lookup_ok, spec_deletion_for, spec_reactions_for, Store};
use crate::tags::{spec_content_warning, spec_reply_target, spec_subject};
use crate::types::{Event, EventKind, Id, Person, Settings};
use vstd::prelude::*;

verus! {

/// What stands in a note's content slot.
pub enum Body {
    /// The full structured event is shown instead of the content.
    Raw,
    /// The trimmed content is shown encoded as a code image.
    Qr,
    /// Only the warning text and a reveal action are shown.
    Gated(String),
    /// A repost with a complete embedded note, rendered nested.
    Embedded(Box<NoteView>),
    /// A repost with empty content: a synthetic reference marker stands
    /// in for the absent pointer.
    BareMention,
    /// Ordinary content, possibly with mention references.
    Plain,
}

/// Everything the surrounding page needs to draw one note.
pub struct NoteView {
    pub id: Id,
    pub kind: EventKind,
    pub author: Person,
    pub claim: DelegationClaim,
    pub reply_to: Option<Id>,
    pub subject: Option<String>,
    pub pow: u64,
    pub deletion: Option<String>,
    pub is_main: bool,
    pub show_actions: bool,
    pub body: Body,
    pub reactions: Option<ReactionDisplay>,
}

/// What the content slot owes, in order of precedence: raw view, then the
/// code image, then the content-warning gate, then repost unwrapping (at
/// most one level), then plain content.
pub open spec fn body_ok(
    store: Store,
    session: Session,
    ev: Event,
    allow_embed: bool,
    body: Body,
) -> bool {
    if opt_is(session.render_raw, ev.id@) {
        body is Raw
    } else if opt_is(session.render_qr, ev.id@) {
        body is Qr
    } else if spec_content_warning(ev.tags@) is Some && !spec_has_id(session.approved@, ev.id@) {
        body matches Body::Gated(w) && Some(w@) == spec_content_warning(ev.tags@)
    } else if ev.kind is Repost && allow_embed && parses_as_note(ev.content@) {
        body matches Body::Embedded(inner) && (*inner).is_main == false && (*inner).show_actions
            == true && !((*inner).body is Embedded)
    } else if ev.kind is Repost && ev.content@.len() == 0 {
        body is BareMention
    } else {
        body is Plain
    }
}

/// What the reactions slot owes: shown only under the action row and only
/// when reactions are switched on, and then exactly the aggregator's data.
pub open spec fn reactions_ok(
    store: Store,
    settings: Settings,
    ev: Event,
    as_reply_to: bool,
    r: Option<ReactionDisplay>,
) -> bool {
    if settings.reactions && !as_reply_to {
        r matches Some(d) && (match spec_reactions_for(store.reactions@, ev.id@) {
            Some(p) => d.icon_filled == p.1 && d.default_counts@ == spec_default_counts(p.0)
                && d.others@ == spec_other_reactions(p.0),
            None => d.icon_filled == false && d.default_counts@.len() == 0 && d.others@.len()
                == 0,
        })
    } else {
        r is None
    }
}

/// Everything `note_view` owes for one note.
pub open spec fn view_ok(
    store: Store,
    session: Session,
    settings: Settings,
    ev: Event,
    is_main: bool,
    as_reply_to: bool,
    allow_embed: bool,
    v: NoteView,
) -> bool {
    &&& v.id@ == ev.id@
    &&& v.kind == ev.kind
    &&& resolution_ok(ev, spec_sig_verdict(ev), v.author.pubkey, v.claim)
    &&& person_lookup_ok(store.people@, v.author.pubkey@, v.author)
    &&& (v.reply_to is Some <==> spec_reply_target(ev) is Some)
    &&& (v.reply_to matches Some(i) ==> spec_reply_target(ev) == Some(i@))
    &&& (v.subject is Some <==> spec_subject(ev.tags@) is Some)
    &&& (v.subject matches Some(s) ==> spec_subject(ev.tags@) == Some(s@))
    &&& v.pow == spec_pow(ev)
    &&& (v.deletion is Some <==> spec_deletion_for(store.deletions@, ev.id@) is Some)
    &&& (v.deletion matches Some(s) ==> spec_deletion_for(store.deletions@, ev.id@) == Some(s@))
    &&& v.is_main == is_main
    &&& v.show_actions == !as_reply_to
    &&& body_ok(store, session, ev, allow_embed, v.body)
    &&& reactions_ok(store, settings, ev, as_reply_to, v.reactions)
}

/// Build everything needed to draw one note: the effective author under
/// the delegation rules with that author's profile, the reply reference,
/// the subject, the proof of work, the deletion mark, the content slot in
/// its precedence order, and the reaction display. An embedded repost is
/// rendered nested exactly once: the nested note is built with embedding
/// disallowed, so a chained repost inside it stays a plain quote.
pub fn note_view(
    store: &Store,
    session: &Session,
    settings: &Settings,
    ev: &Event,
    is_main: bool,
    as_reply_to: bool,
    allow_embed: bool,
) -> (v: NoteView)
    ensures
        view_ok(*store, *session, *settings, *ev, is_main, as_reply_to, allow_embed, v),
    decreases (if allow_embed {
        1int
    } else {
        0int
    }),
{
    let (author_key, claim) = resolve(ev);
    let author = store.person_or_placeholder(&author_key);
    let reply_to = ev.replies_to();
    let subject = ev.subject();
    let pow = ev.pow();
    let deletion = store.deletion_for(&ev.id);

    let raw_here = match &session.render_raw {
        Some(r) => r.same(&ev.id),
        None => false,
    };
    let qr_here = match &session.render_qr {
        Some(q) => q.same(&ev.id),
        None => false,
    };
    let warning = ev.content_warning();

    let body: Body = if raw_here {
        Body::Raw
    } else if qr_here {
        Body::Qr
    } else if warning.is_some() && !session.is_approved(&ev.id) {
        Body::Gated(warning.unwrap())
    } else if matches!(ev.kind, EventKind::Repost) && allow_embed {
        match classify_repost(ev) {
            RepostShape::Embedded(inner) => {
                let nested = note_view(store, session, settings, &inner, false, false, false);
                Body::Embedded(Box::new(nested))
            },
            RepostShape::BareMention => Body::BareMention,
            RepostShape::PlainQuote => Body::Plain,
        }
    } else if matches!(ev.kind, EventKind::Repost) && ev.content.as_str().is_empty() {
        Body::BareMention
    } else {
        Body::Plain
    };

    let reactions: Option<ReactionDisplay> = if settings.reactions && !as_reply_to {
        let (counts, self_reacted) = store.reactions_for(&ev.id);
        Some(tally_display(&counts, self_reacted))
    } else {
        None
    };

    NoteView {
        id: ev.id.clone_id(),
        kind: ev.kind,
        author,
        claim,
        reply_to,
        subject,
        pow,
        deletion,
        is_main,
        show_actions: !as_reply_to,
        body,
        reactions,
    }
}

} // verus!
