use crate::delegation::{resolution_ok, spec_sig_verdict, DelegationClaim};
use crate::session::{opt_is, spec_has_id, Session};
use crate::store::{person_lookup_ok, spec_event_at, spec_replies, Store};
use crate::types::{Event, Id, Person, Settings};
use crate::view::{note_view, view_ok, NoteView};
use crate::visibility::spec_should_render;
use crate::{indent_px, spec_indent_px};
use vstd::prelude::*;

verus! {

/// What fills a feed slot.
pub enum RowContent {
    /// The author is muted: the slot is kept but the content is withheld.
    Muted,
    /// An ordinary note, ready to draw.
    Note(NoteView),
    /// The walk ran out of depth here and left a marker instead of
    /// recursing further.
    TooDeep,
}

/// One slot of the rendered feed.
pub struct Row {
    pub id: Id,
    pub depth: u32,
    pub indent: u32,
    pub depth_marker: bool,
    pub is_new: bool,
    pub content: RowContent,
}

/// The ids and depths a walk of one note emits: nothing for a note that
/// is absent or filtered out; otherwise the note itself and then, when
/// threading into replies, each reply's walk in order, one level deeper.
pub open spec fn spec_walk(
    store: Store,
    settings: Settings,
    id: Seq<char>,
    depth: nat,
    as_reply_to: bool,
    threaded: bool,
    fuel: nat,
) -> Seq<(Seq<char>, nat)>
    decreases fuel, 0int, 0int,
{
    if fuel == 0 {
        seq![(id, depth)]
    } else {
        match spec_event_at(store.events@, id) {
            None => Seq::empty(),
            Some(ev) => {
                if !spec_should_render(ev.kind, settings) {
                    Seq::empty()
                } else if threaded && !as_reply_to {
                    seq![(id, depth)] + spec_walk_list(
                        store,
                        settings,
                        spec_replies(store.events@, id),
                        depth + 1,
                        as_reply_to,
                        threaded,
                        (fuel - 1) as nat,
                    )
                } else {
                    seq![(id, depth)]
                }
            },
        }
    }
}

/// The walks of a list of notes, one after the other.
pub open spec fn spec_walk_list(
    store: Store,
    settings: Settings,
    ids: Seq<Seq<char>>,
    depth: nat,
    as_reply_to: bool,
    threaded: bool,
    fuel: nat,
) -> Seq<(Seq<char>, nat)>
    decreases fuel, 1int, ids.len(),
{
    if ids.len() == 0 {
        Seq::empty()
    } else {
        spec_walk(store, settings, ids[0], depth, as_reply_to, threaded, fuel) + spec_walk_list(
            store,
            settings,
            ids.skip(1),
            depth,
            as_reply_to,
            threaded,
            fuel,
        )
    }
}

proof fn lemma_walk_list_push(
    store: Store,
    settings: Settings,
    ids: Seq<Seq<char>>,
    x: Seq<char>,
    depth: nat,
    as_reply_to: bool,
    threaded: bool,
    fuel: nat,
)
    ensures
        spec_walk_list(store, settings, ids.push(x), depth, as_reply_to, threaded, fuel)
            == spec_walk_list(store, settings, ids, depth, as_reply_to, threaded, fuel)
            + spec_walk(store, settings, x, depth, as_reply_to, threaded, fuel),
    decreases ids.len(),
{
    if ids.len() == 0 {
        assert(ids.push(x).len() == 1);
        assert(ids.push(x)[0] == x);
        assert(ids.push(x).skip(1) =~= Seq::<Seq<char>>::empty());
        assert(spec_walk_list(
            store,
            settings,
            ids.push(x).skip(1),
            depth,
            as_reply_to,
            threaded,
            fuel,
        ) =~= Seq::<(Seq<char>, nat)>::empty());
        assert(spec_walk_list(store, settings, ids, depth, as_reply_to, threaded, fuel)
            =~= Seq::<(Seq<char>, nat)>::empty());
        assert(spec_walk_list(store, settings, ids.push(x), depth, as_reply_to, threaded, fuel)
            =~= spec_walk_list(store, settings, ids, depth, as_reply_to, threaded, fuel)
            + spec_walk(store, settings, x, depth, as_reply_to, threaded, fuel));
    } else {
        assert(ids.push(x)[0] == ids[0]);
        assert(ids.push(x).skip(1) =~= ids.skip(1).push(x));
        lemma_walk_list_push(store, settings, ids.skip(1), x, depth, as_reply_to, threaded, fuel);
        assert(spec_walk_list(store, settings, ids.push(x), depth, as_reply_to, threaded, fuel)
            =~= spec_walk_list(store, settings, ids, depth, as_reply_to, threaded, fuel)
            + spec_walk(store, settings, x, depth, as_reply_to, threaded, fuel));
    }
}

/// The id and depth a row stands for.
pub open spec fn row_pair(r: Row) -> (Seq<char>, nat) {
    (r.id@, r.depth as nat)
}

/// What every emitted row owes beyond its place in the order.
pub open spec fn row_ok(
    store: Store,
    session: Session,
    settings: Settings,
    threaded: bool,
    as_reply_to: bool,
    main_note: Option<Id>,
    r: Row,
) -> bool {
    &&& r.indent == spec_indent_px(r.depth as nat)
    &&& r.depth_marker == (threaded && r.depth > 0)
    &&& r.is_new == !spec_has_id(session.viewed@, r.id@)
    &&& match r.content {
        RowContent::TooDeep => true,
        RowContent::Muted => spec_event_at(store.events@, r.id@) matches Some(ev)
            && (exists|p: Person, c: DelegationClaim|
            resolution_ok(ev, spec_sig_verdict(ev), p.pubkey, c) && person_lookup_ok(
                store.people@,
                p.pubkey@,
                p,
            ) && p.muted > 0),
        RowContent::Note(v) => spec_event_at(store.events@, r.id@) matches Some(ev) && view_ok(
            store,
            session,
            settings,
            ev,
            opt_is(main_note, ev.id@),
            as_reply_to,
            true,
            v,
        ) && v.author.muted == 0,
    }
}

/// Walk one note and, when threading, its replies, depth first, appending
/// one row per renderable note: exactly the slots `spec_walk` names, in
/// that order. A note that is absent, or filtered out by kind and
/// settings, appends nothing at all. A muted author's note keeps its slot
/// but carries no content. When the depth budget runs out a marker row
/// stands where the walk stopped.
pub fn walk_note(
    store: &Store,
    settings: &Settings,
    session: &Session,
    id: &Id,
    depth: u32,
    as_reply_to: bool,
    threaded: bool,
    main_note: &Option<Id>,
    fuel: u32,
    out: &mut Vec<Row>,
)
    requires
        depth + fuel <= u32::MAX,
    ensures
        final(out)@.len() == old(out)@.len() + spec_walk(
            *store,
            *settings,
            id@,
            depth as nat,
            as_reply_to,
            threaded,
            fuel as nat,
        ).len(),
        forall|k: int| 0 <= k < old(out)@.len() ==> final(out)@[k] == old(out)@[k],
        forall|k: int|
            old(out)@.len() <= k < final(out)@.len() ==> row_pair(#[trigger] final(out)@[k])
                == spec_walk(
                *store,
                *settings,
                id@,
                depth as nat,
                as_reply_to,
                threaded,
                fuel as nat,
            )[k - old(out)@.len()],
        forall|k: int|
            old(out)@.len() <= k < final(out)@.len() ==> row_ok(
                *store,
                *session,
                *settings,
                threaded,
                as_reply_to,
                *main_note,
                #[trigger] final(out)@[k],
            ),
    decreases fuel,
{
    let ghost walk = spec_walk(
        *store,
        *settings,
        id@,
        depth as nat,
        as_reply_to,
        threaded,
        fuel as nat,
    );
    let indent = indent_px(depth);
    let is_new = !session.is_viewed(id);
    if fuel == 0 {
        out.push(
            Row {
                id: id.clone_id(),
                depth,
                indent,
                depth_marker: threaded && depth > 0,
                is_new,
                content: RowContent::TooDeep,
            },
        );
        return ;
    }
    let ev = match store.get_event(id) {
        Some(e) => e,
        None => {
            return ;
        },
    };
    if !crate::visibility::should_render(&ev.kind, settings) {
        return ;
    }
    let is_main = match main_note {
        Some(m) => m.same(&ev.id),
        None => false,
    };
    let resolved = crate::delegation::resolve(ev);
    let author_key = resolved.0;
    let ghost claim = resolved.1;
    let author = store.person_or_placeholder(&author_key);
    let content = if author.muted > 0 {
        proof {
            assert(resolution_ok(*ev, spec_sig_verdict(*ev), author.pubkey, claim));
            assert(exists|p: Person, c: DelegationClaim|
                resolution_ok(*ev, spec_sig_verdict(*ev), p.pubkey, c) && person_lookup_ok(
                    store.people@,
                    p.pubkey@,
                    p,
                ) && p.muted > 0) by {
                assert(resolution_ok(*ev, spec_sig_verdict(*ev), author.pubkey, claim)
                    && person_lookup_ok(store.people@, author.pubkey@, author) && author.muted
                    > 0);
            }
        }
        RowContent::Muted
    } else {
        RowContent::Note(note_view(store, session, settings, ev, is_main, as_reply_to, true))
    };
    out.push(
        Row {
            id: id.clone_id(),
            depth,
            indent,
            depth_marker: threaded && depth > 0,
            is_new,
            content,
        },
    );
    if threaded && !as_reply_to {
        let replies = store.replies(id);
        let ghost rep_views = replies@.map_values(|x: Id| x@);
        proof {
            assert(rep_views == spec_replies(store.events@, id@));
        }
        let ghost base = out@;
        let n = replies.len();
        proof {
            assert(rep_views.take(0) =~= Seq::<Seq<char>>::empty());
            assert(spec_walk_list(
                *store,
                *settings,
                rep_views.take(0),
                depth as nat + 1,
                as_reply_to,
                threaded,
                (fuel - 1) as nat,
            ) =~= Seq::<(Seq<char>, nat)>::empty());
        }
        for j in 0..n
            invariant
                n == replies.len(),
                rep_views == replies@.map_values(|x: Id| x@),
                rep_views == spec_replies(store.events@, id@),
                depth + fuel <= u32::MAX,
                fuel >= 1,
                walk == seq![(id@, depth as nat)] + spec_walk_list(
                    *store,
                    *settings,
                    rep_views,
                    depth as nat + 1,
                    as_reply_to,
                    threaded,
                    (fuel - 1) as nat,
                ),
                base.len() == old(out)@.len() + 1,
                forall|k: int| 0 <= k < old(out)@.len() ==> base[k] == old(out)@[k],
                row_pair(base[old(out)@.len() as int]) == (id@, depth as nat),
                row_ok(
                    *store,
                    *session,
                    *settings,
                    threaded,
                    as_reply_to,
                    *main_note,
                    base[old(out)@.len() as int],
                ),
                out@.len() == base.len() + spec_walk_list(
                    *store,
                    *settings,
                    rep_views.take(j as int),
                    depth as nat + 1,
                    as_reply_to,
                    threaded,
                    (fuel - 1) as nat,
                ).len(),
                forall|k: int| 0 <= k < base.len() ==> out@[k] == base[k],
                forall|k: int|
                    base.len() <= k < out@.len() ==> row_pair(#[trigger] out@[k])
                        == spec_walk_list(
                        *store,
                        *settings,
                        rep_views.take(j as int),
                        depth as nat + 1,
                        as_reply_to,
                        threaded,
                        (fuel - 1) as nat,
                    )[k - base.len()],
                forall|k: int|
                    base.len() <= k < out@.len() ==> row_ok(
                        *store,
                        *session,
                        *settings,
                        threaded,
                        as_reply_to,
                        *main_note,
                        #[trigger] out@[k],
                    ),
        {
            proof {
                assert(rep_views.take(j + 1) =~= rep_views.take(j as int).push(
                    rep_views[j as int],
                ));
                lemma_walk_list_push(
                    *store,
                    *settings,
                    rep_views.take(j as int),
                    rep_views[j as int],
                    depth as nat + 1,
                    as_reply_to,
                    threaded,
                    (fuel - 1) as nat,
                );
            }
            walk_note(
                store,
                settings,
                session,
                &replies[j],
                depth + 1,
                as_reply_to,
                threaded,
                main_note,
                fuel - 1,
                out,
            );
        }
        proof {
            assert(rep_views.take(n as int) =~= rep_views);
            assert forall|k: int| 0 <= k < old(out)@.len() implies out@[k] == old(out)@[k] by {
                assert(out@[k] == base[k]);
                assert(base[k] == old(out)@[k]);
            }
        }
    }
}

} // verus!
