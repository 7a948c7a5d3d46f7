use nostr_types::{PreEvent, PrivateKey, Unixtime};
use notefeed::repost::{classify_repost, RepostShape};
use notefeed::session::Session;
use notefeed::store::Store;
use notefeed::types::{Event, EventKind, Id, Person, PubKey, Settings, Tag};
use notefeed::view::{note_view, Body};
use notefeed::walk::{walk_note, Row, RowContent};

fn id(s: &str) -> Id {
    Id { hex: s.to_string() }
}

fn pk(s: &str) -> PubKey {
    PubKey { hex: s.to_string() }
}

fn event(idhex: &str, kind: EventKind, content: &str, tags: Vec<Tag>) -> Event {
    Event {
        id: id(idhex),
        pubkey: pk("aaaaaaaaaaaaaaaaaaaaaaaaaaaaaaaaaaaaaaaaaaaaaaaaaaaaaaaaaaaaaaaa"),
        kind,
        created_at: 1000,
        content: content.to_string(),
        tags,
    }
}

fn settings_all() -> Settings {
    Settings { reposts: true, direct_messages: true, reactions: true }
}

fn store_of(events: Vec<Event>) -> Store {
    Store { events, people: vec![], deletions: vec![], reactions: vec![] }
}

fn walk(store: &Store, root: &str, threaded: bool) -> Vec<Row> {
    let mut out = Vec::new();
    walk_note(
        store,
        &settings_all(),
        &Session::new(),
        &id(root),
        0,
        false,
        threaded,
        &None,
        16,
        &mut out,
    );
    out
}

fn embedded_json(content: &str, kind: nostr_types::EventKind) -> String {
    let signer = PrivateKey::generate();
    let pre = PreEvent {
        pubkey: signer.public_key(),
        created_at: Unixtime(900),
        kind,
        tags: vec![],
        content: content.to_string(),
        ots: None,
    };
    let inner = nostr_types::Event::new(pre, &signer).unwrap();
    serde_json::to_string(&inner).unwrap()
}

const A: &str = "aa00000000000000000000000000000000000000000000000000000000000000";
const B: &str = "bb00000000000000000000000000000000000000000000000000000000000000";
const C: &str = "cc00000000000000000000000000000000000000000000000000000000000000";
const D: &str = "dd00000000000000000000000000000000000000000000000000000000000000";

fn reply(own: &str, to: &str) -> Event {
    event(own, EventKind::TextNote, "re", vec![Tag::Event {
        id: id(to),
        marker: Some("reply".to_string()),
    }])
}

#[test]
fn thread_walk_is_depth_first_in_reply_order() {
    let store = store_of(vec![
        event(A, EventKind::TextNote, "root", vec![]),
        reply(B, A),
        reply(C, A),
        reply(D, B),
    ]);
    let rows = walk(&store, A, true);
    let ids: Vec<&str> = rows.iter().map(|r| r.id.hex.as_str()).collect();
    let depths: Vec<u32> = rows.iter().map(|r| r.depth).collect();
    assert_eq!(ids, vec![A, B, D, C]);
    assert_eq!(depths, vec![0, 1, 2, 1]);
    assert!(!rows[0].depth_marker);
    assert!(rows[1].depth_marker);
    assert_eq!(rows[0].indent, 0);
    assert!(rows[1].indent > 0);
    assert!(rows.iter().all(|r| matches!(r.content, RowContent::Note(_))));
}

#[test]
fn unthreaded_walk_stops_at_the_note() {
    let store = store_of(vec![event(A, EventKind::TextNote, "root", vec![]), reply(B, A)]);
    let rows = walk(&store, A, false);
    assert_eq!(rows.len(), 1);
    assert_eq!(rows[0].id.hex, A);
}

#[test]
fn filtered_and_missing_notes_take_no_slot() {
    let store = store_of(vec![
        event(A, EventKind::Other(30023), "x", vec![]),
        event(B, EventKind::Repost, "", vec![]),
        event(C, EventKind::EncryptedDirectMessage, "x", vec![]),
    ]);
    assert!(walk(&store, A, true).is_empty());
    assert!(walk(&store, D, true).is_empty());

    let mut out = Vec::new();
    let off = Settings { reposts: false, direct_messages: false, reactions: false };
    walk_note(&store, &off, &Session::new(), &id(B), 0, false, true, &None, 16, &mut out);
    walk_note(&store, &off, &Session::new(), &id(C), 0, false, true, &None, 16, &mut out);
    assert!(out.is_empty());
}

#[test]
fn muted_author_keeps_slot_without_content() {
    let mut store = store_of(vec![event(A, EventKind::TextNote, "root", vec![])]);
    store.people.push(Person {
        pubkey: pk("aaaaaaaaaaaaaaaaaaaaaaaaaaaaaaaaaaaaaaaaaaaaaaaaaaaaaaaaaaaaaaaa"),
        name: None,
        muted: 2,
    });
    let rows = walk(&store, A, true);
    assert_eq!(rows.len(), 1);
    assert!(matches!(rows[0].content, RowContent::Muted));
}

#[test]
fn depth_budget_leaves_a_marker() {
    let store = store_of(vec![event(A, EventKind::TextNote, "root", vec![])]);
    let mut out = Vec::new();
    walk_note(&store, &settings_all(), &Session::new(), &id(A), 0, false, true, &None, 0, &mut out);
    assert_eq!(out.len(), 1);
    assert!(matches!(out[0].content, RowContent::TooDeep));
}

#[test]
fn repost_with_empty_content_is_a_bare_mention() {
    let store = store_of(vec![event(A, EventKind::Repost, "", vec![])]);
    let rows = walk(&store, A, true);
    assert_eq!(rows.len(), 1);
    match &rows[0].content {
        RowContent::Note(v) => assert!(matches!(v.body, Body::BareMention)),
        _ => panic!("expected a note"),
    }
}

#[test]
fn repost_classification_is_total() {
    let embedded = embedded_json("inner text", nostr_types::EventKind::TextNote);
    let ev = event(A, EventKind::Repost, &embedded, vec![]);
    match classify_repost(&ev) {
        RepostShape::Embedded(inner) => {
            assert_eq!(inner.content, "inner text");
            assert!(matches!(inner.kind, EventKind::TextNote));
            assert_eq!(inner.created_at, 900);
        },
        _ => panic!("expected an embedded note"),
    }

    let ev = event(A, EventKind::Repost, "", vec![]);
    assert!(matches!(classify_repost(&ev), RepostShape::BareMention));

    let ev = event(A, EventKind::Repost, "just words", vec![]);
    assert!(matches!(classify_repost(&ev), RepostShape::PlainQuote));
}

#[test]
fn embedded_reposts_unwrap_exactly_one_level() {
    let innermost = embedded_json("deepest", nostr_types::EventKind::TextNote);
    let middle = embedded_json(&innermost, nostr_types::EventKind::Repost);
    let ev = event(A, EventKind::Repost, &middle, vec![]);
    let store = store_of(vec![]);
    let v = note_view(&store, &Session::new(), &settings_all(), &ev, false, false, true);
    match v.body {
        Body::Embedded(inner) => {
            assert!(matches!(inner.kind, EventKind::Repost));
            assert!(!matches!(inner.body, Body::Embedded(_)));
            assert!(matches!(inner.body, Body::Plain));
            assert!(!inner.is_main);
        },
        _ => panic!("expected an embedded note"),
    }
}

#[test]
fn content_warning_gates_until_approved_and_clears_height() {
    let ev = event(A, EventKind::TextNote, "spicy", vec![Tag::ContentWarning(
        "spoilers".to_string(),
    )]);
    let store = store_of(vec![]);
    let settings = settings_all();
    let mut session = Session::new();
    session.record_height(&id(A), 640);
    assert_eq!(session.height_of(&id(A)), Some(640));

    let v = note_view(&store, &session, &settings, &ev, false, false, true);
    match v.body {
        Body::Gated(w) => assert_eq!(w, "spoilers"),
        _ => panic!("expected the warning gate"),
    }

    session.approve(&id(A));
    assert_eq!(session.height_of(&id(A)), None);

    let v = note_view(&store, &session, &settings, &ev, false, false, true);
    assert!(matches!(v.body, Body::Plain));
}

#[test]
fn raw_view_takes_precedence_over_the_gate() {
    let ev = event(A, EventKind::TextNote, "spicy", vec![Tag::ContentWarning(
        "spoilers".to_string(),
    )]);
    let store = store_of(vec![]);
    let mut session = Session::new();
    session.toggle_raw(&id(A));
    let v = note_view(&store, &session, &settings_all(), &ev, false, false, true);
    assert!(matches!(v.body, Body::Raw));

    session.toggle_qr(&id(A));
    let v = note_view(&store, &session, &settings_all(), &ev, false, false, true);
    assert!(matches!(v.body, Body::Qr));
}

#[test]
fn reactions_shown_only_under_the_action_row() {
    let ev = event(A, EventKind::TextNote, "x", vec![]);
    let store = store_of(vec![]);
    let v = note_view(&store, &Session::new(), &settings_all(), &ev, false, false, true);
    assert!(v.reactions.is_some());
    assert!(v.show_actions);

    let v = note_view(&store, &Session::new(), &settings_all(), &ev, false, true, true);
    assert!(v.reactions.is_none());
    assert!(!v.show_actions);

    let off = Settings { reposts: true, direct_messages: true, reactions: false };
    let v = note_view(&store, &Session::new(), &off, &ev, false, false, true);
    assert!(v.reactions.is_none());
}
