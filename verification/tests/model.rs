use notefeed::indent_px;
use notefeed::reactions::{tally_display, ReactionCount};
use notefeed::store::{Deletion, ReactionEntry, Store};
use notefeed::types::{Event, EventKind, Id, Person, PubKey, Settings, Tag};
use notefeed::visibility::should_render;

fn id(s: &str) -> Id {
    Id { hex: s.to_string() }
}

fn pk(s: &str) -> PubKey {
    PubKey { hex: s.to_string() }
}

fn event(idhex: &str, kind: EventKind, content: &str, tags: Vec<Tag>) -> Event {
    Event {
        id: id(idhex),
        pubkey: pk("aaaaaaaaaaaaaaaaaaaaaaaaaaaaaaaaaaaaaaaaaaaaaaaaaaaaaaaaaaaaaaaa"),
        kind,
        created_at: 1000,
        content: content.to_string(),
        tags,
    }
}

fn settings_all() -> Settings {
    Settings { reposts: true, direct_messages: true, reactions: true }
}

#[test]
fn indent_starts_at_zero_and_grows() {
    assert_eq!(indent_px(0), 0);
    let mut last = 0;
    for d in 0..2000u32 {
        let px = indent_px(d);
        assert!(px >= last);
        assert!(px <= 1000);
        last = px;
    }
    assert!(indent_px(1) > 0);
    assert!(indent_px(100000) <= 1000);
}

#[test]
fn kind_gate_follows_settings() {
    let all = settings_all();
    let none = Settings { reposts: false, direct_messages: false, reactions: false };
    assert!(should_render(&EventKind::TextNote, &all));
    assert!(should_render(&EventKind::TextNote, &none));
    assert!(should_render(&EventKind::Repost, &all));
    assert!(!should_render(&EventKind::Repost, &none));
    assert!(should_render(&EventKind::EncryptedDirectMessage, &all));
    assert!(!should_render(&EventKind::EncryptedDirectMessage, &none));
    assert!(!should_render(&EventKind::Other(0), &all));
    assert!(!should_render(&EventKind::Other(7), &all));
}

#[test]
fn subject_and_content_warning_read_first_tag() {
    let ev = event(
        "bbbbbbbbbbbbbbbbbbbbbbbbbbbbbbbbbbbbbbbbbbbbbbbbbbbbbbbbbbbbbbbb",
        EventKind::TextNote,
        "hello",
        vec![
            Tag::Other,
            Tag::Subject("first".to_string()),
            Tag::Subject("second".to_string()),
            Tag::ContentWarning("nsfw".to_string()),
        ],
    );
    assert_eq!(ev.subject().unwrap(), "first");
    assert_eq!(ev.content_warning().unwrap(), "nsfw");
}

#[test]
fn replies_to_prefers_reply_then_root_then_last_unmarked() {
    let marked = |idhex: &str, m: &str| Tag::Event {
        id: id(idhex),
        marker: Some(m.to_string()),
    };
    let unmarked = |idhex: &str| Tag::Event { id: id(idhex), marker: None };
    let a = "aa00000000000000000000000000000000000000000000000000000000000000";
    let b = "bb00000000000000000000000000000000000000000000000000000000000000";
    let c = "cc00000000000000000000000000000000000000000000000000000000000000";
    let e = "ee00000000000000000000000000000000000000000000000000000000000000";

    let ev = event(e, EventKind::TextNote, "x", vec![marked(a, "root"), marked(b, "reply")]);
    assert_eq!(ev.replies_to().unwrap().hex, b);

    let ev = event(e, EventKind::TextNote, "x", vec![marked(a, "root"), unmarked(b)]);
    assert_eq!(ev.replies_to().unwrap().hex, a);

    let ev = event(e, EventKind::TextNote, "x", vec![unmarked(a), unmarked(b)]);
    assert_eq!(ev.replies_to().unwrap().hex, b);

    let ev = event(e, EventKind::TextNote, "x", vec![marked(c, "mention")]);
    assert!(ev.replies_to().is_none());

    let ev = event(e, EventKind::Repost, "x", vec![unmarked(a)]);
    assert!(ev.replies_to().is_none());

    let ev = event(e, EventKind::TextNote, "x", vec![]);
    assert!(ev.replies_to().is_none());
}

#[test]
fn pow_counts_leading_zero_bits_up_to_target() {
    let idhex = "00f0000000000000000000000000000000000000000000000000000000000000";
    let nonce = |t: Option<&str>| Tag::Nonce { target: t.map(|s| s.to_string()) };

    let ev = event(idhex, EventKind::TextNote, "x", vec![nonce(Some("10"))]);
    assert_eq!(ev.pow(), 8);

    let ev = event(idhex, EventKind::TextNote, "x", vec![nonce(Some("5"))]);
    assert_eq!(ev.pow(), 5);

    let ev = event(idhex, EventKind::TextNote, "x", vec![nonce(None)]);
    assert_eq!(ev.pow(), 0);

    let ev = event(idhex, EventKind::TextNote, "x", vec![]);
    assert_eq!(ev.pow(), 0);

    let ev = event(idhex, EventKind::TextNote, "x", vec![nonce(Some("banana"))]);
    assert_eq!(ev.pow(), 0);

    let ev = event(idhex, EventKind::TextNote, "x", vec![nonce(Some("+12"))]);
    assert_eq!(ev.pow(), 8);

    let ev = event(idhex, EventKind::TextNote, "x", vec![nonce(Some("999"))]);
    assert_eq!(ev.pow(), 0);
}

#[test]
fn reaction_tally_orders_default_first() {
    let counts = vec![
        ReactionCount { symbol: 'x', count: 2 },
        ReactionCount { symbol: '+', count: 5 },
        ReactionCount { symbol: 'y', count: 1 },
    ];
    let d = tally_display(&counts, true);
    assert!(d.icon_filled);
    assert_eq!(d.default_counts, vec![5]);
    assert_eq!(d.others.len(), 2);
    assert_eq!(d.others[0].symbol, 'x');
    assert_eq!(d.others[0].count, 2);
    assert_eq!(d.others[1].symbol, 'y');
    assert_eq!(d.others[1].count, 1);

    let d = tally_display(&vec![], false);
    assert!(!d.icon_filled);
    assert!(d.default_counts.is_empty());
    assert!(d.others.is_empty());
}

#[test]
fn store_lookups_and_replies_keep_order() {
    let a = "aa00000000000000000000000000000000000000000000000000000000000000";
    let b = "bb00000000000000000000000000000000000000000000000000000000000000";
    let c = "cc00000000000000000000000000000000000000000000000000000000000000";
    let reply = |own: &str, to: &str| {
        event(own, EventKind::TextNote, "re", vec![Tag::Event {
            id: id(to),
            marker: Some("reply".to_string()),
        }])
    };
    let store = Store {
        events: vec![event(a, EventKind::TextNote, "root", vec![]), reply(b, a), reply(c, a)],
        people: vec![Person {
            pubkey: pk("aaaaaaaaaaaaaaaaaaaaaaaaaaaaaaaaaaaaaaaaaaaaaaaaaaaaaaaaaaaaaaaa"),
            name: Some("alice".to_string()),
            muted: 0,
        }],
        deletions: vec![Deletion { id: id(b), reason: "gone".to_string() }],
        reactions: vec![ReactionEntry {
            id: id(a),
            counts: vec![ReactionCount { symbol: '+', count: 3 }],
            self_reacted: true,
        }],
    };
    assert!(store.get_event(&id(a)).is_some());
    assert!(store.get_event(&id("dd00000000000000000000000000000000000000000000000000000000000000")).is_none());

    let p = store.person_or_placeholder(&pk(
        "aaaaaaaaaaaaaaaaaaaaaaaaaaaaaaaaaaaaaaaaaaaaaaaaaaaaaaaaaaaaaaaa",
    ));
    assert_eq!(p.name.unwrap(), "alice");
    let missing = store.person_or_placeholder(&pk(
        "cccccccccccccccccccccccccccccccccccccccccccccccccccccccccccccccc",
    ));
    assert!(missing.name.is_none());
    assert_eq!(missing.muted, 0);

    assert_eq!(store.deletion_for(&id(b)).unwrap(), "gone");
    assert!(store.deletion_for(&id(a)).is_none());

    let (counts, selfr) = store.reactions_for(&id(a));
    assert_eq!(counts.len(), 1);
    assert!(selfr);
    let (counts, selfr) = store.reactions_for(&id(c));
    assert!(counts.is_empty());
    assert!(!selfr);

    let rs = store.replies(&id(a));
    assert_eq!(rs.len(), 2);
    assert_eq!(rs[0].hex, b);
    assert_eq!(rs[1].hex, c);
}
