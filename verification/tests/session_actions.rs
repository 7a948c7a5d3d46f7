use notefeed::actions::{action_available, dispatch, Action, Effect};
use notefeed::session::Session;
use notefeed::types::{Event, EventKind, Id, PubKey};

fn id(s: &str) -> Id {
    Id { hex: s.to_string() }
}

fn event(idhex: &str, kind: EventKind, content: &str) -> Event {
    Event {
        id: id(idhex),
        pubkey: PubKey {
            hex: "aaaaaaaaaaaaaaaaaaaaaaaaaaaaaaaaaaaaaaaaaaaaaaaaaaaaaaaaaaaaaaaa".to_string(),
        },
        kind,
        created_at: 1000,
        content: content.to_string(),
        tags: vec![],
    }
}

const A: &str = "aa00000000000000000000000000000000000000000000000000000000000000";
const B: &str = "bb00000000000000000000000000000000000000000000000000000000000000";

#[test]
fn viewed_latch_sets_on_quiet_hover_and_never_clears() {
    let mut s = Session::new();
    s.note_hovered(&id(A), true);
    assert!(!s.is_viewed(&id(A)));
    s.note_hovered(&id(A), false);
    assert!(s.is_viewed(&id(A)));
    s.note_hovered(&id(B), false);
    s.note_hovered(&id(A), true);
    s.dismiss(&id(A));
    s.toggle_raw(&id(A));
    s.toggle_qr(&id(A));
    s.record_height(&id(A), 10);
    s.clear_height(&id(A));
    assert!(s.is_viewed(&id(A)));
    assert!(s.is_viewed(&id(B)));
}

#[test]
fn approval_latch_is_one_way() {
    let mut s = Session::new();
    assert!(!s.is_approved(&id(A)));
    s.approve(&id(A));
    assert!(s.is_approved(&id(A)));
    s.approve(&id(A));
    s.note_hovered(&id(A), false);
    s.toggle_raw(&id(A));
    assert!(s.is_approved(&id(A)));
    assert!(!s.is_approved(&id(B)));
}

#[test]
fn quote_separates_with_exactly_one_space() {
    let mut s = Session::new();
    s.quote_append("note1ref");
    assert_eq!(s.draft, "note1ref");

    let mut s = Session::new();
    s.draft = "draft".to_string();
    s.quote_append("note1ref");
    assert_eq!(s.draft, "draft note1ref");

    let mut s = Session::new();
    s.draft = "draft ".to_string();
    s.quote_append("note1ref");
    assert_eq!(s.draft, "draft note1ref");
}

#[test]
fn render_modes_displace_each_other_per_note() {
    let mut s = Session::new();
    s.toggle_raw(&id(A));
    assert_eq!(s.render_raw.as_ref().unwrap().hex, A);
    s.toggle_qr(&id(A));
    assert_eq!(s.render_qr.as_ref().unwrap().hex, A);
    assert!(s.render_raw.is_none());
    s.toggle_qr(&id(A));
    assert!(s.render_qr.is_none());
}

#[test]
fn heights_are_per_note_and_replaceable() {
    let mut s = Session::new();
    assert_eq!(s.height_of(&id(A)), None);
    s.record_height(&id(A), 100);
    s.record_height(&id(B), 200);
    s.record_height(&id(A), 150);
    assert_eq!(s.height_of(&id(A)), Some(150));
    assert_eq!(s.height_of(&id(B)), Some(200));
    s.clear_height(&id(A));
    assert_eq!(s.height_of(&id(A)), None);
    assert_eq!(s.height_of(&id(B)), Some(200));
}

#[test]
fn like_sends_and_copy_reads_the_note() {
    let ev = event(A, EventKind::TextNote, "hello");
    let mut s = Session::new();

    match dispatch(&mut s, &ev, &Action::Like) {
        Effect::SendLike { id, author } => {
            assert_eq!(id.hex, A);
            assert_eq!(author.hex, ev.pubkey.hex);
        },
        _ => panic!("expected a send"),
    }

    match dispatch(&mut s, &ev, &Action::CopyIdHex) {
        Effect::Clipboard(t) => assert_eq!(t, A),
        _ => panic!("expected a clipboard write"),
    }

    match dispatch(&mut s, &ev, &Action::CopyContents) {
        Effect::Clipboard(t) => assert_eq!(t, "hello"),
        _ => panic!("expected a clipboard write"),
    }

    s.toggle_raw(&id(A));
    match dispatch(&mut s, &ev, &Action::CopyContents) {
        Effect::ClipboardRawEvent(i) => assert_eq!(i.hex, A),
        _ => panic!("expected the raw event"),
    }

    match dispatch(&mut s, &ev, &Action::ViewThread) {
        Effect::ShowThread { id, referenced_by } => {
            assert_eq!(id.hex, A);
            assert_eq!(referenced_by.hex, A);
        },
        _ => panic!("expected a navigation"),
    }
}

#[test]
fn quote_action_appends_the_note_reference() {
    let ev = event(A, EventKind::TextNote, "hello");
    let expected = nostr_types::Id::try_from_hex_string(A)
        .unwrap()
        .try_as_bech32_string()
        .unwrap();
    let mut s = Session::new();
    assert!(matches!(dispatch(&mut s, &ev, &Action::Quote), Effect::Nothing));
    assert_eq!(s.draft, expected);
    assert!(matches!(dispatch(&mut s, &ev, &Action::Quote), Effect::Nothing));
    assert_eq!(s.draft, format!("{} {}", expected, expected));

    match dispatch(&mut s, &ev, &Action::CopyId) {
        Effect::Clipboard(t) => assert_eq!(t, expected),
        _ => panic!("expected a clipboard write"),
    }
}

#[test]
fn encoding_failure_fails_only_that_action() {
    let ev = event("zz", EventKind::TextNote, "hello");
    let mut s = Session::new();
    s.draft = "draft".to_string();
    assert!(matches!(dispatch(&mut s, &ev, &Action::Quote), Effect::EncodeFailed));
    assert_eq!(s.draft, "draft");
    assert!(matches!(dispatch(&mut s, &ev, &Action::CopyId), Effect::EncodeFailed));
}

#[test]
fn reply_dismiss_and_approve_update_the_session() {
    let ev = event(A, EventKind::TextNote, "hello");
    let mut s = Session::new();
    s.record_height(&id(A), 40);

    assert!(matches!(dispatch(&mut s, &ev, &Action::Reply), Effect::Nothing));
    assert_eq!(s.replying_to.as_ref().unwrap().hex, A);

    assert!(matches!(dispatch(&mut s, &ev, &Action::Dismiss), Effect::Nothing));
    assert_eq!(s.dismissed.len(), 1);
    assert_eq!(s.dismissed[0].hex, A);

    assert!(matches!(dispatch(&mut s, &ev, &Action::Approve), Effect::Nothing));
    assert!(s.is_approved(&id(A)));
    assert_eq!(s.height_of(&id(A)), None);
}

#[test]
fn toggling_views_through_gestures_displaces_the_other() {
    let ev = event(A, EventKind::TextNote, "hello");
    let mut s = Session::new();
    assert!(matches!(dispatch(&mut s, &ev, &Action::ToggleRaw), Effect::Nothing));
    assert_eq!(s.render_raw.as_ref().unwrap().hex, A);
    assert!(matches!(dispatch(&mut s, &ev, &Action::ToggleQr), Effect::Nothing));
    assert_eq!(s.render_qr.as_ref().unwrap().hex, A);
    assert!(s.render_raw.is_none());
    assert!(matches!(dispatch(&mut s, &ev, &Action::ToggleQr), Effect::Nothing));
    assert!(s.render_qr.is_none());
}

#[test]
fn gesture_availability_follows_the_note() {
    let dm = EventKind::EncryptedDirectMessage;
    let tn = EventKind::TextNote;
    assert!(!action_available(&dm, false, false, true, &Action::Reply));
    assert!(action_available(&tn, false, false, true, &Action::Reply));
    assert!(!action_available(&dm, false, false, true, &Action::ViewThread));
    assert!(!action_available(&tn, true, false, true, &Action::ViewThread));
    assert!(action_available(&tn, false, false, true, &Action::ViewThread));
    assert!(!action_available(&tn, false, true, true, &Action::Quote));
    assert!(!action_available(&tn, false, false, false, &Action::Like));
    assert!(action_available(&tn, false, false, true, &Action::Like));
    assert!(action_available(&dm, true, true, false, &Action::CopyId));
    assert!(action_available(&dm, true, true, false, &Action::Dismiss));
}
