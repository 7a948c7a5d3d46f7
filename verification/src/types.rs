use vstd::prelude::*;

verus! {

/// Content-addressed identifier of a note, carried as its hexadecimal text
/// form. The engine never looks inside an id: it only compares ids for
/// equality and hands them to the surrounding session for display.
#[derive(Clone)]
pub struct Id {
    pub hex: String,
}

impl View for Id {
    type V = Seq<char>;

    open spec fn view(&self) -> Seq<char> {
        self.hex@
    }
}

impl Id {
    /// Equality of ids, by their hexadecimal text.
    pub fn same(&self, other: &Id) -> (r: bool)
        ensures
            r == (self@ == other@),
    {
        self.hex == other.hex
    }

    pub fn clone_id(&self) -> (r: Id)
        ensures
            r@ == self@,
    {
        Id { hex: self.hex.clone() }
    }
}

/// A signing key, carried as its hexadecimal text form.
#[derive(Clone)]
pub struct PubKey {
    pub hex: String,
}

impl View for PubKey {
    type V = Seq<char>;

    open spec fn view(&self) -> Seq<char> {
        self.hex@
    }
}

impl PubKey {
    pub fn same(&self, other: &PubKey) -> (r: bool)
        ensures
            r == (self@ == other@),
    {
        self.hex == other.hex
    }

    pub fn clone_key(&self) -> (r: PubKey)
        ensures
            r@ == self@,
    {
        PubKey { hex: self.hex.clone() }
    }
}

/// The kinds of note the feed cares about; every other protocol kind is
/// carried as its numeric code.
#[derive(Clone, Copy, PartialEq, Eq, Structural)]
pub enum EventKind {
    TextNote,
    EncryptedDirectMessage,
    Repost,
    Other(u64),
}

/// One structured tag of a note, reduced to the fields this engine reads.
#[derive(Clone)]
pub enum Tag {
    /// A reference to another note, with its optional marker text.
    Event { id: Id, marker: Option<String> },
    /// A subject line for the note.
    Subject(String),
    /// A content warning the viewer must approve past.
    ContentWarning(String),
    /// A claim that `delegator_hex` authorized the signer to post on its
    /// behalf, under the given conditions, witnessed by `sig_hex`.
    Delegation {
        delegator_hex: String,
        cond_kind: Option<u64>,
        cond_created_after: Option<i64>,
        cond_created_before: Option<i64>,
        sig_hex: String,
    },
    /// A proof-of-work nonce, with the target bit count it claims.
    Nonce { target: Option<String> },
    /// Any tag the engine does not read.
    Other,
}

/// An immutable signed note.
pub struct Event {
    pub id: Id,
    pub pubkey: PubKey,
    pub kind: EventKind,
    pub created_at: i64,
    pub content: String,
    pub tags: Vec<Tag>,
}

/// A profile record for an author; `muted > 0` means the author is muted.
pub struct Person {
    pub pubkey: PubKey,
    pub name: Option<String>,
    pub muted: u64,
}

impl Person {
    /// The placeholder synthesized when an author has no profile yet:
    /// it holds only the key.
    pub fn placeholder(pubkey: PubKey) -> (r: Person)
        ensures
            r.pubkey@ == pubkey@,
            r.name is None,
            r.muted == 0,
    {
        Person { pubkey, name: None, muted: 0 }
    }
}

/// The viewer's feature switches.
#[derive(Clone, Copy, PartialEq, Eq, Structural)]
pub struct Settings {
    pub reposts: bool,
    pub direct_messages: bool,
    pub reactions: bool,
}

} // verus!
