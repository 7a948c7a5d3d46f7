use crate::reactions::ReactionCount;
use crate::tags::spec_reply_target;
use crate::types::{Event, Id, Person, PubKey};
use vstd::prelude::*;

verus! {

/// A deletion record: a separate protocol event asked that the note with
/// this id be treated as deleted, for the given reason.
pub struct Deletion {
    pub id: Id,
    pub reason: String,
}

/// Aggregated reactions to one note.
pub struct ReactionEntry {
    pub id: Id,
    pub counts: Vec<ReactionCount>,
    pub self_reacted: bool,
}

/// A snapshot of everything the feed reads from the surrounding stores:
/// the known events, the known profiles, the deletion records and the
/// aggregated reactions. Lookups scan in order; the first entry wins.
pub struct Store {
    pub events: Vec<Event>,
    pub people: Vec<Person>,
    pub deletions: Vec<Deletion>,
    pub reactions: Vec<ReactionEntry>,
}

/// The first event carrying this id, if any.
pub open spec fn spec_event_at(events: Seq<Event>, id: Seq<char>) -> Option<Event>
    decreases events.len(),
{
    if events.len() == 0 {
        None
    } else if events[0].id@ == id {
        Some(events[0])
    } else {
        spec_event_at(events.skip(1), id)
    }
}

/// The first profile recorded for this key, if any.
pub open spec fn spec_person_for(people: Seq<Person>, pk: Seq<char>) -> Option<Person>
    decreases people.len(),
{
    if people.len() == 0 {
        None
    } else if people[0].pubkey@ == pk {
        Some(people[0])
    } else {
        spec_person_for(people.skip(1), pk)
    }
}

/// The first deletion reason recorded for this id, if any.
pub open spec fn spec_deletion_for(ds: Seq<Deletion>, id: Seq<char>) -> Option<Seq<char>>
    decreases ds.len(),
{
    if ds.len() == 0 {
        None
    } else if ds[0].id@ == id {
        Some(ds[0].reason@)
    } else {
        spec_deletion_for(ds.skip(1), id)
    }
}

/// The first reaction record for this id, if any.
pub open spec fn spec_reactions_for(rs: Seq<ReactionEntry>, id: Seq<char>) -> Option<
    (Seq<ReactionCount>, bool),
>
    decreases rs.len(),
{
    if rs.len() == 0 {
        None
    } else if rs[0].id@ == id {
        Some((rs[0].counts@, rs[0].self_reacted))
    } else {
        spec_reactions_for(rs.skip(1), id)
    }
}

/// The ids of the notes that reply to `id`, in store order.
pub open spec fn spec_replies(events: Seq<Event>, id: Seq<char>) -> Seq<Seq<char>>
    decreases events.len(),
{
    if events.len() == 0 {
        Seq::empty()
    } else {
        let front = spec_replies(events.take(events.len() - 1), id);
        if spec_reply_target(events.last()) == Some(id) {
            front.push(events.last().id@)
        } else {
            front
        }
    }
}

/// What looking a key up owes: the recorded profile field for field, or
/// the synthesized placeholder when none is recorded.
pub open spec fn person_lookup_ok(people: Seq<Person>, pk: Seq<char>, r: Person) -> bool {
    match spec_person_for(people, pk) {
        Some(p) => r.pubkey@ == pk && r.muted == p.muted && (match (r.name, p.name) {
            (Some(a), Some(b)) => a@ == b@,
            (None, None) => true,
            _ => false,
        }),
        None => r.pubkey@ == pk && r.name is None && r.muted == 0,
    }
}

impl Store {
    /// An empty snapshot.
    pub fn new() -> (r: Store)
        ensures
            r.events@.len() == 0,
            r.people@.len() == 0,
            r.deletions@.len() == 0,
            r.reactions@.len() == 0,
    {
        Store { events: Vec::new(), people: Vec::new(), deletions: Vec::new(), reactions: Vec::new() }
    }

    /// Look an event up by id.
    pub fn get_event(&self, id: &Id) -> (r: Option<&Event>)
        ensures
            r matches Some(e) ==> spec_event_at(self.events@, id@) == Some(*e),
            r is None ==> spec_event_at(self.events@, id@) is None,
    {
        let n = self.events.len();
        proof {
            assert(self.events@.skip(0) =~= self.events@);
        }
        for i in 0..n
            invariant
                n == self.events.len(),
                spec_event_at(self.events@, id@) == spec_event_at(
                    self.events@.skip(i as int),
                    id@,
                ),
        {
            proof {
                assert(self.events@.skip(i as int)[0] == self.events@[i as int]);
                assert(self.events@.skip(i as int).skip(1) =~= self.events@.skip(i + 1));
            }
            if self.events[i].id.same(id) {
                return Some(&self.events[i]);
            }
        }
        proof {
            assert(self.events@.skip(n as int) =~= Seq::<Event>::empty());
        }
        None
    }

    /// Look a profile up by key; an author with no profile yet gets the
    /// synthesized placeholder holding only the key.
    pub fn person_or_placeholder(&self, pk: &PubKey) -> (r: Person)
        ensures
            person_lookup_ok(self.people@, pk@, r),
    {
        let n = self.people.len();
        proof {
            assert(self.people@.skip(0) =~= self.people@);
        }
        for i in 0..n
            invariant
                n == self.people.len(),
                spec_person_for(self.people@, pk@) == spec_person_for(
                    self.people@.skip(i as int),
                    pk@,
                ),
        {
            proof {
                assert(self.people@.skip(i as int)[0] == self.people@[i as int]);
                assert(self.people@.skip(i as int).skip(1) =~= self.people@.skip(i + 1));
            }
            if self.people[i].pubkey.same(pk) {
                let p = &self.people[i];
                let name = match &p.name {
                    Some(s) => Some(s.clone()),
                    None => None,
                };
                return Person { pubkey: p.pubkey.clone_key(), name, muted: p.muted };
            }
        }
        proof {
            assert(self.people@.skip(n as int) =~= Seq::<Person>::empty());
        }
        Person::placeholder(pk.clone_key())
    }

    /// Look a deletion reason up by note id.
    pub fn deletion_for(&self, id: &Id) -> (r: Option<String>)
        ensures
            r matches Some(s) ==> spec_deletion_for(self.deletions@, id@) == Some(s@),
            r is None ==> spec_deletion_for(self.deletions@, id@) is None,
    {
        let n = self.deletions.len();
        proof {
            assert(self.deletions@.skip(0) =~= self.deletions@);
        }
        for i in 0..n
            invariant
                n == self.deletions.len(),
                spec_deletion_for(self.deletions@, id@) == spec_deletion_for(
                    self.deletions@.skip(i as int),
                    id@,
                ),
        {
            proof {
                assert(self.deletions@.skip(i as int)[0] == self.deletions@[i as int]);
                assert(self.deletions@.skip(i as int).skip(1) =~= self.deletions@.skip(i + 1));
            }
            if self.deletions[i].id.same(id) {
                return Some(self.deletions[i].reason.clone());
            }
        }
        proof {
            assert(self.deletions@.skip(n as int) =~= Seq::<Deletion>::empty());
        }
        None
    }

    /// Look the aggregated reactions up by note id; a note nobody reacted
    /// to yet has no counts and the viewer has not reacted.
    pub fn reactions_for(&self, id: &Id) -> (r: (Vec<ReactionCount>, bool))
        ensures
            match spec_reactions_for(self.reactions@, id@) {
                Some(p) => r.0@ == p.0 && r.1 == p.1,
                None => r.0@.len() == 0 && r.1 == false,
            },
    {
        let n = self.reactions.len();
        proof {
            assert(self.reactions@.skip(0) =~= self.reactions@);
        }
        for i in 0..n
            invariant
                n == self.reactions.len(),
                spec_reactions_for(self.reactions@, id@) == spec_reactions_for(
                    self.reactions@.skip(i as int),
                    id@,
                ),
        {
            proof {
                assert(self.reactions@.skip(i as int)[0] == self.reactions@[i as int]);
                assert(self.reactions@.skip(i as int).skip(1) =~= self.reactions@.skip(i + 1));
            }
            if self.reactions[i].id.same(id) {
                let src = &self.reactions[i].counts;
                let m = src.len();
                let mut counts: Vec<ReactionCount> = Vec::new();
                for j in 0..m
                    invariant
                        m == src.len(),
                        counts@ =~= src@.take(j as int),
                {
                    counts.push(src[j]);
                    proof {
                        assert(counts@ =~= src@.take(j + 1));
                    }
                }
                proof {
                    assert(src@.take(m as int) =~= src@);
                }
                return (counts, self.reactions[i].self_reacted);
            }
        }
        proof {
            assert(self.reactions@.skip(n as int) =~= Seq::<ReactionEntry>::empty());
        }
        (Vec::new(), false)
    }

    /// Collect the ids of the notes that reply to `id`, in store order.
    pub fn replies(&self, id: &Id) -> (r: Vec<Id>)
        ensures
            r@.map_values(|x: Id| x@) == spec_replies(self.events@, id@),
    {
        let n = self.events.len();
        let mut out: Vec<Id> = Vec::new();
        proof {
            assert(self.events@.take(0) =~= Seq::<Event>::empty());
            assert(out@.map_values(|x: Id| x@) =~= spec_replies(self.events@.take(0), id@));
        }
        for i in 0..n
            invariant
                n == self.events.len(),
                out@.map_values(|x: Id| x@) == spec_replies(self.events@.take(i as int), id@),
        {
            proof {
                assert(self.events@.take(i + 1).len() == i + 1);
                assert(self.events@.take(i + 1).last() == self.events@[i as int]);
                assert(self.events@.take(i + 1).take(i as int) =~= self.events@.take(i as int));
            }
            let ev = &self.events[i];
            let is_reply = match ev.replies_to() {
                Some(t) => t.same(id),
                None => false,
            };
            if is_reply {
                let ghost before = out@;
                out.push(ev.id.clone_id());
                proof {
                    assert(out@.map_values(|x: Id| x@) =~= before.map_values(|x: Id| x@).push(
                        ev.id@,
                    ));
                }
            }
        }
        proof {
            assert(self.events@.take(n as int) =~= self.events@);
        }
        out
    }
}

} // verus!
