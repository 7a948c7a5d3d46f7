use crate::types::{Event, EventKind, Id, Tag};
use vstd::prelude::*;

verus! {

/// The subject named by the first subject tag, if any.
pub open spec fn spec_subject(tags: Seq<Tag>) -> Option<Seq<char>>
    decreases tags.len(),
{
    if tags.len() == 0 {
        None
    } else {
        match tags[0] {
            Tag::Subject(s) => Some(s@),
            _ => spec_subject(tags.skip(1)),
        }
    }
}

/// The warning named by the first content-warning tag, if any.
pub open spec fn spec_content_warning(tags: Seq<Tag>) -> Option<Seq<char>>
    decreases tags.len(),
{
    if tags.len() == 0 {
        None
    } else {
        match tags[0] {
            Tag::ContentWarning(w) => Some(w@),
            _ => spec_content_warning(tags.skip(1)),
        }
    }
}

/// The first delegation tag, if any.
pub open spec fn spec_delegation_tag(tags: Seq<Tag>) -> Option<Tag>
    decreases tags.len(),
{
    if tags.len() == 0 {
        None
    } else {
        match tags[0] {
            Tag::Delegation { .. } => Some(tags[0]),
            _ => spec_delegation_tag(tags.skip(1)),
        }
    }
}

/// The target named by the first nonce tag, if any; `Some(None)` is a nonce
/// tag that names no target.
pub open spec fn spec_nonce_target(tags: Seq<Tag>) -> Option<Option<Seq<char>>>
    decreases tags.len(),
{
    if tags.len() == 0 {
        None
    } else {
        match tags[0] {
            Tag::Nonce { target } => Some(
                match target {
                    Some(t) => Some(t@),
                    None => None,
                },
            ),
            _ => spec_nonce_target(tags.skip(1)),
        }
    }
}

/// The id of the first note-reference tag whose marker reads `m`.
pub open spec fn spec_first_marked(tags: Seq<Tag>, m: Seq<char>) -> Option<Seq<char>>
    decreases tags.len(),
{
    if tags.len() == 0 {
        None
    } else {
        match tags[0] {
            Tag::Event { id, marker: Some(mk) } if mk@ == m => Some(id@),
            _ => spec_first_marked(tags.skip(1), m),
        }
    }
}

/// The last note-reference tag, if any, as `(id, whether it has a marker)`.
pub open spec fn spec_last_event_tag(tags: Seq<Tag>) -> Option<(Seq<char>, bool)>
    decreases tags.len(),
{
    if tags.len() == 0 {
        None
    } else {
        match tags[tags.len() - 1] {
            Tag::Event { id, marker } => Some((id@, marker is Some)),
            _ => spec_last_event_tag(tags.take(tags.len() - 1)),
        }
    }
}

/// The note this event replies to: only a text note replies; the first
/// reference marked `reply` wins, then the first marked `root`, then the
/// last reference provided it carries no marker at all.
pub open spec fn spec_reply_target(ev: Event) -> Option<Seq<char>> {
    if !(ev.kind is TextNote) {
        None
    } else if spec_first_marked(ev.tags@, "reply"@) is Some {
        spec_first_marked(ev.tags@, "reply"@)
    } else if spec_first_marked(ev.tags@, "root"@) is Some {
        spec_first_marked(ev.tags@, "root"@)
    } else {
        match spec_last_event_tag(ev.tags@) {
            Some((id, marked)) => if marked {
                None
            } else {
                Some(id)
            },
            None => None,
        }
    }
}

impl Event {
    /// First subject tag's text.
    pub fn subject(&self) -> (r: Option<String>)
        ensures
            r is Some <==> spec_subject(self.tags@) is Some,
            r matches Some(s) ==> spec_subject(self.tags@) == Some(s@),
    {
        let n = self.tags.len();
        proof {
            assert(self.tags@.skip(0) =~= self.tags@);
        }
        for i in 0..n
            invariant
                n == self.tags.len(),
                spec_subject(self.tags@) == spec_subject(self.tags@.skip(i as int)),
        {
            proof {
                assert(self.tags@.skip(i as int).len() > 0);
                assert(self.tags@.skip(i as int)[0] == self.tags@[i as int]);
                assert(self.tags@.skip(i as int).skip(1) =~= self.tags@.skip(i + 1));
            }
            match &self.tags[i] {
                Tag::Subject(s) => {
                    return Some(s.clone());
                },
                _ => {},
            }
        }
        proof {
            assert(self.tags@.skip(n as int) =~= Seq::<Tag>::empty());
        }
        None
    }

    /// First content-warning tag's text.
    pub fn content_warning(&self) -> (r: Option<String>)
        ensures
            r is Some <==> spec_content_warning(self.tags@) is Some,
            r matches Some(w) ==> spec_content_warning(self.tags@) == Some(w@),
    {
        let n = self.tags.len();
        proof {
            assert(self.tags@.skip(0) =~= self.tags@);
        }
        for i in 0..n
            invariant
                n == self.tags.len(),
                spec_content_warning(self.tags@) == spec_content_warning(
                    self.tags@.skip(i as int),
                ),
        {
            proof {
                assert(self.tags@.skip(i as int).len() > 0);
                assert(self.tags@.skip(i as int)[0] == self.tags@[i as int]);
                assert(self.tags@.skip(i as int).skip(1) =~= self.tags@.skip(i + 1));
            }
            match &self.tags[i] {
                Tag::ContentWarning(w) => {
                    return Some(w.clone());
                },
                _ => {},
            }
        }
        proof {
            assert(self.tags@.skip(n as int) =~= Seq::<Tag>::empty());
        }
        None
    }
}

/// The fields of a delegation tag, copied out for the resolver.
pub struct DelegTag {
    pub delegator_hex: String,
    pub cond_kind: Option<u64>,
    pub cond_created_after: Option<i64>,
    pub cond_created_before: Option<i64>,
    pub sig_hex: String,
}

/// What `spec_delegation_tag` holds, field by field, when it found a tag.
pub open spec fn deleg_tag_matches(t: Tag, d: DelegTag) -> bool {
    &&& t matches Tag::Delegation {
        delegator_hex,
        cond_kind,
        cond_created_after,
        cond_created_before,
        sig_hex,
    }
    &&& delegator_hex@ == d.delegator_hex@
    &&& cond_kind == d.cond_kind
    &&& cond_created_after == d.cond_created_after
    &&& cond_created_before == d.cond_created_before
    &&& sig_hex@ == d.sig_hex@
}

impl Event {
    /// First delegation tag, copied out.
    pub fn delegation_tag(&self) -> (r: Option<DelegTag>)
        ensures
            r is Some <==> spec_delegation_tag(self.tags@) is Some,
            r matches Some(d) ==> deleg_tag_matches(
                spec_delegation_tag(self.tags@).unwrap(),
                d,
            ),
    {
        let n = self.tags.len();
        proof {
            assert(self.tags@.skip(0) =~= self.tags@);
        }
        for i in 0..n
            invariant
                n == self.tags.len(),
                spec_delegation_tag(self.tags@) == spec_delegation_tag(
                    self.tags@.skip(i as int),
                ),
        {
            proof {
                assert(self.tags@.skip(i as int).len() > 0);
                assert(self.tags@.skip(i as int)[0] == self.tags@[i as int]);
                assert(self.tags@.skip(i as int).skip(1) =~= self.tags@.skip(i + 1));
            }
            match &self.tags[i] {
                Tag::Delegation {
                    delegator_hex,
                    cond_kind,
                    cond_created_after,
                    cond_created_before,
                    sig_hex,
                } => {
                    return Some(
                        DelegTag {
                            delegator_hex: delegator_hex.clone(),
                            cond_kind: *cond_kind,
                            cond_created_after: *cond_created_after,
                            cond_created_before: *cond_created_before,
                            sig_hex: sig_hex.clone(),
                        },
                    );
                },
                _ => {},
            }
        }
        proof {
            assert(self.tags@.skip(n as int) =~= Seq::<Tag>::empty());
        }
        None
    }

    /// The id of the first note reference whose marker reads `m`.
    fn first_marked(&self, m: &str) -> (r: Option<Id>)
        ensures
            r is Some <==> spec_first_marked(self.tags@, m@) is Some,
            r matches Some(id) ==> spec_first_marked(self.tags@, m@) == Some(id@),
    {
        let n = self.tags.len();
        proof {
            assert(self.tags@.skip(0) =~= self.tags@);
        }
        for i in 0..n
            invariant
                n == self.tags.len(),
                spec_first_marked(self.tags@, m@) == spec_first_marked(
                    self.tags@.skip(i as int),
                    m@,
                ),
        {
            proof {
                assert(self.tags@.skip(i as int).len() > 0);
                assert(self.tags@.skip(i as int)[0] == self.tags@[i as int]);
                assert(self.tags@.skip(i as int).skip(1) =~= self.tags@.skip(i + 1));
            }
            match &self.tags[i] {
                Tag::Event { id, marker: Some(mk) } => {
                    if *mk == m.to_owned() {
                        return Some(id.clone_id());
                    }
                },
                _ => {},
            }
        }
        proof {
            assert(self.tags@.skip(n as int) =~= Seq::<Tag>::empty());
        }
        None
    }

    /// The last note-reference tag, as `(id, whether it has a marker)`.
    fn last_event_tag(&self) -> (r: Option<(Id, bool)>)
        ensures
            r is Some <==> spec_last_event_tag(self.tags@) is Some,
            r matches Some(p) ==> spec_last_event_tag(self.tags@) == Some((p.0@, p.1)),
    {
        let n = self.tags.len();
        let mut i: usize = n;
        proof {
            assert(self.tags@.take(n as int) =~= self.tags@);
        }
        while i > 0
            invariant
                n == self.tags.len(),
                i <= n,
                spec_last_event_tag(self.tags@) == spec_last_event_tag(
                    self.tags@.take(i as int),
                ),
            decreases i,
        {
            i = i - 1;
            proof {
                assert(self.tags@.take(i + 1).len() == i + 1);
                assert(self.tags@.take(i + 1)[i as int] == self.tags@[i as int]);
                assert(self.tags@.take(i + 1).take(i as int) =~= self.tags@.take(i as int));
            }
            match &self.tags[i] {
                Tag::Event { id, marker } => {
                    return Some((id.clone_id(), marker.is_some()));
                },
                _ => {},
            }
        }
        proof {
            assert(self.tags@.take(0) =~= Seq::<Tag>::empty());
        }
        None
    }

    /// The note this event replies to, under the marker rules above.
    pub fn replies_to(&self) -> (r: Option<Id>)
        ensures
            r is Some <==> spec_reply_target(*self) is Some,
            r matches Some(id) ==> spec_reply_target(*self) == Some(id@),
    {
        if !matches!(self.kind, EventKind::TextNote) {
            return None;
        }
        if let Some(id) = self.first_marked("reply") {
            return Some(id);
        }
        if let Some(id) = self.first_marked("root") {
            return Some(id);
        }
        match self.last_event_tag() {
            Some((id, marked)) => if marked {
                None
            } else {
                Some(id)
            },
            None => None,
        }
    }
}

} // verus!
