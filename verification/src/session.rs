use crate::types::Id;
use vstd::prelude::*;
use vstd::string::StrSliceExecFns;
use vstd::string::StringExecFns;

verus! {

/// Whether some id in the list reads `id`.
pub open spec fn spec_has_id(v: Seq<Id>, id: Seq<char>) -> bool {
    exists|i: int| 0 <= i < v.len() && #[trigger] v[i]@ == id
}

/// Membership test on a list of ids.
pub fn ids_contain(v: &Vec<Id>, id: &Id) -> (r: bool)
    ensures
        r == spec_has_id(v@, id@),
{
    let n = v.len();
    for i in 0..n
        invariant
            n == v.len(),
            forall|k: int| 0 <= k < i ==> #[trigger] v@[k]@ != id@,
    {
        if v[i].same(id) {
            return true;
        }
    }
    false
}

/// Insert an id if it is not there yet: the list only ever grows, and
/// nothing but `id` is added.
fn ids_insert(v: &mut Vec<Id>, id: &Id)
    ensures
        spec_has_id(final(v)@, id@),
        forall|x: Seq<char>| spec_has_id(old(v)@, x) ==> spec_has_id(final(v)@, x),
        forall|x: Seq<char>| x != id@ ==> spec_has_id(final(v)@, x) == spec_has_id(old(v)@, x),
{
    if !ids_contain(v, id) {
        let ghost before = v@;
        v.push(id.clone_id());
        proof {
            assert(v@[before.len() as int]@ == id@);
            assert forall|x: Seq<char>| spec_has_id(before, x) implies spec_has_id(v@, x) by {
                let i = choose|i: int| 0 <= i < before.len() && #[trigger] before[i]@ == x;
                assert(v@[i]@ == x);
            }
            assert forall|x: Seq<char>| x != id@ && spec_has_id(v@, x) implies spec_has_id(
                before,
                x,
            ) by {
                let i = choose|i: int| 0 <= i < v@.len() && #[trigger] v@[i]@ == x;
                assert(i < before.len());
                assert(before[i]@ == x);
            }
        }
    }
}

/// A recorded rendered height for one note.
pub struct HeightEntry {
    pub id: Id,
    pub px: u64,
}

/// The height recorded for `id`: that of its first entry, if any.
pub open spec fn spec_height(h: Seq<HeightEntry>, id: Seq<char>) -> Option<u64>
    decreases h.len(),
{
    if h.len() == 0 {
        None
    } else if h[0].id@ == id {
        Some(h[0].px)
    } else {
        spec_height(h.skip(1), id)
    }
}

proof fn lemma_height_update(h: Seq<HeightEntry>, j: int, e: HeightEntry, x: Seq<char>)
    requires
        0 <= j < h.len(),
        h[j].id@ == e.id@,
        x != e.id@,
    ensures
        spec_height(h.update(j, e), x) == spec_height(h, x),
    decreases h.len(),
{
    if j == 0 {
        assert(h.update(0, e).skip(1) =~= h.skip(1));
    } else {
        assert(h.update(j, e).skip(1) =~= h.skip(1).update(j - 1, e));
        lemma_height_update(h.skip(1), j - 1, e, x);
    }
}

proof fn lemma_height_update_hit(h: Seq<HeightEntry>, j: int, e: HeightEntry)
    requires
        0 <= j < h.len(),
        h[j].id@ == e.id@,
        forall|k: int| 0 <= k < j ==> h[k].id@ != e.id@,
    ensures
        spec_height(h.update(j, e), e.id@) == Some(e.px),
    decreases h.len(),
{
    if j > 0 {
        assert(h.update(j, e).skip(1) =~= h.skip(1).update(j - 1, e));
        lemma_height_update_hit(h.skip(1), j - 1, e);
    }
}

proof fn lemma_height_remove(h: Seq<HeightEntry>, j: int, x: Seq<char>)
    requires
        0 <= j < h.len(),
        x != h[j].id@,
    ensures
        spec_height(h.remove(j), x) == spec_height(h, x),
    decreases h.len(),
{
    if j == 0 {
        assert(h.remove(0) =~= h.skip(1));
    } else {
        assert(h.remove(j).skip(1) =~= h.skip(1).remove(j - 1));
        lemma_height_remove(h.skip(1), j - 1, x);
    }
}

proof fn lemma_height_absent(h: Seq<HeightEntry>, x: Seq<char>)
    requires
        forall|k: int| 0 <= k < h.len() ==> h[k].id@ != x,
    ensures
        spec_height(h, x) is None,
    decreases h.len(),
{
    if h.len() > 0 {
        lemma_height_absent(h.skip(1), x);
    }
}

/// The first entry recorded under `id`, if any.
fn find_height_index(h: &Vec<HeightEntry>, id: &Id) -> (r: Option<usize>)
    ensures
        r matches Some(j) ==> j < h@.len() && h@[j as int].id@ == id@ && forall|k: int|
            0 <= k < j ==> #[trigger] h@[k].id@ != id@,
        r is None ==> forall|k: int| 0 <= k < h@.len() ==> #[trigger] h@[k].id@ != id@,
{
    let n = h.len();
    for j in 0..n
        invariant
            n == h.len(),
            forall|k: int| 0 <= k < j ==> #[trigger] h@[k].id@ != id@,
    {
        if h[j].id.same(id) {
            return Some(j);
        }
    }
    None
}

/// Per-note interactive view state for one viewing session: which notes
/// were seen, which content warnings were approved past, which single note
/// is shown raw or as a code image, the recorded heights, the dismissed
/// list, the draft under composition, and the note being replied to.
pub struct Session {
    pub viewed: Vec<Id>,
    pub approved: Vec<Id>,
    pub heights: Vec<HeightEntry>,
    pub render_raw: Option<Id>,
    pub render_qr: Option<Id>,
    pub dismissed: Vec<Id>,
    pub draft: String,
    pub replying_to: Option<Id>,
}

/// The latches and stores the rest of the session leaves alone, spelled
/// out so that every mutator says exactly what it does not touch.
pub open spec fn same_viewed(a: Session, b: Session) -> bool {
    a.viewed@ == b.viewed@
}

pub open spec fn same_approved(a: Session, b: Session) -> bool {
    a.approved@ == b.approved@
}

impl Session {
    /// A fresh session: nothing viewed, nothing approved, nothing recorded.
    pub fn new() -> (r: Session)
        ensures
            r.viewed@.len() == 0,
            r.approved@.len() == 0,
            r.heights@.len() == 0,
            r.render_raw is None,
            r.render_qr is None,
            r.dismissed@.len() == 0,
            r.draft@.len() == 0,
            r.replying_to is None,
    {
        Session {
            viewed: Vec::new(),
            approved: Vec::new(),
            heights: Vec::new(),
            render_raw: None,
            render_qr: None,
            dismissed: Vec::new(),
            draft: String::new(),
            replying_to: None,
        }
    }

    /// Whether the viewer has already seen this note.
    pub fn is_viewed(&self, id: &Id) -> (r: bool)
        ensures
            r == spec_has_id(self.viewed@, id@),
    {
        ids_contain(&self.viewed, id)
    }

    /// Whether the viewer approved past this note's content warning.
    pub fn is_approved(&self, id: &Id) -> (r: bool)
        ensures
            r == spec_has_id(self.approved@, id@),
    {
        ids_contain(&self.approved, id)
    }

    /// A note under the pointer while nothing scrolls becomes viewed; the
    /// viewed latch never clears again.
    pub fn note_hovered(&mut self, id: &Id, scrolling: bool)
        ensures
            !scrolling ==> spec_has_id(final(self).viewed@, id@),
            scrolling ==> same_viewed(*final(self), *old(self)),
            forall|x: Seq<char>|
                spec_has_id(old(self).viewed@, x) ==> spec_has_id(final(self).viewed@, x),
            forall|x: Seq<char>|
                x != id@ ==> spec_has_id(final(self).viewed@, x) == spec_has_id(
                    old(self).viewed@,
                    x,
                ),
            same_approved(*final(self), *old(self)),
            final(self).heights@ == old(self).heights@,
            final(self).render_raw == old(self).render_raw,
            final(self).render_qr == old(self).render_qr,
            final(self).dismissed@ == old(self).dismissed@,
            final(self).draft@ == old(self).draft@,
            final(self).replying_to == old(self).replying_to,
    {
        if !scrolling {
            ids_insert(&mut self.viewed, id);
        }
    }

    /// Approve past a note's content warning: a one-way latch; the height
    /// recorded for that note is cleared so layout is recomputed.
    pub fn approve(&mut self, id: &Id)
        ensures
            spec_has_id(final(self).approved@, id@),
            forall|x: Seq<char>|
                spec_has_id(old(self).approved@, x) ==> spec_has_id(final(self).approved@, x),
            forall|x: Seq<char>|
                x != id@ ==> spec_has_id(final(self).approved@, x) == spec_has_id(
                    old(self).approved@,
                    x,
                ),
            spec_height(final(self).heights@, id@) is None,
            forall|x: Seq<char>|
                x != id@ ==> spec_height(final(self).heights@, x) == spec_height(
                    old(self).heights@,
                    x,
                ),
            same_viewed(*final(self), *old(self)),
            final(self).render_raw == old(self).render_raw,
            final(self).render_qr == old(self).render_qr,
            final(self).dismissed@ == old(self).dismissed@,
            final(self).draft@ == old(self).draft@,
            final(self).replying_to == old(self).replying_to,
    {
        ids_insert(&mut self.approved, id);
        self.clear_height(id);
    }

    /// Record the rendered height of a note, replacing what was there.
    pub fn record_height(&mut self, id: &Id, px: u64)
        ensures
            spec_height(final(self).heights@, id@) == Some(px),
            forall|x: Seq<char>|
                x != id@ ==> spec_height(final(self).heights@, x) == spec_height(
                    old(self).heights@,
                    x,
                ),
            same_viewed(*final(self), *old(self)),
            same_approved(*final(self), *old(self)),
            final(self).render_raw == old(self).render_raw,
            final(self).render_qr == old(self).render_qr,
            final(self).dismissed@ == old(self).dismissed@,
            final(self).draft@ == old(self).draft@,
            final(self).replying_to == old(self).replying_to,
    {
        let n = self.heights.len();
        for j in 0..n
            invariant
                n == self.heights.len(),
                *self == *old(self),
                forall|k: int| 0 <= k < j ==> #[trigger] self.heights@[k].id@ != id@,
        {
            if self.heights[j].id.same(id) {
                let e = HeightEntry { id: id.clone_id(), px };
                let ghost before = self.heights@;
                self.heights.set(j, e);
                proof {
                    lemma_height_update_hit(before, j as int, self.heights@[j as int]);
                    assert forall|x: Seq<char>| x != id@ implies spec_height(self.heights@, x)
                        == spec_height(before, x) by {
                        lemma_height_update(before, j as int, self.heights@[j as int], x);
                    }
                }
                return ;
            }
        }
        let ghost before = self.heights@;
        self.heights.push(HeightEntry { id: id.clone_id(), px });
        proof {
            lemma_height_push(before, self.heights@[before.len() as int]);
        }
    }

    /// Forget the recorded height of a note.
    pub fn clear_height(&mut self, id: &Id)
        ensures
            spec_height(final(self).heights@, id@) is None,
            forall|x: Seq<char>|
                x != id@ ==> spec_height(final(self).heights@, x) == spec_height(
                    old(self).heights@,
                    x,
                ),
            same_viewed(*final(self), *old(self)),
            same_approved(*final(self), *old(self)),
            final(self).render_raw == old(self).render_raw,
            final(self).render_qr == old(self).render_qr,
            final(self).dismissed@ == old(self).dismissed@,
            final(self).draft@ == old(self).draft@,
            final(self).replying_to == old(self).replying_to,
    {
        let mut go = true;
        while go
            invariant
                !go ==> spec_height(self.heights@, id@) is None,
                forall|x: Seq<char>|
                    x != id@ ==> spec_height(self.heights@, x) == spec_height(
                        old(self).heights@,
                        x,
                    ),
                same_viewed(*self, *old(self)),
                same_approved(*self, *old(self)),
                self.render_raw == old(self).render_raw,
                self.render_qr == old(self).render_qr,
                self.dismissed@ == old(self).dismissed@,
                self.draft@ == old(self).draft@,
                self.replying_to == old(self).replying_to,
            decreases self.heights@.len() + (if go { 1int } else { 0int }),
        {
            match find_height_index(&self.heights, id) {
                Some(j) => {
                    let ghost before = self.heights@;
                    self.heights.remove(j);
                    proof {
                        assert forall|x: Seq<char>| x != id@ implies spec_height(
                            self.heights@,
                            x,
                        ) == spec_height(before, x) by {
                            lemma_height_remove(before, j as int, x);
                        }
                    }
                },
                None => {
                    proof {
                        lemma_height_absent(self.heights@, id@);
                    }
                    go = false;
                },
            }
        }
    }

    /// The height recorded for a note, if any.
    pub fn height_of(&self, id: &Id) -> (r: Option<u64>)
        ensures
            r == spec_height(self.heights@, id@),
    {
        let n = self.heights.len();
        proof {
            assert(self.heights@.skip(0) =~= self.heights@);
        }
        for j in 0..n
            invariant
                n == self.heights.len(),
                spec_height(self.heights@, id@) == spec_height(
                    self.heights@.skip(j as int),
                    id@,
                ),
        {
            proof {
                assert(self.heights@.skip(j as int)[0] == self.heights@[j as int]);
                assert(self.heights@.skip(j as int).skip(1) =~= self.heights@.skip(j + 1));
            }
            if self.heights[j].id.same(id) {
                return Some(self.heights[j].px);
            }
        }
        proof {
            assert(self.heights@.skip(n as int) =~= Seq::<HeightEntry>::empty());
        }
        None
    }
}

/// Whether an optional id slot holds exactly `id`.
pub open spec fn opt_is(o: Option<Id>, id: Seq<char>) -> bool {
    o matches Some(x) && x@ == id
}

/// The draft after quoting a reference into it: an empty draft takes the
/// reference bare; a draft that already ends in a space takes it straight;
/// any other draft gets exactly one separating space first.
pub open spec fn spec_quoted(draft: Seq<char>, reference: Seq<char>) -> Seq<char> {
    if draft.len() == 0 {
        reference
    } else if draft.last() == ' ' {
        draft + reference
    } else {
        draft + " "@ + reference
    }
}

impl Session {
    /// Show this note raw, or stop doing so if it already is; raw view
    /// displaces the code-image view of the same note.
    pub fn toggle_raw(&mut self, id: &Id)
        ensures
            opt_is(old(self).render_raw, id@) ==> final(self).render_raw is None && final(self).render_qr == old(self).render_qr,
            !opt_is(old(self).render_raw, id@) ==> {
                &&& opt_is(final(self).render_raw, id@)
                &&& (opt_is(old(self).render_qr, id@) ==> final(self).render_qr is None)
                &&& (!opt_is(old(self).render_qr, id@) ==> final(self).render_qr == old(self).render_qr)
            },
            same_viewed(*final(self), *old(self)),
            same_approved(*final(self), *old(self)),
            final(self).heights@ == old(self).heights@,
            final(self).dismissed@ == old(self).dismissed@,
            final(self).draft@ == old(self).draft@,
            final(self).replying_to == old(self).replying_to,
    {
        let is_cur = match &self.render_raw {
            Some(r) => r.same(id),
            None => false,
        };
        if is_cur {
            self.render_raw = None;
        } else {
            self.render_raw = Some(id.clone_id());
            let qr_is = match &self.render_qr {
                Some(q) => q.same(id),
                None => false,
            };
            if qr_is {
                self.render_qr = None;
            }
        }
    }

    /// Show this note as a code image, or stop doing so if it already is;
    /// the code-image view displaces the raw view of the same note.
    pub fn toggle_qr(&mut self, id: &Id)
        ensures
            opt_is(old(self).render_qr, id@) ==> final(self).render_qr is None && final(self).render_raw == old(self).render_raw,
            !opt_is(old(self).render_qr, id@) ==> {
                &&& opt_is(final(self).render_qr, id@)
                &&& (opt_is(old(self).render_raw, id@) ==> final(self).render_raw is None)
                &&& (!opt_is(old(self).render_raw, id@) ==> final(self).render_raw == old(self).render_raw)
            },
            same_viewed(*final(self), *old(self)),
            same_approved(*final(self), *old(self)),
            final(self).heights@ == old(self).heights@,
            final(self).dismissed@ == old(self).dismissed@,
            final(self).draft@ == old(self).draft@,
            final(self).replying_to == old(self).replying_to,
    {
        let is_cur = match &self.render_qr {
            Some(q) => q.same(id),
            None => false,
        };
        if is_cur {
            self.render_qr = None;
        } else {
            self.render_qr = Some(id.clone_id());
            let raw_is = match &self.render_raw {
                Some(r) => r.same(id),
                None => false,
            };
            if raw_is {
                self.render_raw = None;
            }
        }
    }

    /// Append this note to the dismissed list; the list only ever grows.
    pub fn dismiss(&mut self, id: &Id)
        ensures
            final(self).dismissed@.len() == old(self).dismissed@.len() + 1,
            final(self).dismissed@[old(self).dismissed@.len() as int]@ == id@,
            forall|k: int|
                0 <= k < old(self).dismissed@.len() ==> final(self).dismissed@[k] == old(self).dismissed@[k],
            same_viewed(*final(self), *old(self)),
            same_approved(*final(self), *old(self)),
            final(self).heights@ == old(self).heights@,
            final(self).render_raw == old(self).render_raw,
            final(self).render_qr == old(self).render_qr,
            final(self).draft@ == old(self).draft@,
            final(self).replying_to == old(self).replying_to,
    {
        self.dismissed.push(id.clone_id());
    }

    /// Point the composer at this note; a single slot, last write wins.
    pub fn set_replying_to(&mut self, id: &Id)
        ensures
            opt_is(final(self).replying_to, id@),
            same_viewed(*final(self), *old(self)),
            same_approved(*final(self), *old(self)),
            final(self).heights@ == old(self).heights@,
            final(self).render_raw == old(self).render_raw,
            final(self).render_qr == old(self).render_qr,
            final(self).dismissed@ == old(self).dismissed@,
            final(self).draft@ == old(self).draft@,
    {
        self.replying_to = Some(id.clone_id());
    }

    /// Quote a note's textual reference into the draft, separating it from
    /// what is already there by exactly one space when one is needed.
    pub fn quote_append(&mut self, reference: &str)
        ensures
            final(self).draft@ == spec_quoted(old(self).draft@, reference@),
            same_viewed(*final(self), *old(self)),
            same_approved(*final(self), *old(self)),
            final(self).heights@ == old(self).heights@,
            final(self).render_raw == old(self).render_raw,
            final(self).render_qr == old(self).render_qr,
            final(self).dismissed@ == old(self).dismissed@,
            final(self).replying_to == old(self).replying_to,
    {
        let len = self.draft.as_str().unicode_len();
        if len > 0 {
            let last = self.draft.as_str().get_char(len - 1);
            if last != ' ' {
                self.draft.append(" ");
            }
        }
        self.draft.append(reference);
    }
}

proof fn lemma_height_push(h: Seq<HeightEntry>, e: HeightEntry)
    ensures
        forall|x: Seq<char>|
            x != e.id@ ==> spec_height(h.push(e), x) == spec_height(h, x),
        (forall|k: int| 0 <= k < h.len() ==> h[k].id@ != e.id@) ==> spec_height(h.push(e), e.id@)
            == Some(e.px),
    decreases h.len(),
{
    if h.len() == 0 {
        assert(h.push(e)[0] == e);
        assert forall|x: Seq<char>| x != e.id@ implies spec_height(h.push(e), x) == spec_height(
            h,
            x,
        ) by {
            assert(h.push(e).skip(1) =~= h);
            lemma_height_absent(h, x);
        }
    } else {
        assert(h.push(e)[0] == h[0]);
        assert(h.push(e).skip(1) =~= h.skip(1).push(e));
        lemma_height_push(h.skip(1), e);
        assert forall|x: Seq<char>| x != e.id@ implies spec_height(h.push(e), x) == spec_height(
            h,
            x,
        ) by {
            if h[0].id@ == x {
                assert(h.push(e)[0] == h[0]);
                assert(spec_height(h.push(e), x) == Some(h[0].px));
                assert(spec_height(h, x) == Some(h[0].px));
            } else {
                lemma_height_push(h.skip(1), e);
                assert(h.push(e).skip(1) == h.skip(1).push(e));
                assert(spec_height(h.push(e), x) == spec_height(h.skip(1).push(e), x));
                assert(spec_height(h.skip(1).push(e), x) == spec_height(h.skip(1), x));
                assert(spec_height(h, x) == spec_height(h.skip(1), x));
            }
        }
        if forall|k: int| 0 <= k < h.len() ==> h[k].id@ != e.id@ {
            assert forall|k: int| 0 <= k < h.skip(1).len() implies h.skip(1)[k].id@ != e.id@ by {
                assert(h.skip(1)[k] == h[k + 1]);
                assert(h[k + 1].id@ != e.id@);
            }
            assert(h[0].id@ != e.id@);
            assert(spec_height(h.push(e), e.id@) == spec_height(h.skip(1).push(e), e.id@));
        }
    }
}

} // verus!
