use vstd::prelude::*;

verus! {

/// One aggregated reaction: a symbol and how many notes carried it.
#[derive(Clone, Copy, PartialEq, Eq, Structural)]
pub struct ReactionCount {
    pub symbol: char,
    pub count: u64,
}

/// What the feed shows for a note's reactions: the heart icon (filled when
/// the viewer already reacted), the counts of the default symbol first,
/// then every other symbol with its count, in aggregator order.
pub struct ReactionDisplay {
    pub icon_filled: bool,
    pub default_counts: Vec<u64>,
    pub others: Vec<ReactionCount>,
}

/// The counts listed under the default `+` symbol, in order.
pub open spec fn spec_default_counts(s: Seq<ReactionCount>) -> Seq<u64>
    decreases s.len(),
{
    if s.len() == 0 {
        Seq::empty()
    } else {
        let front = spec_default_counts(s.take(s.len() - 1));
        if s.last().symbol == '+' {
            front.push(s.last().count)
        } else {
            front
        }
    }
}

/// Every reaction other than the default `+`, in order.
pub open spec fn spec_other_reactions(s: Seq<ReactionCount>) -> Seq<ReactionCount>
    decreases s.len(),
{
    if s.len() == 0 {
        Seq::empty()
    } else {
        let front = spec_other_reactions(s.take(s.len() - 1));
        if s.last().symbol != '+' {
            front.push(s.last())
        } else {
            front
        }
    }
}

/// Turn the aggregator's counts into what the feed shows: default symbol
/// first, everything else after, the icon filled when the viewer already
/// reacted with the default symbol.
pub fn tally_display(counts: &Vec<ReactionCount>, self_reacted: bool) -> (r: ReactionDisplay)
    ensures
        r.icon_filled == self_reacted,
        r.default_counts@ == spec_default_counts(counts@),
        r.others@ == spec_other_reactions(counts@),
{
    let n = counts.len();
    let mut default_counts: Vec<u64> = Vec::new();
    let mut others: Vec<ReactionCount> = Vec::new();
    proof {
        assert(counts@.take(0) =~= Seq::<ReactionCount>::empty());
    }
    for i in 0..n
        invariant
            n == counts.len(),
            default_counts@ == spec_default_counts(counts@.take(i as int)),
            others@ == spec_other_reactions(counts@.take(i as int)),
    {
        proof {
            assert(counts@.take(i + 1).len() == i + 1);
            assert(counts@.take(i + 1).last() == counts@[i as int]);
            assert(counts@.take(i + 1).take(i as int) =~= counts@.take(i as int));
        }
        let c = counts[i];
        if c.symbol == '+' {
            default_counts.push(c.count);
        } else {
            others.push(c);
        }
    }
    proof {
        assert(counts@.take(n as int) =~= counts@);
    }
    ReactionDisplay { icon_filled: self_reacted, default_counts, others }
}

} // verus!
