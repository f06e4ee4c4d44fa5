use vstd::prelude::*;

verus! {

/// What the plugin registry reports of one encoder factory: its rank, and whether
/// one of its source pad templates can produce the wanted format.
#[derive(Clone, Copy, Debug)]
pub struct EncoderCandidate {
    pub rank: i32,
    pub produces_format: bool,
}

/// Whether candidate `a` is listed before candidate `b`: higher rank first, and
/// registry order among equal ranks.
pub open spec fn listed_before(candidates: Seq<EncoderCandidate>, a: int, b: int) -> bool {
    candidates[a].rank > candidates[b].rank || (candidates[a].rank == candidates[b].rank && a < b)
}

/// `order` lists, each once and highest rank first with ties in registry order,
/// exactly those indices of `candidates` below `limit` that can produce the format.
pub open spec fn is_ranking(candidates: Seq<EncoderCandidate>, order: Seq<usize>, limit: int) -> bool {
    &&& forall|k: int|
        0 <= k < order.len() ==> #[trigger] order[k] < limit && candidates[order[k] as int].produces_format
    &&& forall|i: int|
        0 <= i < limit && #[trigger] candidates[i].produces_format ==> order.contains(i as usize)
    &&& forall|k: int, l: int|
        0 <= k < l < order.len() ==> listed_before(candidates, #[trigger] order[k] as int, #[trigger] order[l] as int)
}

/// Inserting candidate `i` (the next in registry order, able to produce the format)
/// before the first listed candidate of lower rank keeps a ranking.
proof fn lemma_insert_keeps_ranking(
    candidates: Seq<EncoderCandidate>,
    order: Seq<usize>,
    p: int,
    i: int,
)
    requires
        0 <= i < candidates.len(),
        i < usize::MAX,
        candidates[i].produces_format,
        is_ranking(candidates, order, i),
        0 <= p <= order.len(),
        forall|k: int| 0 <= k < p ==> candidates[order[k] as int].rank >= candidates[i].rank,
        p < order.len() ==> candidates[order[p] as int].rank < candidates[i].rank,
    ensures
        is_ranking(candidates, order.insert(p, i as usize), i + 1),
{
    let n = order.insert(p, i as usize);
    assert forall|k: int| p <= k < order.len() implies candidates[order[k] as int].rank
        < candidates[i].rank by {
        if k > p {
            assert(listed_before(candidates, order[p] as int, order[k] as int));
        }
    }
    assert forall|k: int| 0 <= k < n.len() implies #[trigger] n[k] < i + 1
        && candidates[n[k] as int].produces_format by {
        if k < p {
            assert(n[k] == order[k]);
        } else if k > p {
            assert(n[k] == order[k - 1]);
        }
    }
    assert forall|j: int|
        0 <= j < i + 1 && #[trigger] candidates[j].produces_format implies n.contains(
        j as usize) by {
        if j < i {
            let k = choose|k: int| 0 <= k < order.len() && order[k] == j as usize;
            if k < p {
                assert(n[k] == j as usize);
            } else {
                assert(n[k + 1] == j as usize);
            }
        } else {
            assert(n[p] == j as usize);
        }
    }
    assert forall|k: int, l: int| 0 <= k < l < n.len() implies listed_before(
        candidates,
        #[trigger] n[k] as int,
        #[trigger] n[l] as int,
    ) by {
        if l < p {
            assert(n[k] == order[k] && n[l] == order[l]);
        } else if l == p {
            assert(n[k] == order[k]);
        } else if k < p {
            assert(n[k] == order[k] && n[l] == order[l - 1]);
        } else if k == p {
            assert(n[l] == order[l - 1]);
        } else {
            assert(n[k] == order[k - 1] && n[l] == order[l - 1]);
        }
    }
}

/// The encoders that can produce the wanted format, as indices into `candidates`,
/// best first: sorted by decreasing rank, keeping registry order among equal ranks.
pub fn rank_encoders(candidates: &[EncoderCandidate]) -> (order: Vec<usize>)
    ensures
        is_ranking(candidates@, order@, candidates@.len() as int),
{
    let mut order: Vec<usize> = Vec::new();
    let mut i: usize = 0;
    while i < candidates.len()
        invariant
            i <= candidates@.len(),
            is_ranking(candidates@, order@, i as int),
        decreases candidates.len() - i,
    {
        if candidates[i].produces_format {
            let rank = candidates[i].rank;
            let mut p: usize = 0;
            while p < order.len() && candidates[order[p]].rank >= rank
                invariant
                    p <= order@.len(),
                    i < candidates@.len(),
                    rank == candidates@[i as int].rank,
                    is_ranking(candidates@, order@, i as int),
                    forall|k: int| 0 <= k < p ==> candidates@[order@[k] as int].rank >= rank,
                decreases order.len() - p,
            {
                p += 1;
            }
            let ghost old_order = order@;
            order.insert(p, i);
            proof {
                lemma_insert_keeps_ranking(candidates@, old_order, p as int, i as int);
            }
        }
        i += 1;
    }
    order
}

/// Two sequences that hold the same indices, each strictly ordered by
/// `listed_before`, are the same sequence.
proof fn lemma_strictly_ordered_unique(c: Seq<EncoderCandidate>, a: Seq<usize>, b: Seq<usize>)
    requires
        forall|k: int, l: int| 0 <= k < l < a.len() ==> listed_before(c, #[trigger] a[k] as int, #[trigger] a[l] as int),
        forall|k: int, l: int| 0 <= k < l < b.len() ==> listed_before(c, #[trigger] b[k] as int, #[trigger] b[l] as int),
        forall|x: usize| a.contains(x) <==> b.contains(x),
    ensures
        a == b,
    decreases a.len(),
{
    if a.len() == 0 {
        if b.len() > 0 {
            assert(b.contains(b[0]));
        }
        assert(a =~= b);
    } else {
        assert(a.contains(a[0]));
        assert(b.len() > 0);
        assert(b.contains(b[0]));
        if a[0] != b[0] {
            let j = choose|j: int| 0 <= j < b.len() && b[j] == a[0];
            let k = choose|k: int| 0 <= k < a.len() && a[k] == b[0];
            assert(listed_before(c, b[0] as int, b[j] as int));
            assert(listed_before(c, a[0] as int, a[k] as int));
        }
        let a1 = a.drop_first();
        let b1 = b.drop_first();
        assert forall|x: usize| a1.contains(x) <==> b1.contains(x) by {
            if a1.contains(x) {
                let k = choose|k: int| 0 <= k < a1.len() && a1[k] == x;
                assert(a[k + 1] == x);
                assert(listed_before(c, a[0] as int, a[k + 1] as int));
                assert(b.contains(x));
                let j = choose|j: int| 0 <= j < b.len() && b[j] == x;
                assert(j != 0);
                assert(b1[j - 1] == x);
            }
            if b1.contains(x) {
                let k = choose|k: int| 0 <= k < b1.len() && b1[k] == x;
                assert(b[k + 1] == x);
                assert(listed_before(c, b[0] as int, b[k + 1] as int));
                assert(a.contains(x));
                let j = choose|j: int| 0 <= j < a.len() && a[j] == x;
                assert(j != 0);
                assert(a1[j - 1] == x);
            }
        }
        assert forall|k: int, l: int| 0 <= k < l < a1.len() implies listed_before(c, #[trigger] a1[k] as int, #[trigger] a1[l] as int) by {
            assert(a1[k] == a[k + 1] && a1[l] == a[l + 1]);
        }
        assert forall|k: int, l: int| 0 <= k < l < b1.len() implies listed_before(c, #[trigger] b1[k] as int, #[trigger] b1[l] as int) by {
            assert(b1[k] == b[k + 1] && b1[l] == b[l + 1]);
        }
        lemma_strictly_ordered_unique(c, a1, b1);
        assert(a =~= b) by {
            assert forall|i: int| 0 <= i < a.len() implies a[i] == b[i] by {
                if i > 0 {
                    assert(a[i] == a1[i - 1]);
                    assert(b[i] == b1[i - 1]);
                }
            }
        }
    }
}

/// The ranking of a list of encoders is unique: any two orders that both list
/// the encoders producing the format, best rank first with ties in registry order,
/// are the same.
pub proof fn law_ranking_is_unique(candidates: Seq<EncoderCandidate>, a: Seq<usize>, b: Seq<usize>)
    requires
        is_ranking(candidates, a, candidates.len() as int),
        is_ranking(candidates, b, candidates.len() as int),
    ensures
        a == b,
{
    assert forall|x: usize| a.contains(x) <==> b.contains(x) by {
        if a.contains(x) {
            let k = choose|k: int| 0 <= k < a.len() && a[k] == x;
            assert(a[k] < candidates.len());
            assert(candidates[x as int].produces_format);
        }
        if b.contains(x) {
            let k = choose|k: int| 0 <= k < b.len() && b[k] == x;
            assert(b[k] < candidates.len());
            assert(candidates[x as int].produces_format);
        }
    }
    lemma_strictly_ordered_unique(candidates, a, b);
}

} // verus!
