//! Sealed-bid auction ranking.
//!
//! A bid is ranked by its composite score (a binary32 float, carried
//! here by its bit pattern), then by lower price, then by lower
//! latency. The winner is chosen exactly as `Iterator::max_by` chooses:
//! a left fold that keeps the running winner only when it compares
//! strictly greater than the next bid, so among equally ranked bids the
//! last one wins. Scores compare as IEEE-754 `partial_cmp` does, with an
//! unordered comparison (a NaN score) counted as equal.

use vstd::prelude::*;

use crate::text::str_eq;
use crate::text_map::TextMap;

verus! {

/// Three-way comparison result.
#[derive(PartialEq, Eq, Structural, Clone, Copy, Debug)]
pub enum Relation {
    Less,
    Equal,
    Greater,
}

/// What the auction ranks a bid by.
#[derive(Clone, Copy, Debug)]
pub struct BidRank {
    /// Bit pattern of the binary32 composite score (higher is better).
    pub score_bits: u32,
    /// Declared price per 1k tokens, in NanoX.
    pub price_per_1k: u64,
    /// Declared latency.
    pub latency_ms: u32,
}

/// Sign bit of a binary32 value.
pub open spec fn f32_negative(bits: u32) -> bool {
    bits >= 0x8000_0000
}

/// Exponent-and-fraction field of a binary32 value.
pub open spec fn f32_magnitude(bits: u32) -> int {
    if f32_negative(bits) { bits - 0x8000_0000 } else { bits as int }
}

/// A binary32 NaN: all exponent bits set and a non-zero fraction.
pub open spec fn f32_is_nan(bits: u32) -> bool {
    f32_magnitude(bits) > 0x7f80_0000
}

/// The position of a non-NaN binary32 value on the number line. For
/// IEEE-754 binary32, the magnitude field grows with the absolute value,
/// so ordering by this signed magnitude is the numeric order (and the
/// two zeros share rank 0).
pub open spec fn f32_rank(bits: u32) -> int {
    if f32_negative(bits) { -f32_magnitude(bits) } else { f32_magnitude(bits) }
}

/// Three-way comparison of two integers.
pub open spec fn order_int(x: int, y: int) -> Relation {
    if x < y { Relation::Less } else if x == y { Relation::Equal } else { Relation::Greater }
}

/// `a.partial_cmp(&b).unwrap_or(Equal)` on two binary32 values.
pub open spec fn score_order(a: u32, b: u32) -> Relation {
    if f32_is_nan(a) || f32_is_nan(b) { Relation::Equal } else { order_int(f32_rank(a), f32_rank(b)) }
}

/// The auction's comparator: score first, then the cheaper bid, then
/// the faster bid.
pub open spec fn bid_order(a: BidRank, b: BidRank) -> Relation {
    match score_order(a.score_bits, b.score_bits) {
        Relation::Equal => match order_int(b.price_per_1k as int, a.price_per_1k as int) {
            Relation::Equal => order_int(b.latency_ms as int, a.latency_ms as int),
            other => other,
        },
        other => other,
    }
}

/// Index of the winner among the first `n` bids, as the `max_by` fold
/// picks it.
pub open spec fn winner_index(s: Seq<BidRank>, n: nat) -> int
    decreases n,
{
    if n <= 1 {
        0
    } else {
        let w = winner_index(s, (n - 1) as nat);
        if bid_order(s[w], s[n - 1]) == Relation::Greater { w } else { n - 1 }
    }
}

/// The fold's winner is one of the bids it has seen.
pub proof fn lemma_winner_in_range(s: Seq<BidRank>, n: nat)
    requires
        1 <= n,
    ensures
        0 <= winner_index(s, n) < n,
    decreases n,
{
    if n > 1 {
        lemma_winner_in_range(s, (n - 1) as nat);
    }
}

/// Every bid in the sequence has an ordered (non-NaN) score.
pub open spec fn all_scores_ordered(s: Seq<BidRank>) -> bool {
    forall|i: int| 0 <= i < s.len() ==> !f32_is_nan(#[trigger] s[i].score_bits)
}

/// Lexicographic ranking key of a bid with an ordered score.
pub open spec fn rank_gt(a: BidRank, b: BidRank) -> bool {
    ||| f32_rank(a.score_bits) > f32_rank(b.score_bits)
    ||| f32_rank(a.score_bits) == f32_rank(b.score_bits) && a.price_per_1k < b.price_per_1k
    ||| f32_rank(a.score_bits) == f32_rank(b.score_bits) && a.price_per_1k == b.price_per_1k
        && a.latency_ms < b.latency_ms
}

proof fn lemma_bid_order_total(a: BidRank, b: BidRank)
    requires
        !f32_is_nan(a.score_bits),
        !f32_is_nan(b.score_bits),
    ensures
        (bid_order(a, b) == Relation::Greater) == rank_gt(a, b),
        (bid_order(a, b) == Relation::Less) == rank_gt(b, a),
{
}

/// Compare two binary32 values given by their bits, as
/// `partial_cmp(..).unwrap_or(Equal)` does.
pub fn compare_scores(a: u32, b: u32) -> (r: Relation)
    ensures
        r == score_order(a, b),
{
    let ma: u32 = if a >= 0x8000_0000 { a - 0x8000_0000 } else { a };
    let mb: u32 = if b >= 0x8000_0000 { b - 0x8000_0000 } else { b };
    if ma > 0x7f80_0000 || mb > 0x7f80_0000 {
        return Relation::Equal;
    }
    let ra: i64 = if a >= 0x8000_0000 { -(ma as i64) } else { ma as i64 };
    let rb: i64 = if b >= 0x8000_0000 { -(mb as i64) } else { mb as i64 };
    if ra < rb {
        Relation::Less
    } else if ra == rb {
        Relation::Equal
    } else {
        Relation::Greater
    }
}

/// The auction's comparator on two bids.
pub fn compare_bids(a: &BidRank, b: &BidRank) -> (r: Relation)
    ensures
        r == bid_order(*a, *b),
{
    match compare_scores(a.score_bits, b.score_bits) {
        Relation::Equal => {
            if b.price_per_1k < a.price_per_1k {
                Relation::Less
            } else if b.price_per_1k > a.price_per_1k {
                Relation::Greater
            } else if b.latency_ms < a.latency_ms {
                Relation::Less
            } else if b.latency_ms > a.latency_ms {
                Relation::Greater
            } else {
                Relation::Equal
            }
        },
        other => other,
    }
}

/// Pick the winning bid: the index of the highest-ranked bid, ties
/// broken on lower price, then lower latency, and among bids that still
/// compare equal the last one. `None` when there are no bids.
pub fn pick_winner(ranks: &[BidRank]) -> (r: Option<usize>)
    ensures
        r is None <==> ranks@.len() == 0,
        r matches Some(i) ==> i == winner_index(ranks@, ranks@.len()),
{
    if ranks.len() == 0 {
        return None;
    }
    let mut w: usize = 0;
    let mut i: usize = 1;
    while i < ranks.len()
        invariant
            1 <= i <= ranks@.len(),
            w == winner_index(ranks@, i as nat),
        decreases ranks@.len() - i,
    {
        proof {
            lemma_winner_in_range(ranks@, i as nat);
        }
        if compare_bids(&ranks[w], &ranks[i]) != Relation::Greater {
            w = i;
        }
        i = i + 1;
    }
    Some(w)
}

/// When every score is ordered, the fold's winner outranks or ties
/// every bid, and strictly outranks every bid after it: it is the last
/// of the best-ranked bids.
pub proof fn lemma_winner_is_last_best(s: Seq<BidRank>, n: nat)
    requires
        1 <= n <= s.len(),
        all_scores_ordered(s),
    ensures
        0 <= winner_index(s, n) < n,
        forall|j: int| 0 <= j < n ==> !rank_gt(#[trigger] s[j], s[winner_index(s, n)]),
        forall|j: int| winner_index(s, n) < j < n ==> rank_gt(s[winner_index(s, n)], #[trigger] s[j]),
    decreases n,
{
    if n > 1 {
        let m = (n - 1) as nat;
        lemma_winner_is_last_best(s, m);
        let w = winner_index(s, m);
        lemma_bid_order_total(s[w], s[n - 1]);
    }
}

/// Law of the auction: when no score is NaN, the bid `pick_winner`
/// returns ranks at least as high as every other bid (score, then lower
/// price, then lower latency), and every later bid ranks strictly lower.
pub proof fn law_winner_is_best(ranks: Seq<BidRank>)
    requires
        ranks.len() > 0,
        all_scores_ordered(ranks),
    ensures
        ({
            let w = winner_index(ranks, ranks.len());
            &&& 0 <= w < ranks.len()
            &&& forall|j: int| 0 <= j < ranks.len() ==> !rank_gt(#[trigger] ranks[j], ranks[w])
            &&& forall|j: int| w < j < ranks.len() ==> rank_gt(ranks[w], #[trigger] ranks[j])
        }),
{
    lemma_winner_is_last_best(ranks, ranks.len());
}

/// Warm-cache score of a cache tier, in hundredths: `gpu` 100, `cpu` 70,
/// `disk` 40, anything else 0.
pub open spec fn tier_warmth(tier: Seq<char>) -> u32 {
    if tier == "gpu"@ {
        100
    } else if tier == "cpu"@ {
        70
    } else if tier == "disk"@ {
        40
    } else {
        0
    }
}

/// Warm-cache score of a `node_session_cache.cache_tier` value, in
/// hundredths of the `[0, 1]` warmth scale.
pub fn warmth_for_tier(tier: &str) -> (w: u32)
    ensures
        w == tier_warmth(tier@),
        w <= 100,
{
    if str_eq(tier, "gpu") {
        100
    } else if str_eq(tier, "cpu") {
        70
    } else if str_eq(tier, "disk") {
        40
    } else {
        0
    }
}

/// Law: the tiers are ordered `gpu > cpu > disk > missing`, and an
/// unknown tier is cold.
pub proof fn law_warmth_tiers_ordered()
    ensures
        tier_warmth("gpu"@) > tier_warmth("cpu"@),
        tier_warmth("cpu"@) > tier_warmth("disk"@),
        tier_warmth("disk"@) > tier_warmth("missing"@),
        tier_warmth("missing"@) == 0,
{
    reveal_strlit("gpu");
    reveal_strlit("cpu");
    reveal_strlit("disk");
    reveal_strlit("missing");
    assert("gpu"@ != "cpu"@ && "gpu"@ != "disk"@ && "cpu"@ != "disk"@) by {
        assert("gpu"@[0] != "cpu"@[0]);
        assert("gpu"@[0] != "disk"@[0]);
        assert("cpu"@[0] != "disk"@[0]);
    }
    assert("missing"@ != "gpu"@ && "missing"@ != "cpu"@ && "missing"@ != "disk"@) by {
        assert("missing"@.len() != "gpu"@.len());
        assert("missing"@.len() != "disk"@.len());
    }
}

/// Per-node warmth for one session, keyed by node peer id, in hundredths.
pub type WarmthMap = TextMap<u32>;

/// The warmth map that `(node_peer_id, cache_tier)` rows describe, a
/// later row for a node replacing an earlier one.
pub open spec fn rows_warmth(rows: Seq<(String, String)>) -> Map<Seq<char>, u32>
    decreases rows.len(),
{
    if rows.len() == 0 {
        Map::empty()
    } else {
        rows_warmth(rows.drop_last()).insert(rows.last().0@, tier_warmth(rows.last().1@))
    }
}

/// Build the warmth map of a session from its `(node_peer_id,
/// cache_tier)` rows.
pub fn warmth_map_from_rows(rows: Vec<(String, String)>) -> (m: WarmthMap)
    ensures
        m.view() == rows_warmth(rows@),
{
    let mut m: WarmthMap = TextMap::new();
    let mut i: usize = 0;
    while i < rows.len()
        invariant
            i <= rows@.len(),
            m.view() == rows_warmth(rows@.take(i as int)),
        decreases rows@.len() - i,
    {
        let peer = rows[i].0.clone();
        let w = warmth_for_tier(rows[i].1.as_str());
        m.insert(peer, w);
        proof {
            assert(rows@.take(i + 1).drop_last() =~= rows@.take(i as int));
        }
        i = i + 1;
    }
    proof {
        assert(rows@.take(rows@.len() as int) =~= rows@);
    }
    m
}

/// Warmth of a node in the map, 0 when the node has never served the
/// session.
pub fn warmth_of(m: &WarmthMap, peer: &str) -> (w: u32)
    ensures
        w == (if m.view().contains_key(peer@) { m.view()[peer@] } else { 0 }),
{
    match m.get(peer) {
        Some(w) => *w,
        None => 0,
    }
}

} // verus!
