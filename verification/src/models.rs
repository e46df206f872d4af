//! `GET /v1/models`: the models available from online nodes, with
//! per-token pricing.

use vstd::prelude::*;
use vstd::string::StringSliceAdditionalSpecFns;

use crate::order::{bytes_less, bytes_lt, lemma_bytes_lt_asymmetric, lemma_bytes_lt_total, lemma_bytes_lt_transitive};
use crate::registry::{PeerEntryView, PeerRegistry};
use crate::text::{contains_bytes, has_substring, str_eq};
use crate::types::texts;
use vstd::utf8::encode_utf8;

verus! {

/// Price of a model, in NanoX per million tokens.
pub struct ModelPricing {
    pub input_per_1m_tokens_nanox: u64,
    pub output_per_1m_tokens_nanox: u64,
}

/// One model on offer.
pub struct ModelObject {
    pub id: String,
    pub object: &'static str,
    pub owned_by: &'static str,
    pub nodes_available: usize,
    pub pricing: ModelPricing,
}

/// The models on offer.
pub struct ModelList {
    pub object: &'static str,
    pub data: Vec<ModelObject>,
}

/// Baseline price tier of a model id: 72B-class models, then 32B-class,
/// then everything else, told apart by `72b`/`72B` or `32b`/`32B` in
/// the id.
pub open spec fn pricing_tier(id: Seq<u8>) -> (u64, u64) {
    if has_substring(id, "72b".spec_bytes()) || has_substring(id, "72B".spec_bytes()) {
        (50_000, 150_000)
    } else if has_substring(id, "32b".spec_bytes()) || has_substring(id, "32B".spec_bytes()) {
        (20_000, 60_000)
    } else {
        (5_000, 15_000)
    }
}

/// Hard-coded baseline pricing of a model (input, output per 1M tokens).
pub fn baseline_pricing(model_id: &str) -> (p: ModelPricing)
    ensures
        (p.input_per_1m_tokens_nanox, p.output_per_1m_tokens_nanox) == pricing_tier(model_id.spec_bytes()),
{
    let b = model_id.as_bytes();
    if contains_bytes(b, "72b".as_bytes()) || contains_bytes(b, "72B".as_bytes()) {
        ModelPricing { input_per_1m_tokens_nanox: 50_000, output_per_1m_tokens_nanox: 150_000 }
    } else if contains_bytes(b, "32b".as_bytes()) || contains_bytes(b, "32B".as_bytes()) {
        ModelPricing { input_per_1m_tokens_nanox: 20_000, output_per_1m_tokens_nanox: 60_000 }
    } else {
        ModelPricing { input_per_1m_tokens_nanox: 5_000, output_per_1m_tokens_nanox: 15_000 }
    }
}

} // verus!

verus! {

/// Every model offered in a registry listing, entry by entry, each
/// entry's models in announcement order.
pub open spec fn offered_models(listing: Seq<(Seq<char>, PeerEntryView)>) -> Seq<Seq<char>>
    decreases listing.len(),
{
    if listing.len() == 0 {
        Seq::empty()
    } else {
        offered_models(listing.drop_last()) + listing.last().1.capabilities.models
    }
}

/// Number of times `x` occurs in `s`.
pub open spec fn occurrences(s: Seq<Seq<char>>, x: Seq<char>) -> nat
    decreases s.len(),
{
    if s.len() == 0 {
        0
    } else {
        occurrences(s.drop_last(), x) + if s.last() == x { 1nat } else { 0nat }
    }
}

/// The byte order of two texts.
pub open spec fn text_lt(a: Seq<char>, b: Seq<char>) -> bool {
    bytes_lt(encode_utf8(a), encode_utf8(b))
}

/// `acc` tallies `seen`: its keys are in strictly increasing byte order,
/// each carries its (positive) number of occurrences in `seen`, and
/// every text in `seen` has a key.
pub open spec fn tallies(acc: Seq<(String, usize)>, seen: Seq<Seq<char>>) -> bool {
    &&& forall|i: int| 0 <= i < acc.len() - 1 ==> text_lt((#[trigger] acc[i]).0@, acc[i + 1].0@)
    &&& forall|i: int| 0 <= i < acc.len() ==> (#[trigger] acc[i]).1 == occurrences(seen, acc[i].0@) && acc[i].1 > 0
    &&& forall|x: Seq<char>| occurrences(seen, x) > 0 ==> exists|i: int| 0 <= i < acc.len() && (#[trigger] acc[i]).0@ == x
}

proof fn lemma_adjacent_sorted_is_sorted(acc: Seq<(String, usize)>, i: int, j: int)
    requires
        forall|k: int| 0 <= k < acc.len() - 1 ==> text_lt((#[trigger] acc[k]).0@, acc[k + 1].0@),
        0 <= i < j < acc.len(),
    ensures
        text_lt(acc[i].0@, acc[j].0@),
    decreases j - i,
{
    if j > i + 1 {
        lemma_adjacent_sorted_is_sorted(acc, i, j - 1);
        assert(text_lt(acc[j - 1].0@, acc[j].0@));
        lemma_bytes_lt_transitive(encode_utf8(acc[i].0@), encode_utf8(acc[j - 1].0@), encode_utf8(acc[j].0@));
    }
}

proof fn lemma_occurrences_bound(s: Seq<Seq<char>>, x: Seq<char>)
    ensures
        occurrences(s, x) <= s.len(),
    decreases s.len(),
{
    if s.len() > 0 {
        lemma_occurrences_bound(s.drop_last(), x);
    }
}

/// Count one more occurrence of `m` in a tally.
fn tally_one(acc: &mut Vec<(String, usize)>, m: &String, seen: Ghost<Seq<Seq<char>>>)
    requires
        tallies(old(acc)@, seen@),
        seen@.len() + 1 < usize::MAX,
    ensures
        tallies(final(acc)@, seen@.push(m@)),
{
    let ghost s2 = seen@.push(m@);
    proof {
        assert(s2.drop_last() =~= seen@);
        assert forall|x: Seq<char>| #[trigger] occurrences(s2, x) == occurrences(seen@, x) + if x == m@ { 1nat } else { 0nat } by {}
    }
    let mut p: usize = 0;
    while p < acc.len() && bytes_less(acc[p].0.as_str().as_bytes(), m.as_str().as_bytes())
        invariant
            p <= acc@.len(),
            acc@ == old(acc)@,
            forall|k: int| 0 <= k < p ==> text_lt((#[trigger] acc@[k]).0@, m@),
        decreases acc@.len() - p,
    {
        p = p + 1;
    }
    let ghost a = acc@;
    proof {
        // Every key before `p` is below `m`; `m` is not below the key at `p`.
        assert forall|k: int| 0 <= k < p implies (#[trigger] a[k]).0@ != m@ by {
            lemma_bytes_lt_asymmetric(encode_utf8(m@), encode_utf8(m@));
        }
    }
    if p < acc.len() && str_eq(acc[p].0.as_str(), m.as_str()) {
        let count = acc[p].1;
        proof {
            lemma_occurrences_bound(seen@, m@);
        }
        let key = acc[p].0.clone();
        acc.set(p, (key, count + 1));
        proof {
            assert forall|k: int| 0 <= k < acc@.len() && k != p implies (#[trigger] a[k]).0@ != m@ by {
                if k > p {
                    lemma_adjacent_sorted_is_sorted(a, p as int, k);
                    lemma_bytes_lt_asymmetric(encode_utf8(m@), encode_utf8(m@));
                }
            }
            assert forall|i: int| 0 <= i < acc@.len() - 1 implies text_lt((#[trigger] acc@[i]).0@, acc@[i + 1].0@) by {
                assert(acc@[i].0@ == a[i].0@);
                assert(acc@[i + 1].0@ == a[i + 1].0@);
            }
            assert forall|i: int| 0 <= i < acc@.len() implies (#[trigger] acc@[i]).1 == occurrences(s2, acc@[i].0@) && acc@[i].1 > 0 by {
                assert(occurrences(s2, acc@[i].0@) == occurrences(seen@, acc@[i].0@) + if acc@[i].0@ == m@ { 1nat } else { 0nat });
            }
            assert forall|x: Seq<char>| occurrences(s2, x) > 0 implies exists|i: int| 0 <= i < acc@.len() && (#[trigger] acc@[i]).0@ == x by {
                assert(occurrences(s2, x) == occurrences(seen@, x) + if x == m@ { 1nat } else { 0nat });
                if x == m@ {
                    assert(acc@[p as int].0@ == x);
                } else {
                    let i = choose|i: int| 0 <= i < a.len() && (#[trigger] a[i]).0@ == x;
                    assert(acc@[i].0@ == x);
                }
            }
        }
    } else {
        proof {
            if p < a.len() {
                lemma_bytes_lt_total(encode_utf8(a[p as int].0@), encode_utf8(m@));
                vstd::utf8::encode_utf8_decode_utf8(a[p as int].0@);
                vstd::utf8::encode_utf8_decode_utf8(m@);
            }
            assert forall|k: int| 0 <= k < a.len() implies (#[trigger] a[k]).0@ != m@ by {
                if k >= p {
                    if k > p {
                        lemma_adjacent_sorted_is_sorted(a, p as int, k);
                        lemma_bytes_lt_transitive(encode_utf8(m@), encode_utf8(a[p as int].0@), encode_utf8(a[k].0@));
                    }
                    lemma_bytes_lt_asymmetric(encode_utf8(m@), encode_utf8(m@));
                }
            }
            assert(occurrences(seen@, m@) == 0) by {
                if occurrences(seen@, m@) > 0 {
                    let i = choose|i: int| 0 <= i < a.len() && (#[trigger] a[i]).0@ == m@;
                }
            }
        }
        acc.insert(p, (m.clone(), 1));
        proof {
            let n = acc@;
            assert(n == a.insert(p as int, n[p as int]));
            assert forall|i: int| 0 <= i < n.len() - 1 implies text_lt((#[trigger] n[i]).0@, n[i + 1].0@) by {
                if i + 1 < p {
                    assert(n[i] == a[i] && n[i + 1] == a[i + 1]);
                } else if i + 1 == p {
                    assert(n[i] == a[i]);
                } else if i == p {
                    assert(n[i + 1] == a[i]);
                } else {
                    assert(n[i] == a[i - 1] && n[i + 1] == a[i]);
                }
            }
            assert forall|i: int| 0 <= i < n.len() implies (#[trigger] n[i]).1 == occurrences(s2, n[i].0@) && n[i].1 > 0 by {
                if i < p {
                    assert(n[i] == a[i]);
                } else if i > p {
                    assert(n[i] == a[i - 1]);
                }
                assert(occurrences(s2, n[i].0@) == occurrences(seen@, n[i].0@) + if n[i].0@ == m@ { 1nat } else { 0nat });
            }
            assert forall|x: Seq<char>| occurrences(s2, x) > 0 implies exists|i: int| 0 <= i < n.len() && (#[trigger] n[i]).0@ == x by {
                assert(occurrences(s2, x) == occurrences(seen@, x) + if x == m@ { 1nat } else { 0nat });
                if x == m@ {
                    assert(n[p as int].0@ == x);
                } else {
                    let i = choose|i: int| 0 <= i < a.len() && (#[trigger] a[i]).0@ == x;
                    if i < p {
                        assert(n[i] == a[i]);
                    } else {
                        assert(n[i + 1] == a[i]);
                    }
                }
            }
        }
    }
}

/// Build the model list from the live peer registry: one entry per
/// distinct model id, counting every announcement of it, priced by the
/// baseline tiers and sorted by id.
pub fn list_models(reg: &PeerRegistry) -> (r: ModelList)
    requires
        reg.wf(),
        offered_models(reg.listing()).len() + 1 < usize::MAX,
    ensures
        r.object@ == "list"@,
        forall|i: int| 0 <= i < r.data@.len() - 1 ==> text_lt((#[trigger] r.data@[i]).id@, r.data@[i + 1].id@),
        forall|i: int| 0 <= i < r.data@.len() ==> {
            let o = #[trigger] r.data@[i];
            &&& o.nodes_available == occurrences(offered_models(reg.listing()), o.id@)
            &&& o.nodes_available > 0
            &&& o.object@ == "model"@
            &&& o.owned_by@ == "pinaivu"@
            &&& (o.pricing.input_per_1m_tokens_nanox, o.pricing.output_per_1m_tokens_nanox) == pricing_tier(encode_utf8(o.id@))
        },
        forall|x: Seq<char>| occurrences(offered_models(reg.listing()), x) > 0
            ==> exists|i: int| 0 <= i < r.data@.len() && (#[trigger] r.data@[i]).id@ == x,
{
    let snapshot = reg.snapshot();
    let ghost listing = reg.listing();
    let mut acc: Vec<(String, usize)> = Vec::new();
    let ghost mut seen: Seq<Seq<char>> = Seq::empty();
    let mut e: usize = 0;
    while e < snapshot.len()
        invariant
            e <= snapshot@.len(),
            snapshot@.len() == listing.len(),
            forall|i: int| 0 <= i < snapshot@.len() ==> (#[trigger] snapshot@[i]).0@ == listing[i].0
                && snapshot@[i].1.view() == listing[i].1,
            seen == offered_models(listing.take(e as int)),
            offered_models(listing).len() + 1 < usize::MAX,
            tallies(acc@, seen),
        decreases snapshot@.len() - e,
    {
        let models = &snapshot[e].1.capabilities.models;
        let ghost base = seen;
        proof {
            lemma_offered_prefix_grows(listing, e as int);
        }
        let mut j: usize = 0;
        while j < models.len()
            invariant
                j <= models@.len(),
                seen == base + texts(models@).take(j as int),
                base.len() + models@.len() <= offered_models(listing).len(),
                offered_models(listing).len() + 1 < usize::MAX,
                tallies(acc@, seen),
            decreases models@.len() - j,
        {
            tally_one(&mut acc, &models[j], Ghost(seen));
            proof {
                seen = seen.push(models@[j as int]@);
                assert(seen =~= base + texts(models@).take(j + 1));
            }
            j = j + 1;
        }
        proof {
            assert(texts(models@).take(models@.len() as int) =~= texts(models@));
            assert(listing.take(e + 1).drop_last() =~= listing.take(e as int));
            assert(listing.take(e + 1).last() == listing[e as int]);
            assert(texts(models@) == listing[e as int].1.capabilities.models);
        }
        e = e + 1;
    }
    proof {
        assert(listing.take(listing.len() as int) =~= listing);
    }
    let mut data: Vec<ModelObject> = Vec::new();
    let mut k: usize = 0;
    while k < acc.len()
        invariant
            k <= acc@.len(),
            data@.len() == k,
            forall|i: int| 0 <= i < k ==> {
                let o = #[trigger] data@[i];
                &&& o.id@ == acc@[i].0@
                &&& o.nodes_available == acc@[i].1
                &&& o.object@ == "model"@
                &&& o.owned_by@ == "pinaivu"@
                &&& (o.pricing.input_per_1m_tokens_nanox, o.pricing.output_per_1m_tokens_nanox) == pricing_tier(encode_utf8(o.id@))
            },
        decreases acc@.len() - k,
    {
        let id = acc[k].0.clone();
        let pricing = baseline_pricing(id.as_str());
        data.push(ModelObject { id, object: "model", owned_by: "pinaivu", nodes_available: acc[k].1, pricing });
        k = k + 1;
    }
    proof {
        assert forall|i: int| 0 <= i < data@.len() - 1 implies text_lt((#[trigger] data@[i]).id@, data@[i + 1].id@) by {
            assert(text_lt(acc@[i].0@, acc@[i + 1].0@));
        }
        assert forall|x: Seq<char>| occurrences(offered_models(listing), x) > 0
            implies exists|i: int| 0 <= i < data@.len() && (#[trigger] data@[i]).id@ == x by {
            let i = choose|i: int| 0 <= i < acc@.len() && (#[trigger] acc@[i]).0@ == x;
            assert(data@[i].id@ == x);
        }
    }
    ModelList { object: "list", data }
}

proof fn lemma_offered_prefix_grows(listing: Seq<(Seq<char>, PeerEntryView)>, e: int)
    requires
        0 <= e < listing.len(),
    ensures
        offered_models(listing.take(e)).len() + listing[e].1.capabilities.models.len()
            <= offered_models(listing).len(),
    decreases listing.len() - e,
{
    let t = listing.take(e + 1);
    assert(t.drop_last() =~= listing.take(e));
    assert(t.last() == listing[e]);
    if e + 1 < listing.len() {
        lemma_offered_prefix_monotone(listing, e + 1);
    } else {
        assert(t =~= listing);
    }
}

proof fn lemma_offered_prefix_monotone(listing: Seq<(Seq<char>, PeerEntryView)>, e: int)
    requires
        0 <= e <= listing.len(),
    ensures
        offered_models(listing.take(e)).len() <= offered_models(listing).len(),
    decreases listing.len() - e,
{
    if e < listing.len() {
        lemma_offered_prefix_monotone(listing, e + 1);
        let t = listing.take(e + 1);
        assert(t.drop_last() =~= listing.take(e));
    } else {
        assert(listing.take(e) =~= listing);
    }
}

/// Law: a model id naming a 72B-class model, in either case of the
/// `b`, is priced (50_000, 150_000); one naming a 32B-class model in
/// either case and no 72B-class model is priced (20_000, 60_000);
/// anything else (5_000, 15_000).
pub proof fn law_pricing_by_class(id: Seq<u8>)
    ensures
        has_substring(id, "72b".spec_bytes()) ==> pricing_tier(id) == (50_000u64, 150_000u64),
        has_substring(id, "72B".spec_bytes()) ==> pricing_tier(id) == (50_000u64, 150_000u64),
        !has_substring(id, "72b".spec_bytes()) && !has_substring(id, "72B".spec_bytes())
            && has_substring(id, "32b".spec_bytes()) ==> pricing_tier(id) == (20_000u64, 60_000u64),
        !has_substring(id, "72b".spec_bytes()) && !has_substring(id, "72B".spec_bytes())
            && has_substring(id, "32B".spec_bytes()) ==> pricing_tier(id) == (20_000u64, 60_000u64),
        !has_substring(id, "72b".spec_bytes()) && !has_substring(id, "72B".spec_bytes())
            && !has_substring(id, "32b".spec_bytes()) && !has_substring(id, "32B".spec_bytes())
            ==> pricing_tier(id) == (5_000u64, 15_000u64),
{
}

} // verus!
