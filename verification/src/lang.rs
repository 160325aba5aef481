//! Language identifiers of version-resource translation tables.
//!
//! A translation is a (language id, code page) pair.  The language id packs a
//! primary language into its low ten bits and a sublanguage into the rest;
//! simplified and traditional Chinese are told apart by the sublanguage.

use vstd::prelude::*;

verus! {

broadcast use Seq::lemma_filter_push, Seq::lemma_filter_pred, Seq::lemma_filter_len;

/// One entry of an executable's version-resource translation table.
#[derive(Clone, Copy, Debug, PartialEq, Eq, Structural)]
pub struct Translation {
    pub lang: u16,
    pub codepage: u16,
}

/// The sublanguage bits of a language id.
pub fn sub_lang(lang: u16) -> (r: u16)
    ensures
        r == lang >> 10,
{
    lang >> 10
}

/// The primary-language bits of a language id.
pub fn primary_lang(lang: u16) -> (r: u16)
    ensures
        r == (lang & 0x3ff),
{
    lang & 0x3ff
}

/// Whether a language id names a simplified-Chinese locale.
pub open spec fn spec_is_simplified_chinese(lang: u16) -> bool {
    (lang & 0x3ff) == 0x04 && (lang >> 10) == 0x02
}

/// Whether a language id names a traditional-Chinese locale.
pub open spec fn spec_is_traditional_chinese(lang: u16) -> bool {
    (lang & 0x3ff) == 0x04 && (lang >> 10) == 0x01
}

pub fn is_simplified_chinese(lang: u16) -> (r: bool)
    ensures
        r == spec_is_simplified_chinese(lang),
{
    primary_lang(lang) == 0x04 && sub_lang(lang) == 0x02
}

pub fn is_traditional_chinese(lang: u16) -> (r: bool)
    ensures
        r == spec_is_traditional_chinese(lang),
{
    primary_lang(lang) == 0x04 && sub_lang(lang) == 0x01
}

/// The priority tier of a language id: simplified Chinese first, traditional
/// Chinese second, everything else last.
pub open spec fn spec_tier(lang: u16) -> int {
    if spec_is_simplified_chinese(lang) {
        0
    } else if spec_is_traditional_chinese(lang) {
        1
    } else {
        2
    }
}

/// The translations of one tier, in their original relative order.
pub open spec fn spec_tier_translations(ts: Seq<Translation>, k: int) -> Seq<Translation> {
    ts.filter(|t: Translation| spec_tier(t.lang) == k)
}

/// All translations rearranged into priority order: tier by tier, keeping the
/// original relative order inside each tier.
pub open spec fn spec_ordered_translations(ts: Seq<Translation>) -> Seq<Translation> {
    spec_tier_translations(ts, 0) + spec_tier_translations(ts, 1) + spec_tier_translations(ts, 2)
}

pub(crate) fn tier_of(lang: u16) -> (k: u8)
    ensures
        k as int == spec_tier(lang),
{
    if is_simplified_chinese(lang) {
        0
    } else if is_traditional_chinese(lang) {
        1
    } else {
        2
    }
}

/// Rearranges a translation table into the order in which its localized
/// string blocks are to be read: simplified-Chinese locales first, then
/// traditional-Chinese locales, then all others, each tier keeping the
/// table's original relative order.
pub fn order_translations(ts: &Vec<Translation>) -> (r: Vec<Translation>)
    ensures
        r@ == spec_ordered_translations(ts@),
{
    let mut first: Vec<Translation> = Vec::new();
    let mut second: Vec<Translation> = Vec::new();
    let mut third: Vec<Translation> = Vec::new();
    let n = ts.len();
    for i in 0..n
        invariant
            n == ts@.len(),
            first@ == spec_tier_translations(ts@.take(i as int), 0),
            second@ == spec_tier_translations(ts@.take(i as int), 1),
            third@ == spec_tier_translations(ts@.take(i as int), 2),
    {
        let t = ts[i];
        proof {
            let x = ts@[i as int];
            let prev = ts@.take(i as int);
            let cur = ts@.take(i as int + 1);
            assert(prev.push(x) =~= cur);
            assert(spec_tier_translations(prev.push(x), 0) == spec_tier_translations(cur, 0));
            assert(spec_tier_translations(prev.push(x), 1) == spec_tier_translations(cur, 1));
            assert(spec_tier_translations(prev.push(x), 2) == spec_tier_translations(cur, 2));
        }
        let k = tier_of(t.lang);
        if k == 0 {
            first.push(t);
        } else if k == 1 {
            second.push(t);
        } else {
            third.push(t);
        }
    }
    proof {
        assert(ts@.take(n as int) =~= ts@);
    }
    let mut r = first;
    r.append(&mut second);
    r.append(&mut third);
    r
}

/// Tier order is respected: in the rearranged table, no translation ever
/// stands before one of a strictly higher-priority tier.  Reading the
/// rearranged table front to back therefore attempts every
/// simplified-Chinese block before any traditional-Chinese block, and every
/// traditional-Chinese block before any other.
pub proof fn lemma_translation_priority(ts: Seq<Translation>)
    ensures
        forall|i: int, j: int|
            0 <= i < j < spec_ordered_translations(ts).len() ==> spec_tier(
                #[trigger] spec_ordered_translations(ts)[i].lang,
            ) <= spec_tier(#[trigger] spec_ordered_translations(ts)[j].lang),
{
    let t0 = spec_tier_translations(ts, 0);
    let t1 = spec_tier_translations(ts, 1);
    let t2 = spec_tier_translations(ts, 2);
    let whole = spec_ordered_translations(ts);
    assert forall|i: int| 0 <= i < whole.len() implies spec_tier(#[trigger] whole[i].lang) == (
    if i < t0.len() {
        0int
    } else if i < t0.len() + t1.len() {
        1int
    } else {
        2int
    }) by {
        if i < t0.len() {
            assert(whole[i] == t0[i]);
        } else if i < t0.len() + t1.len() {
            assert(whole[i] == t1[i - t0.len()]);
        } else {
            assert(whole[i] == t2[i - t0.len() - t1.len()]);
        }
    }
}

} // verus!
