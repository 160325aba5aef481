//! Localized name extraction from a version-resource string table.
//!
//! An executable's version resource holds one string sub-block per
//! translation.  The unverified shell reads the `FileDescription` and
//! `ProductName` entries of every sub-block and hands them in as plain
//! values; this module walks them in priority order and keeps, for each of
//! the two fields, the first non-empty value found.

use vstd::prelude::*;

use crate::lang::{spec_tier, Translation};

verus! {

broadcast use Seq::lemma_filter_push;

/// The localized names collected for one executable.  Either field may be
/// absent; a missing name is not an error.
#[derive(Clone, Debug)]
pub struct AppNames {
    pub file_description: Option<String>,
    pub product_name: Option<String>,
}

/// One translation of a version resource together with the string values
/// read from its sub-block.  `None` records a failed lookup; an empty string
/// records a lookup that returned no text.
#[derive(Clone, Debug)]
pub struct TranslationEntry {
    pub translation: Translation,
    pub file_description: Option<String>,
    pub product_name: Option<String>,
}

/// The character view of an optional string.
pub open spec fn spec_str_opt(o: Option<String>) -> Option<Seq<char>> {
    match o {
        Option::None => Option::None,
        Option::Some(s) => Option::Some(s@),
    }
}

/// The first value of the walk that is present and non-empty, if any.
pub open spec fn spec_first_nonempty(vs: Seq<Option<Seq<char>>>) -> Option<Seq<char>>
    decreases vs.len(),
{
    if vs.len() == 0 {
        Option::None
    } else if vs[0] is Some && vs[0]->0.len() > 0 {
        vs[0]
    } else {
        spec_first_nonempty(vs.drop_first())
    }
}

pub broadcast proof fn lemma_first_nonempty_push(vs: Seq<Option<Seq<char>>>, x: Option<Seq<char>>)
    ensures
        #[trigger] spec_first_nonempty(vs.push(x)) == (if spec_first_nonempty(vs) is Some {
            spec_first_nonempty(vs)
        } else if x is Some && x->0.len() > 0 {
            x
        } else {
            Option::<Seq<char>>::None
        }),
    decreases vs.len(),
{
    if vs.len() == 0 {
        assert(vs.push(x)[0] == x);
        assert(vs.push(x).drop_first() =~= Seq::<Option<Seq<char>>>::empty());
        assert(spec_first_nonempty(Seq::<Option<Seq<char>>>::empty()) is None);
    } else {
        assert(vs.push(x)[0] == vs[0]);
        assert(vs.push(x).drop_first() =~= vs.drop_first().push(x));
        lemma_first_nonempty_push(vs.drop_first(), x);
    }
}

/// Walking one list of candidate values and then another finds the first
/// non-empty value of the combined walk: a value found in the earlier list
/// stands, whatever the later list holds.
pub proof fn lemma_first_nonempty_append(a: Seq<Option<Seq<char>>>, b: Seq<Option<Seq<char>>>)
    ensures
        spec_first_nonempty(a + b) == (if spec_first_nonempty(a) is Some {
            spec_first_nonempty(a)
        } else {
            spec_first_nonempty(b)
        }),
    decreases a.len(),
{
    if a.len() == 0 {
        assert(a + b =~= b);
    } else {
        assert((a + b)[0] == a[0]);
        assert((a + b).drop_first() =~= a.drop_first() + b);
        lemma_first_nonempty_append(a.drop_first(), b);
    }
}

/// Once a field has been set from a higher-priority tier, no later,
/// lower-priority candidate changes it: whenever the earlier walk found a
/// value, the combined walk returns exactly that value.
pub proof fn lemma_earlier_value_kept(earlier: Seq<Option<Seq<char>>>, later: Seq<Option<Seq<char>>>)
    ensures
        spec_first_nonempty(earlier) is Some ==> spec_first_nonempty(earlier + later)
            == spec_first_nonempty(earlier),
{
    lemma_first_nonempty_append(earlier, later);
}

/// The entries of one priority tier, in their original relative order.
pub open spec fn spec_tier_entries(es: Seq<TranslationEntry>, k: int) -> Seq<TranslationEntry> {
    es.filter(|e: TranslationEntry| spec_tier(e.translation.lang) == k)
}

/// All entries rearranged into priority order.
pub open spec fn spec_ordered_entries(es: Seq<TranslationEntry>) -> Seq<TranslationEntry> {
    spec_tier_entries(es, 0) + spec_tier_entries(es, 1) + spec_tier_entries(es, 2)
}

/// The reader's walk respects tier order: in the rearranged entries, no
/// entry ever stands before one of a strictly higher-priority tier, so every
/// simplified-Chinese sub-block is attempted before any traditional-Chinese
/// one, and every traditional-Chinese sub-block before any other, whatever
/// order the translation table stored them in.
pub proof fn lemma_entry_priority(es: Seq<TranslationEntry>)
    ensures
        forall|i: int, j: int|
            0 <= i < j < spec_ordered_entries(es).len() ==> spec_tier(
                #[trigger] spec_ordered_entries(es)[i].translation.lang,
            ) <= spec_tier(#[trigger] spec_ordered_entries(es)[j].translation.lang),
{
    broadcast use Seq::lemma_filter_pred, Seq::lemma_filter_len;

    let t0 = spec_tier_entries(es, 0);
    let t1 = spec_tier_entries(es, 1);
    let t2 = spec_tier_entries(es, 2);
    let whole = spec_ordered_entries(es);
    assert forall|i: int| 0 <= i < whole.len() implies spec_tier(
        #[trigger] whole[i].translation.lang,
    ) == (if i < t0.len() {
        0int
    } else if i < t0.len() + t1.len() {
        1int
    } else {
        2int
    }) by {
        if i < t0.len() {
            assert(whole[i] == t0[i]);
        } else if i < t0.len() + t1.len() {
            assert(whole[i] == t1[i - t0.len()]);
        } else {
            assert(whole[i] == t2[i - t0.len() - t1.len()]);
        }
    }
}

/// The `FileDescription` candidates of a walk.
pub open spec fn spec_fd_views(es: Seq<TranslationEntry>) -> Seq<Option<Seq<char>>> {
    es.map_values(|e: TranslationEntry| spec_str_opt(e.file_description))
}

/// The `ProductName` candidates of a walk.
pub open spec fn spec_pn_views(es: Seq<TranslationEntry>) -> Seq<Option<Seq<char>>> {
    es.map_values(|e: TranslationEntry| spec_str_opt(e.product_name))
}

/// Walks the entries of one tier in order and fills each still-unset field
/// with the tier's first non-empty value for it.  A field that already holds
/// a value is never overwritten.
fn scan_tier(
    entries: &Vec<TranslationEntry>,
    k: u8,
    fd: &mut Option<String>,
    pn: &mut Option<String>,
)
    ensures
        (*old(fd)) is Some ==> *final(fd) == *old(fd),
        (*old(fd)) is None ==> spec_str_opt(*final(fd)) == spec_first_nonempty(
            spec_fd_views(spec_tier_entries(entries@, k as int)),
        ),
        (*old(pn)) is Some ==> *final(pn) == *old(pn),
        (*old(pn)) is None ==> spec_str_opt(*final(pn)) == spec_first_nonempty(
            spec_pn_views(spec_tier_entries(entries@, k as int)),
        ),
{
    let n = entries.len();
    for i in 0..n
        invariant
            n == entries@.len(),
            (*old(fd)) is Some ==> *fd == *old(fd),
            (*old(fd)) is None ==> spec_str_opt(*fd) == spec_first_nonempty(
                spec_fd_views(spec_tier_entries(entries@.take(i as int), k as int)),
            ),
            (*old(pn)) is Some ==> *pn == *old(pn),
            (*old(pn)) is None ==> spec_str_opt(*pn) == spec_first_nonempty(
                spec_pn_views(spec_tier_entries(entries@.take(i as int), k as int)),
            ),
    {
        let e = &entries[i];
        proof {
            let x = entries@[i as int];
            let prev = entries@.take(i as int);
            let cur = entries@.take(i as int + 1);
            assert(prev.push(x) =~= cur);
            assert(spec_tier_entries(prev.push(x), k as int) == spec_tier_entries(cur, k as int));
            let pf = spec_tier_entries(prev, k as int);
            if spec_tier(x.translation.lang) == k as int {
                assert(spec_fd_views(pf.push(x)) =~= spec_fd_views(pf).push(
                    spec_str_opt(x.file_description),
                ));
                assert(spec_pn_views(pf.push(x)) =~= spec_pn_views(pf).push(
                    spec_str_opt(x.product_name),
                ));
                lemma_first_nonempty_push(spec_fd_views(pf), spec_str_opt(x.file_description));
                lemma_first_nonempty_push(spec_pn_views(pf), spec_str_opt(x.product_name));
            }
        }
        if crate::lang::tier_of(e.translation.lang) == k {
            if fd.is_none() {
                match e.file_description.as_ref() {
                    Option::Some(s) => {
                        if !s.as_str().is_empty() {
                            *fd = Option::Some(s.clone());
                        }
                    },
                    Option::None => {},
                }
            }
            if pn.is_none() {
                match e.product_name.as_ref() {
                    Option::Some(s) => {
                        if !s.as_str().is_empty() {
                            *pn = Option::Some(s.clone());
                        }
                    },
                    Option::None => {},
                }
            }
        }
    }
    proof {
        assert(entries@.take(n as int) =~= entries@);
    }
}

/// Collects the localized names of an executable from the string values read
/// for its translation table.  The walk visits simplified-Chinese
/// translations first, traditional-Chinese ones second and all others last,
/// keeping the table's original relative order inside each tier, and records
/// for each field the first non-empty value it meets; later, lower-priority
/// values never overwrite it.
pub fn get_app_names(entries: &Vec<TranslationEntry>) -> (r: AppNames)
    ensures
        spec_str_opt(r.file_description) == spec_first_nonempty(
            spec_fd_views(spec_ordered_entries(entries@)),
        ),
        spec_str_opt(r.product_name) == spec_first_nonempty(
            spec_pn_views(spec_ordered_entries(entries@)),
        ),
{
    let mut fd: Option<String> = Option::None;
    let mut pn: Option<String> = Option::None;
    scan_tier(entries, 0, &mut fd, &mut pn);
    scan_tier(entries, 1, &mut fd, &mut pn);
    scan_tier(entries, 2, &mut fd, &mut pn);
    proof {
        let t0 = spec_tier_entries(entries@, 0);
        let t1 = spec_tier_entries(entries@, 1);
        let t2 = spec_tier_entries(entries@, 2);
        assert(spec_fd_views(t0 + t1 + t2) =~= spec_fd_views(t0) + spec_fd_views(t1)
            + spec_fd_views(t2));
        assert(spec_pn_views(t0 + t1 + t2) =~= spec_pn_views(t0) + spec_pn_views(t1)
            + spec_pn_views(t2));
        lemma_first_nonempty_append(spec_fd_views(t0), spec_fd_views(t1));
        lemma_first_nonempty_append(spec_fd_views(t0) + spec_fd_views(t1), spec_fd_views(t2));
        assert((spec_fd_views(t0) + spec_fd_views(t1)) + spec_fd_views(t2) =~= spec_fd_views(t0)
            + spec_fd_views(t1) + spec_fd_views(t2));
        lemma_first_nonempty_append(spec_pn_views(t0), spec_pn_views(t1));
        lemma_first_nonempty_append(spec_pn_views(t0) + spec_pn_views(t1), spec_pn_views(t2));
        assert((spec_pn_views(t0) + spec_pn_views(t1)) + spec_pn_views(t2) =~= spec_pn_views(t0)
            + spec_pn_views(t1) + spec_pn_views(t2));
    }
    AppNames { file_description: fd, product_name: pn }
}

} // verus!
