use vstd::prelude::*;
use crate::article::Artikel;
use crate::article::ArtikelListe;
use crate::article::ArtikelView;
use crate::article::ArtOutput;
use crate::article::ArtOutputView;
use crate::article::sp_full_text;
use crate::article::sp_matchcode_text;
use crate::article::sp_merkmale_text;
use crate::scorer::lower_of;
use crate::scorer::lowercase;
use crate::scorer::fuzzy_score;
use crate::scorer::score_of;
use crate::text::is_blank;
use crate::text::lemma_filter_push;
use crate::text::sp_blank;

verus! {

broadcast use vstd::seq_lib::group_seq_lib_default, vstd::seq::group_seq_axioms;

/// Which projection of each record a query is matched against.
#[derive(Clone, Copy)]
pub enum SearchMode {
    Full,
    Merkmale,
    Matchcode,
}

/// The haystack a record offers under a mode.
pub open spec fn sp_projection(a: ArtikelView, mode: SearchMode) -> Seq<char> {
    match mode {
        SearchMode::Full => sp_full_text(a),
        SearchMode::Merkmale => sp_merkmale_text(a.merkmale),
        SearchMode::Matchcode => sp_matchcode_text(a),
    }
}

/// Whether a record takes part in scoring at all: under the matchcode mode
/// a record with a blank matchcode is skipped entirely.
pub open spec fn sp_eligible(a: ArtikelView, mode: SearchMode) -> bool {
    match mode {
        SearchMode::Matchcode => !sp_blank(sp_matchcode_text(a)),
        _ => true,
    }
}

/// The result entry a record contributes.
pub open spec fn sp_result_of(a: ArtikelView, score: i64) -> ArtOutputView {
    ArtOutputView { satz_id: a.satz_id, bezeich: a.bezeich01, score }
}

/// The scored candidates of a query, in catalog order: one entry per
/// eligible record the scorer matches, none for the rest.
pub open spec fn sp_candidates(cat: Seq<ArtikelView>, q: Seq<char>, mode: SearchMode) -> Seq<
    ArtOutputView,
>
    decreases cat.len(),
{
    if cat.len() == 0 {
        Seq::empty()
    } else {
        sp_candidates(cat.drop_last(), q, mode) + sp_entry(cat.last(), q, mode)
    }
}

/// What one record adds to the candidate list: nothing, or its entry.
pub open spec fn sp_entry(a: ArtikelView, q: Seq<char>, mode: SearchMode) -> Seq<ArtOutputView> {
    if sp_eligible(a, mode) && score_of(sp_projection(a, mode), q) is Some {
        seq![sp_result_of(a, score_of(sp_projection(a, mode), q).unwrap())]
    } else {
        Seq::empty()
    }
}

/// Stable insertion into a list sorted by score descending: the new entry
/// goes behind every entry whose score is at least as high.
pub open spec fn sp_insert_desc(s: Seq<ArtOutputView>, x: ArtOutputView) -> Seq<ArtOutputView>
    decreases s.len(),
{
    if s.len() == 0 {
        seq![x]
    } else if s.last().score < x.score {
        sp_insert_desc(s.drop_last(), x).push(s.last())
    } else {
        s.push(x)
    }
}

/// Stable sort by score descending: insertion sort, left to right.
pub open spec fn sp_sort_desc(s: Seq<ArtOutputView>) -> Seq<ArtOutputView>
    decreases s.len(),
{
    if s.len() == 0 {
        Seq::empty()
    } else {
        sp_insert_desc(sp_sort_desc(s.drop_last()), s.last())
    }
}

pub open spec fn sp_sorted_desc(s: Seq<ArtOutputView>) -> bool {
    forall|i: int, j: int| 0 <= i < j < s.len() ==> #[trigger] s[i].score >= #[trigger] s[j].score
}

/// At most the first hundred entries leave the engine.
pub open spec fn sp_take_100(s: Seq<ArtOutputView>) -> Seq<ArtOutputView> {
    if s.len() <= 100 {
        s
    } else {
        s.take(100)
    }
}

/// What a query returns: the candidates, stably sorted by score
/// descending, cut to the first hundred.
pub open spec fn sp_search(cat: Seq<ArtikelView>, q: Seq<char>, mode: SearchMode) -> Seq<
    ArtOutputView,
> {
    sp_take_100(sp_sort_desc(sp_candidates(cat, q, mode)))
}

/// The views of a vector of results.
pub open spec fn sp_outputs(s: Seq<ArtOutput>) -> Seq<ArtOutputView> {
    s.map_values(|o: ArtOutput| o@)
}

/// The entries whose score is exactly `v`.
pub open spec fn score_pred(v: i64) -> spec_fn(ArtOutputView) -> bool {
    |o: ArtOutputView| o.score == v
}

/// Where the stable insertion puts the new entry: behind every entry that
/// scores at least as high, ahead of the rest.
proof fn lemma_insert_desc_char(s: Seq<ArtOutputView>, x: ArtOutputView) -> (j: int)
    ensures
        0 <= j <= s.len(),
        sp_insert_desc(s, x) == s.take(j) + seq![x] + s.skip(j),
        forall|k: int| j <= k < s.len() ==> #[trigger] s[k].score < x.score,
        j > 0 ==> s[j - 1].score >= x.score,
    decreases s.len(),
{
    if s.len() == 0 {
        assert(sp_insert_desc(s, x) =~= s.take(0) + seq![x] + s.skip(0));
        0
    } else if s.last().score < x.score {
        let j = lemma_insert_desc_char(s.drop_last(), x);
        assert forall|k: int| j <= k < s.len() implies #[trigger] s[k].score < x.score by {
            if k < s.len() - 1 {
                assert(s.drop_last()[k] == s[k]);
            } else {
                assert(s[k] == s.last());
            }
        }
        if j > 0 {
            assert(s[j - 1] == s.drop_last()[j - 1]);
        }
        assert(sp_insert_desc(s, x) =~= s.take(j) + seq![x] + s.skip(j));
        j
    } else {
        assert(sp_insert_desc(s, x) =~= s.take(s.len() as int) + seq![x] + s.skip(
            s.len() as int,
        ));
        s.len() as int
    }
}

/// No entry of `s` passes `pred`: filtering gives the empty sequence.
proof fn lemma_filter_none<A>(s: Seq<A>, pred: spec_fn(A) -> bool)
    requires
        forall|k: int| 0 <= k < s.len() ==> !pred(#[trigger] s[k]),
    ensures
        s.filter(pred) == Seq::<A>::empty(),
    decreases s.len(),
{
    reveal_with_fuel(Seq::<_>::filter, 2);
    if s.len() > 0 {
        lemma_filter_none(s.drop_last(), pred);
        assert(s.filter(pred) =~= Seq::<A>::empty());
    } else {
        assert(s.filter(pred) =~= Seq::<A>::empty());
    }
}

/// The stable insertion keeps a sorted list sorted.
proof fn lemma_insert_desc_sorted(s: Seq<ArtOutputView>, x: ArtOutputView)
    requires
        sp_sorted_desc(s),
    ensures
        sp_sorted_desc(sp_insert_desc(s, x)),
        sp_insert_desc(s, x).len() == s.len() + 1,
{
    let j = lemma_insert_desc_char(s, x);
    let r = sp_insert_desc(s, x);
    assert forall|u: int, w: int| 0 <= u < w < r.len() implies #[trigger] r[u].score
        >= #[trigger] r[w].score by {
        if u < j {
            assert(r[u] == s[u]);
        } else if u == j {
            assert(r[u] == x);
        } else {
            assert(r[u] == s[u - 1]);
        }
        if w < j {
            assert(r[w] == s[w]);
        } else if w == j {
            assert(r[w] == x);
        } else {
            assert(r[w] == s[w - 1]);
        }
    }
}

/// The stable insertion moves the new entry past no entry of equal score:
/// filtering any one score out, inserting is the same as appending.
proof fn lemma_insert_desc_filter(s: Seq<ArtOutputView>, x: ArtOutputView, v: i64)
    ensures
        sp_insert_desc(s, x).filter(score_pred(v)) == s.push(x).filter(score_pred(v)),
{
    broadcast use Seq::filter_distributes_over_add;

    let j = lemma_insert_desc_char(s, x);
    let pred = score_pred(v);
    lemma_filter_push(s, pred, x);
    assert(s =~= s.take(j) + s.skip(j));
    assert(s.filter(pred) == s.take(j).filter(pred) + s.skip(j).filter(pred));
    assert(sp_insert_desc(s, x).filter(pred) == s.take(j).filter(pred) + (seq![x] + s.skip(
        j,
    )).filter(pred));
    assert((seq![x] + s.skip(j)).filter(pred) == seq![x].filter(pred) + s.skip(j).filter(pred));
    reveal_with_fuel(Seq::<_>::filter, 2);
    assert(seq![x].drop_last() =~= Seq::<ArtOutputView>::empty());
    if pred(x) {
        assert(seq![x].filter(pred) =~= seq![x]);
        lemma_filter_none(s.skip(j), pred);
        assert(sp_insert_desc(s, x).filter(pred) =~= s.filter(pred).push(x));
    } else {
        assert(seq![x].filter(pred) =~= Seq::<ArtOutputView>::empty());
        assert(sp_insert_desc(s, x).filter(pred) =~= s.filter(pred));
    }
}

/// The sort returns a sorted list of the same length.
pub proof fn lemma_sort_desc_sorted(s: Seq<ArtOutputView>)
    ensures
        sp_sorted_desc(sp_sort_desc(s)),
        sp_sort_desc(s).len() == s.len(),
    decreases s.len(),
{
    if s.len() > 0 {
        lemma_sort_desc_sorted(s.drop_last());
        lemma_insert_desc_sorted(sp_sort_desc(s.drop_last()), s.last());
    }
}

/// Stability of the sort: among the entries of any one score, the sort
/// changes nothing — their order stays the order they were scanned in.
pub proof fn lemma_sort_desc_stable(s: Seq<ArtOutputView>, v: i64)
    ensures
        sp_sort_desc(s).filter(score_pred(v)) == s.filter(score_pred(v)),
    decreases s.len(),
{
    if s.len() == 0 {
        reveal_with_fuel(Seq::<_>::filter, 1);
        assert(sp_sort_desc(s).filter(score_pred(v)) =~= s.filter(score_pred(v)));
    } else {
        lemma_sort_desc_stable(s.drop_last(), v);
        lemma_insert_desc_filter(sp_sort_desc(s.drop_last()), s.last(), v);
        lemma_filter_push(sp_sort_desc(s.drop_last()), score_pred(v), s.last());
        lemma_filter_push(s.drop_last(), score_pred(v), s.last());
        assert(s.drop_last().push(s.last()) =~= s);
    }
}

/// There are never more candidates than records.
pub proof fn lemma_candidates_len(cat: Seq<ArtikelView>, q: Seq<char>, mode: SearchMode)
    ensures
        sp_candidates(cat, q, mode).len() <= cat.len(),
    decreases cat.len(),
{
    if cat.len() > 0 {
        lemma_candidates_len(cat.drop_last(), q, mode);
    }
}

/// A search returns at most a hundred entries, and at most one per record.
pub proof fn lemma_search_len(cat: Seq<ArtikelView>, q: Seq<char>, mode: SearchMode)
    ensures
        sp_search(cat, q, mode).len() <= 100,
        sp_search(cat, q, mode).len() <= cat.len(),
{
    lemma_candidates_len(cat, q, mode);
    lemma_sort_desc_sorted(sp_candidates(cat, q, mode));
}

/// A search returns its entries sorted by score descending.
pub proof fn lemma_search_sorted(cat: Seq<ArtikelView>, q: Seq<char>, mode: SearchMode)
    ensures
        sp_sorted_desc(sp_search(cat, q, mode)),
{
    lemma_sort_desc_sorted(sp_candidates(cat, q, mode));
    let t = sp_sort_desc(sp_candidates(cat, q, mode));
    assert forall|i: int, j: int|
        0 <= i < j < sp_search(cat, q, mode).len() implies #[trigger] sp_search(
        cat,
        q,
        mode,
    )[i].score >= #[trigger] sp_search(cat, q, mode)[j].score by {
        assert(sp_search(cat, q, mode)[i] == t[i]);
        assert(sp_search(cat, q, mode)[j] == t[j]);
    }
}

/// Stability of a search: among the returned entries of any one score, the
/// order is the catalog order; truncation only cuts the list short.
pub proof fn lemma_search_stable(cat: Seq<ArtikelView>, q: Seq<char>, mode: SearchMode, v: i64)
    ensures
        sp_search(cat, q, mode).filter(score_pred(v)).is_prefix_of(
            sp_candidates(cat, q, mode).filter(score_pred(v)),
        ),
{
    broadcast use Seq::filter_distributes_over_add;

    lemma_sort_desc_stable(sp_candidates(cat, q, mode), v);
    let t = sp_sort_desc(sp_candidates(cat, q, mode));
    let r = sp_search(cat, q, mode);
    if t.len() <= 100 {
        assert(r == t);
    } else {
        assert(t =~= t.take(100) + t.skip(100));
        assert(t.filter(score_pred(v)) == t.take(100).filter(score_pred(v)) + t.skip(100).filter(
            score_pred(v),
        ));
    }
}

/// An empty catalog answers every query with the empty list.
pub proof fn lemma_search_empty(q: Seq<char>, mode: SearchMode)
    ensures
        sp_search(Seq::<ArtikelView>::empty(), q, mode) == Seq::<ArtOutputView>::empty(),
{
}

/// Joining two blank strings with a space gives a blank string.
proof fn lemma_blank_join(m1: Seq<char>, m2: Seq<char>)
    requires
        sp_blank(m1),
        sp_blank(m2),
    ensures
        sp_blank(m1 + " "@ + m2),
{
    reveal_strlit(" ");
    let t = m1 + " "@ + m2;
    assert forall|i: int| 0 <= i < t.len() implies crate::text::is_space_char(
        #[trigger] t[i],
    ) by {
        if i < m1.len() {
            assert(t[i] == m1[i]);
        } else if i == m1.len() {
            assert(t[i] == ' ');
        } else {
            assert(t[i] == m2[i - m1.len() - 1]);
        }
    }
}

/// Scanning two catalog parts one after the other gives the candidates of
/// the first, then those of the second.
proof fn lemma_candidates_add(
    a: Seq<ArtikelView>,
    b: Seq<ArtikelView>,
    q: Seq<char>,
    mode: SearchMode,
)
    ensures
        sp_candidates(a + b, q, mode) == sp_candidates(a, q, mode) + sp_candidates(b, q, mode),
    decreases b.len(),
{
    if b.len() == 0 {
        assert(a + b =~= a);
        assert(sp_candidates(a, q, mode) + sp_candidates(b, q, mode) =~= sp_candidates(
            a,
            q,
            mode,
        ));
    } else {
        lemma_candidates_add(a, b.drop_last(), q, mode);
        assert((a + b).drop_last() =~= a + b.drop_last());
        assert((a + b).last() == b.last());
        assert(sp_candidates(a, q, mode) + sp_candidates(b, q, mode) =~= sp_candidates(
            a,
            q,
            mode,
        ) + (sp_candidates(b.drop_last(), q, mode) + sp_entry(b.last(), q, mode)));
    }
}

/// A record whose two match fields are both empty or white space never
/// shows up in matchcode-mode results: dropping it from the catalog
/// changes nothing about any matchcode query.
pub proof fn lemma_blank_matchcode_excluded(cat: Seq<ArtikelView>, q: Seq<char>, i: int)
    requires
        0 <= i < cat.len(),
        sp_blank(cat[i].match01),
        sp_blank(cat[i].match02),
    ensures
        sp_search(cat, q, SearchMode::Matchcode) == sp_search(
            cat.remove(i),
            q,
            SearchMode::Matchcode,
        ),
{
    let mode = SearchMode::Matchcode;
    lemma_blank_join(cat[i].match01, cat[i].match02);
    assert(!sp_eligible(cat[i], mode));
    let one = seq![cat[i]];
    assert(one.drop_last() =~= Seq::<ArtikelView>::empty());
    assert(one.last() == cat[i]);
    assert(sp_candidates(Seq::<ArtikelView>::empty(), q, mode) == Seq::<ArtOutputView>::empty());
    assert(sp_candidates(one, q, mode) =~= sp_entry(cat[i], q, mode));
    assert(sp_entry(cat[i], q, mode) =~= Seq::<ArtOutputView>::empty());
    assert(cat =~= (cat.take(i) + one) + cat.skip(i + 1));
    assert(cat.remove(i) =~= cat.take(i) + cat.skip(i + 1));
    lemma_candidates_add(cat.take(i) + one, cat.skip(i + 1), q, mode);
    lemma_candidates_add(cat.take(i), one, q, mode);
    lemma_candidates_add(cat.take(i), cat.skip(i + 1), q, mode);
    assert(sp_candidates(cat, q, mode) =~= sp_candidates(cat.remove(i), q, mode));
}

/// The stable insertion of one entry, on vectors.
fn insert_desc(out: &mut Vec<ArtOutput>, x: ArtOutput)
    ensures
        sp_outputs(final (out)@) == sp_insert_desc(sp_outputs(old(out)@), x@),
{
    let mut j: usize = out.len();
    while j > 0 && out[j - 1].score < x.score
        invariant
            j <= out@.len(),
            forall|k: int| j <= k < out@.len() ==> (#[trigger] out@[k]).score < x.score,
        decreases j,
    {
        j = j - 1;
    }
    proof {
        let s = sp_outputs(out@);
        let jj = lemma_insert_desc_char(s, x@);
        // the two positions agree: both lie right behind the last entry
        // whose score is at least as high
        assert(s.len() == out@.len());
        if jj < j {
            assert(s[j - 1] == out@[j - 1]@);
            assert(s[j - 1].score < x@.score);
            assert(false);
        }
        if j < jj {
            assert(s[jj - 1] == out@[jj - 1]@);
            assert((out@[jj - 1]).score < x.score);
            assert(false);
        }
        assert(sp_insert_desc(s, x@) == s.take(j as int) + seq![x@] + s.skip(j as int));
    }
    out.insert(j, x);
    proof {
        let s = sp_outputs(old(out)@);
        assert(sp_outputs(out@) =~= s.take(j as int) + seq![x@] + s.skip(j as int));
    }
}

/// One record's contribution, appended to the running candidate list.
fn push_entry(cand: &mut Vec<ArtOutput>, a: &Artikel, q: &str, mode: SearchMode)
    ensures
        sp_outputs(final (cand)@) == sp_outputs(old(cand)@) + sp_entry(a@, q@, mode),
{
    let eligible: bool = match mode {
        SearchMode::Matchcode => {
            let mc = a.get_string_matchcode();
            !is_blank(mc.as_str())
        },
        _ => true,
    };
    if eligible {
        let hay: String = match mode {
            SearchMode::Full => a.get_string(),
            SearchMode::Merkmale => a.get_string_merkmale(),
            SearchMode::Matchcode => a.get_string_matchcode(),
        };
        assert(hay@ == sp_projection(a@, mode));
        match fuzzy_score(hay.as_str(), q) {
            Some(score) => {
                let o = ArtOutput::new(a.satz_id.clone(), a.bezeich01.clone(), score);
                cand.push(o);
                proof {
                    assert(sp_outputs(cand@) =~= sp_outputs(old(cand)@) + sp_entry(
                        a@,
                        q@,
                        mode,
                    ));
                }
            },
            None => {
                proof {
                    assert(sp_outputs(cand@) =~= sp_outputs(old(cand)@) + sp_entry(
                        a@,
                        q@,
                        mode,
                    ));
                }
            },
        }
    } else {
        proof {
            assert(sp_outputs(cand@) =~= sp_outputs(old(cand)@) + sp_entry(a@, q@, mode));
        }
    }
}

/// Scan the catalog, score every record, sort the hits by score descending
/// keeping the scan order among ties, and cut to the first hundred.
fn run_search(list: &ArtikelListe, q: &str, mode: SearchMode) -> (r: Vec<ArtOutput>)
    ensures
        sp_outputs(r@) == sp_search(list@, q@, mode),
{
    let n = list.artikel_liste.len();
    let mut cand: Vec<ArtOutput> = Vec::new();
    proof {
        assert(sp_outputs(cand@) =~= sp_candidates(list@.take(0), q@, mode));
    }
    let mut i: usize = 0;
    while i < n
        invariant
            n == list.artikel_liste@.len(),
            i <= n,
            sp_outputs(cand@) == sp_candidates(list@.take(i as int), q@, mode),
        decreases n - i,
    {
        let a = &list.artikel_liste[i];
        push_entry(&mut cand, a, q, mode);
        proof {
            assert(list@.take(i + 1).drop_last() =~= list@.take(i as int));
            assert(list@.take(i + 1).last() == list@[i as int]);
            assert(a@ == list@[i as int]);
        }
        i = i + 1;
    }
    proof {
        assert(list@.take(n as int) =~= list@);
    }
    let ghost orig = sp_outputs(cand@);
    let mut out: Vec<ArtOutput> = Vec::new();
    proof {
        assert(orig.take(0) =~= Seq::<ArtOutputView>::empty());
        assert(orig.skip(0) =~= sp_outputs(cand@));
    }
    while cand.len() > 0
        invariant
            cand@.len() <= orig.len(),
            sp_outputs(out@) == sp_sort_desc(orig.take(orig.len() - cand@.len())),
            sp_outputs(cand@) == orig.skip(orig.len() - cand@.len()),
        decreases cand.len(),
    {
        let ghost d = orig.len() - cand@.len();
        let ghost pre = cand@;
        let x = cand.remove(0);
        insert_desc(&mut out, x);
        proof {
            assert(sp_outputs(pre)[0] == pre[0]@);
            assert(x@ == orig[d]);
            assert forall|m: int| 0 <= m < cand@.len() implies sp_outputs(cand@)[m] == orig.skip(
                d + 1,
            )[m] by {
                assert(cand@[m] == pre[m + 1]);
                assert(sp_outputs(pre)[m + 1] == pre[m + 1]@);
            }
            assert(sp_outputs(cand@) =~= orig.skip(d + 1));
            assert(orig.take(d + 1).drop_last() =~= orig.take(d));
            assert(orig.take(d + 1).last() == orig[d]);
        }
    }
    proof {
        assert(orig.take(orig.len() as int) =~= orig);
    }
    out.truncate(100);
    proof {
        let t = sp_sort_desc(orig);
        if t.len() > 100 {
            assert(sp_outputs(out@) =~= t.take(100));
        }
    }
    out
}

/// Full-text search: the query is lower-cased, every record is scored over
/// the full projection, and the hits come back ranked. An empty query
/// matches every record with score 0 (the scorer's documented behaviour for
/// an empty pattern), so it returns the first hundred records in catalog
/// order; the same holds for the other two modes.
pub fn search_article(list: &ArtikelListe, query: &str) -> (r: Vec<ArtOutput>)
    ensures
        sp_outputs(r@) == sp_search(list@, lower_of(query@), SearchMode::Full),
{
    let q = lowercase(query);
    run_search(list, q.as_str(), SearchMode::Full)
}

/// Attributes-only search: as `search_article`, over the attribute
/// projection.
pub fn search_merkmal(list: &ArtikelListe, query: &str) -> (r: Vec<ArtOutput>)
    ensures
        sp_outputs(r@) == sp_search(list@, lower_of(query@), SearchMode::Merkmale),
{
    let q = lowercase(query);
    run_search(list, q.as_str(), SearchMode::Merkmale)
}

/// Matchcode search: as `search_article`, over the matchcode projection;
/// records with a blank matchcode are skipped.
pub fn search_matchcode(list: &ArtikelListe, query: &str) -> (r: Vec<ArtOutput>)
    ensures
        sp_outputs(r@) == sp_search(list@, lower_of(query@), SearchMode::Matchcode),
{
    let q = lowercase(query);
    run_search(list, q.as_str(), SearchMode::Matchcode)
}

} // verus!
