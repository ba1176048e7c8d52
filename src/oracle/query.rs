//! Retrieval over the knowledge store: every keyword of a query is looked up
//! by name; hits are merged without duplicates by name and path. When no
//! keyword matches, a sample of the store is returned instead, so a query
//! against a non-empty store is never answered with nothing.
use crate::oracle::store::{NodeRef, OracleStore, StoreError};
use crate::text::{
    char_is_whitespace, chars_of, is_ws, push_chars, push_str, signed_decimal,
    signed_decimal_of, string_of, string_views, strings_of, views,
};
use vstd::prelude::*;

verus! {

/// How a result was found: by name (score 1.0), or as a sample of the store
/// when nothing matched (score 0.5).
#[derive(Debug, Clone, Copy, PartialEq, Eq, Structural)]
pub enum MatchKind {
    Lexical,
    Sample,
}

#[derive(Debug, Clone)]
pub struct QueryResult {
    pub name: String,
    pub path: String,
    pub kind: MatchKind,
    pub snippet: String,
}

/// Name, path, kind, snippet.
pub type ResultView = (Seq<char>, Seq<char>, MatchKind, Seq<char>);

pub open spec fn result_view(r: QueryResult) -> ResultView {
    (r.name@, r.path@, r.kind, r.snippet@)
}

pub open spec fn result_views(v: Seq<QueryResult>) -> Seq<ResultView> {
    v.map_values(|r: QueryResult| result_view(r))
}

/// The snippet of a hit: `[<kind>] id=<id>`.
pub open spec fn hit_snippet(h: NodeRef) -> Seq<char> {
    "["@ + h.node_type@ + "] id="@ + signed_decimal(h.id as int)
}

pub open spec fn hit_view(h: NodeRef, k: MatchKind) -> ResultView {
    (h.name@, h.path@, k, hit_snippet(h))
}

/// `acc` already has a result with `h`'s name and path.
pub open spec fn has_entry(acc: Seq<ResultView>, h: NodeRef) -> bool {
    exists|i: int| 0 <= i < acc.len() && (#[trigger] acc[i]).0 == h.name@ && acc[i].1 == h.path@
}

pub open spec fn add_hits(acc: Seq<ResultView>, hs: Seq<NodeRef>) -> Seq<ResultView>
    decreases hs.len(),
{
    if hs.len() == 0 {
        acc
    } else {
        let a = add_hits(acc, hs.drop_last());
        if has_entry(a, hs.last()) {
            a
        } else {
            a.push(hit_view(hs.last(), MatchKind::Lexical))
        }
    }
}

/// The hits of all lookups, in order, without repeating a name and path.
pub open spec fn lexical_results(lists: Seq<Seq<NodeRef>>) -> Seq<ResultView>
    decreases lists.len(),
{
    if lists.len() == 0 {
        seq![]
    } else {
        add_hits(lexical_results(lists.drop_last()), lists.last())
    }
}

/// The pieces of `s` between whitespace, empty pieces included.
pub open spec fn ws_pieces(s: Seq<char>) -> Seq<Seq<char>>
    decreases s.len(),
{
    if s.len() == 0 {
        seq![seq![]]
    } else {
        let p = ws_pieces(s.drop_last());
        if !is_ws(s.last()) {
            p.update(p.len() - 1, p.last().push(s.last()))
        } else {
            p.push(seq![])
        }
    }
}

/// The pieces longer than two characters, in order.
pub open spec fn long_words(ps: Seq<Seq<char>>) -> Seq<Seq<char>>
    decreases ps.len(),
{
    if ps.len() == 0 {
        seq![]
    } else if ps.last().len() > 2 {
        long_words(ps.drop_last()).push(ps.last())
    } else {
        long_words(ps.drop_last())
    }
}

/// The keywords of a query: its words longer than two characters.
pub open spec fn query_words(text: Seq<char>) -> Seq<Seq<char>> {
    long_words(ws_pieces(text))
}

proof fn lemma_ws_pieces_nonempty(s: Seq<char>)
    ensures
        ws_pieces(s).len() >= 1,
    decreases s.len(),
{
    if s.len() > 0 {
        lemma_ws_pieces_nonempty(s.drop_last());
    }
}

proof fn lemma_add_hits_lexical(acc: Seq<ResultView>, hs: Seq<NodeRef>)
    requires
        forall|i: int| 0 <= i < acc.len() ==> (#[trigger] acc[i]).2 == MatchKind::Lexical,
    ensures
        forall|i: int| 0 <= i < add_hits(acc, hs).len() ==> (#[trigger] add_hits(acc, hs)[i]).2 == MatchKind::Lexical,
    decreases hs.len(),
{
    if hs.len() > 0 {
        lemma_add_hits_lexical(acc, hs.drop_last());
    }
}

proof fn lemma_lexical_kind(lists: Seq<Seq<NodeRef>>)
    ensures
        forall|i: int| 0 <= i < lexical_results(lists).len() ==> (#[trigger] lexical_results(lists)[i]).2 == MatchKind::Lexical,
    decreases lists.len(),
{
    if lists.len() > 0 {
        lemma_lexical_kind(lists.drop_last());
        lemma_add_hits_lexical(lexical_results(lists.drop_last()), lists.last());
    }
}

/// The keywords of a query.
pub fn query_keywords(text: &str) -> (r: Vec<String>)
    ensures
        string_views(r@) == query_words(text@),
{
    let s = chars_of(text);
    let mut done: Vec<Vec<char>> = Vec::new();
    let mut cur: Vec<char> = Vec::new();
    let mut i: usize = 0;
    assert(s@.subrange(0, 0) =~= Seq::<char>::empty());
    assert(views(done@).push(cur@) =~= seq![Seq::<char>::empty()]);
    while i < s.len()
        invariant
            i <= s.len(),
            views(done@).push(cur@) == ws_pieces(s@.subrange(0, i as int)),
        decreases s.len() - i,
    {
        let c = s[i];
        let ghost pre = s@.subrange(0, i as int);
        proof {
            assert(s@.subrange(0, i + 1).drop_last() =~= pre);
            assert(s@.subrange(0, i + 1).last() == c);
            lemma_ws_pieces_nonempty(pre);
        }
        if !char_is_whitespace(c) {
            cur.push(c);
            proof {
                let p = ws_pieces(pre);
                assert(views(done@).push(cur@) =~= p.update(p.len() - 1, p.last().push(c)));
            }
        } else {
            let ghost old_done = views(done@);
            let ghost old_cur = cur@;
            done.push(cur);
            cur = Vec::new();
            proof {
                assert(views(done@) =~= old_done.push(old_cur));
                assert(views(done@).push(cur@) =~= ws_pieces(pre).push(seq![]));
            }
        }
        i = i + 1;
    }
    done.push(cur);
    assert(s@.subrange(0, i as int) =~= s@);
    let ghost ps = ws_pieces(s@);
    let mut words: Vec<Vec<char>> = Vec::new();
    let mut k: usize = 0;
    while k < done.len()
        invariant
            k <= done.len(),
            views(done@) == ps,
            views(words@) == long_words(ps.subrange(0, k as int)),
        decreases done.len() - k,
    {
        proof {
            assert(ps.subrange(0, k + 1).drop_last() =~= ps.subrange(0, k as int));
            assert(ps.subrange(0, k + 1).last() == done@[k as int]@);
        }
        if done[k].len() > 2 {
            let ghost prev = views(words@);
            words.push(done[k].clone());
            assert(views(words@) =~= prev.push(done@[k as int]@));
        }
        k = k + 1;
    }
    assert(ps.subrange(0, k as int) =~= ps);
    strings_of(&words)
}

fn hit_result(h: &NodeRef, kind: MatchKind) -> (r: QueryResult)
    ensures
        result_view(r) == hit_view(*h, kind),
{
    let mut snip = chars_of("[");
    push_str(&mut snip, h.node_type.as_str());
    push_str(&mut snip, "] id=");
    push_chars(&mut snip, &signed_decimal_of(h.id));
    QueryResult { name: h.name.clone(), path: h.path.clone(), kind, snippet: string_of(&snip) }
}

fn holds_entry(acc: &Vec<QueryResult>, h: &NodeRef) -> (r: bool)
    ensures
        r == has_entry(result_views(acc@), *h),
{
    let ghost rv = result_views(acc@);
    let mut i: usize = 0;
    while i < acc.len()
        invariant
            i <= acc.len(),
            rv == result_views(acc@),
            forall|j: int| 0 <= j < i ==> !((#[trigger] rv[j]).0 == h.name@ && rv[j].1 == h.path@),
        decreases acc.len() - i,
    {
        assert(rv[i as int] == result_view(acc@[i as int]));
        if acc[i].name == h.name && acc[i].path == h.path {
            return true;
        }
        i = i + 1;
    }
    false
}

/// The results of the lookups (one list of hits per keyword, in keyword
/// order): each hit once by name and path, in order of discovery.
pub fn merge_lexical(lookups: &Vec<Vec<NodeRef>>) -> (r: Vec<QueryResult>)
    ensures
        result_views(r@) == lexical_results(lookups@.map_values(|l: Vec<NodeRef>| l@)),
{
    let ghost ls = lookups@.map_values(|l: Vec<NodeRef>| l@);
    let mut acc: Vec<QueryResult> = Vec::new();
    let mut i: usize = 0;
    while i < lookups.len()
        invariant
            i <= lookups.len(),
            ls == lookups@.map_values(|l: Vec<NodeRef>| l@),
            result_views(acc@) == lexical_results(ls.subrange(0, i as int)),
        decreases lookups.len() - i,
    {
        let hs = &lookups[i];
        let ghost base = result_views(acc@);
        proof {
            assert(ls.subrange(0, i + 1).drop_last() =~= ls.subrange(0, i as int));
            assert(ls.subrange(0, i + 1).last() == hs@);
            assert(hs@.subrange(0, 0) =~= Seq::<NodeRef>::empty());
        }
        let mut j: usize = 0;
        while j < hs.len()
            invariant
                j <= hs.len(),
                result_views(acc@) == add_hits(base, hs@.subrange(0, j as int)),
            decreases hs.len() - j,
        {
            proof {
                assert(hs@.subrange(0, j + 1).drop_last() =~= hs@.subrange(0, j as int));
                assert(hs@.subrange(0, j + 1).last() == hs@[j as int]);
            }
            if !holds_entry(&acc, &hs[j]) {
                let res = hit_result(&hs[j], MatchKind::Lexical);
                let ghost prev = acc@;
                acc.push(res);
                assert(result_views(acc@) =~= result_views(prev).push(result_view(res)));
            }
            j = j + 1;
        }
        assert(hs@.subrange(0, j as int) =~= hs@);
        i = i + 1;
    }
    assert(ls.subrange(0, i as int) =~= ls);
    acc
}

/// Every node of a sample, as a sample result.
pub fn sample_results(nodes: &Vec<NodeRef>) -> (r: Vec<QueryResult>)
    ensures
        result_views(r@) == nodes@.map_values(|h: NodeRef| hit_view(h, MatchKind::Sample)),
{
    let mut acc: Vec<QueryResult> = Vec::new();
    let mut i: usize = 0;
    while i < nodes.len()
        invariant
            i <= nodes.len(),
            result_views(acc@) == nodes@.subrange(0, i as int).map_values(
                |h: NodeRef| hit_view(h, MatchKind::Sample),
            ),
        decreases nodes.len() - i,
    {
        let res = hit_result(&nodes[i], MatchKind::Sample);
        let ghost prev = acc@;
        acc.push(res);
        proof {
            let f = |h: NodeRef| hit_view(h, MatchKind::Sample);
            assert(result_views(acc@) =~= result_views(prev).push(result_view(res)));
            assert(nodes@.subrange(0, i + 1).map_values(f) =~= nodes@.subrange(0, i as int).map_values(f).push(f(nodes@[i as int])));
        }
        i = i + 1;
    }
    assert(nodes@.subrange(0, i as int) =~= nodes@);
    acc
}

/// Size of the sample returned when nothing matches.
pub const SAMPLE_SIZE: usize = 20;

pub struct QueryEngine {
    store: OracleStore,
}

impl QueryEngine {
    /// Opens the store at `db_path`. The vector index at `_vector_uri` is not
    /// consulted.
    pub fn new(db_path: &str, _vector_uri: &str) -> (r: Result<QueryEngine, StoreError>) {
        match OracleStore::open(db_path) {
            Ok(store) => Ok(QueryEngine { store }),
            Err(e) => Err(e),
        }
    }

    /// An engine over an open store.
    pub fn with_store(store: OracleStore) -> (r: QueryEngine) {
        QueryEngine { store }
    }

    /// The matches of a query: name hits for its keywords, merged without
    /// duplicates, or else a sample of at most twenty nodes. A lookup that
    /// fails counts as no match; the store is sampled only when nothing
    /// matched.
    pub fn query(&mut self, text: &str) -> (r: Vec<QueryResult>)
        ensures
            (forall|i: int| 0 <= i < r.len() ==> (#[trigger] r[i]).kind == MatchKind::Lexical) || (
            r.len() <= SAMPLE_SIZE && forall|i: int| 0 <= i < r.len() ==> (#[trigger] r[i]).kind == MatchKind::Sample),
    {
        let keywords = query_keywords(text);
        let mut lookups: Vec<Vec<NodeRef>> = Vec::new();
        let mut i: usize = 0;
        while i < keywords.len()
            invariant
                i <= keywords.len(),
            decreases keywords.len() - i,
        {
            match self.store.search_nodes(keywords[i].as_str()) {
                Ok(hits) => lookups.push(hits),
                Err(_) => lookups.push(Vec::new()),
            }
            i = i + 1;
        }
        if has_name_hits(&lookups) {
            choose_results(&lookups, None)
        } else {
            match self.store.get_all_nodes(SAMPLE_SIZE) {
                Ok(nodes) => choose_results(&lookups, Some(&nodes)),
                Err(_) => choose_results(&lookups, None),
            }
        }
    }
}

/// Whether any lookup returned a hit, so that name results exist.
pub fn has_name_hits(lookups: &Vec<Vec<NodeRef>>) -> (r: bool)
    ensures
        r == (lexical_results(lookups@.map_values(|l: Vec<NodeRef>| l@)).len() > 0),
{
    let r = merge_lexical(lookups);
    r.len() > 0
}

/// The answer to a query from its lookups and, when taken, a sample of the
/// store: the merged name hits if there are any, else the sample, else
/// nothing. A non-empty sample therefore never gives an empty answer.
pub fn choose_results(lookups: &Vec<Vec<NodeRef>>, sample: Option<&Vec<NodeRef>>) -> (r: Vec<QueryResult>)
    ensures
        result_views(r@) == ({
            let lex = lexical_results(lookups@.map_values(|l: Vec<NodeRef>| l@));
            if lex.len() > 0 {
                lex
            } else {
                match sample {
                    Some(s) => s@.map_values(|h: NodeRef| hit_view(h, MatchKind::Sample)),
                    None => seq![],
                }
            }
        }),
        (forall|i: int| 0 <= i < r.len() ==> (#[trigger] r[i]).kind == MatchKind::Lexical) || (
        r.len() <= (match sample {
            Some(s) => s.len(),
            None => 0,
        }) && forall|i: int| 0 <= i < r.len() ==> (#[trigger] r[i]).kind == MatchKind::Sample),
        sample matches Some(s) && s.len() > 0 ==> r.len() > 0,
{
    let lexical = merge_lexical(lookups);
    if lexical.len() > 0 {
        proof {
            lemma_lexical_kind(lookups@.map_values(|l: Vec<NodeRef>| l@));
            assert forall|i: int| 0 <= i < lexical.len() implies (#[trigger] lexical[i]).kind == MatchKind::Lexical by {
                assert(result_views(lexical@)[i] == result_view(lexical@[i]));
            }
        }
        return lexical;
    }
    match sample {
        Some(nodes) => {
            let r = sample_results(nodes);
            proof {
                let f = |h: NodeRef| hit_view(h, MatchKind::Sample);
                assert(result_views(r@).len() == r@.len());
                assert(nodes@.map_values(f).len() == nodes@.len());
                assert forall|i: int| 0 <= i < r.len() implies (#[trigger] r[i]).kind == MatchKind::Sample by {
                    assert(result_views(r@)[i] == result_view(r@[i]));
                    assert(nodes@.map_values(f)[i] == f(nodes@[i]));
                }
            }
            r
        },
        None => {
            let r: Vec<QueryResult> = Vec::new();
            assert(result_views(r@) =~= Seq::<ResultView>::empty());
            r
        },
    }
}

} // verus!
