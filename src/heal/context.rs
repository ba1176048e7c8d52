//! Context assembly for one repair attempt: a window of source lines around
//! the failure and references to declarations that the error message names.
use crate::heal::parser_rust::TestFailure;
use crate::oracle::store::{NodeRef, OracleStore};
use std::path::PathBuf;
use crate::text::{
    insert_sorted, strictly_sorted,
    chars_of, holds_chars, lines, lines_of, push_chars, push_str, same_chars, string_of,
    string_views, strings_of, views,
};
use vstd::prelude::*;

verus! {

/// What a repair attempt is told about its failure.
#[derive(Debug)]
pub struct HealContext {
    pub failure: TestFailure,
    pub source_snippet: String,
    pub related_signatures: Vec<String>,
}

/// Most references to related declarations that a context carries.
pub const MAX_RELATED: usize = 5;

/// Lines joined with `\n` between them.
pub open spec fn join_lines(ls: Seq<Seq<char>>) -> Seq<char>
    decreases ls.len(),
{
    if ls.len() == 0 {
        seq![]
    } else if ls.len() == 1 {
        ls[0]
    } else {
        join_lines(ls.drop_last()) + "\n"@ + ls.last()
    }
}

/// First line of the window: five before the failing line, or the start.
pub open spec fn window_start(line: Option<u32>) -> int {
    match line {
        Some(l) => if l >= 5 {
            l - 5
        } else {
            0
        },
        None => 0,
    }
}

/// End of the window (exclusive): ten after the failing line, or fifty lines
/// when the line is unknown, never past the end of the file.
pub open spec fn window_end(n: int, line: Option<u32>) -> int {
    let e = match line {
        Some(l) => l + 10,
        None => 50,
    };
    if e < n {
        e
    } else {
        n
    }
}

/// The source lines shown for a failure at `line` in a file with text `source`.
pub open spec fn snippet(source: Seq<char>, line: Option<u32>) -> Seq<char> {
    let ls = lines(source);
    let lo = window_start(line);
    let hi = window_end(ls.len() as int, line);
    if lo < hi {
        join_lines(ls.subrange(lo, hi))
    } else {
        seq![]
    }
}

/// Unicode alphanumeric characters, as `char::is_alphanumeric` decides them.
pub uninterp spec fn is_alphanumeric(c: char) -> bool;

/// Relies on `char::is_alphanumeric`: the Unicode `Alphabetic` or `Numeric`
/// property of the character alone.
#[verifier::external_body]
fn char_is_alphanumeric(c: char) -> (r: bool)
    ensures
        r == is_alphanumeric(c),
{
    c.is_alphanumeric()
}

pub open spec fn is_word_char(c: char) -> bool {
    is_alphanumeric(c) || c == '_'
}

/// The pieces of `s` between word separators, empty pieces included.
pub open spec fn pieces(s: Seq<char>) -> Seq<Seq<char>>
    decreases s.len(),
{
    if s.len() == 0 {
        seq![seq![]]
    } else {
        let p = pieces(s.drop_last());
        if is_word_char(s.last()) {
            p.update(p.len() - 1, p.last().push(s.last()))
        } else {
            p.push(seq![])
        }
    }
}

/// Generic diagnostic words that say nothing about the code.
pub open spec fn is_stop_word(t: Seq<char>) -> bool {
    t == "error"@ || t == "found"@ || t == "expected"@ || t == "type"@ || t == "function"@ || t
        == "field"@
}

/// A piece worth a lookup: longer than three characters and not generic.
pub open spec fn is_lookup_token(t: Seq<char>) -> bool {
    t.len() > 3 && !is_stop_word(t)
}

/// The lookup tokens among `ps`, each once, in order of first occurrence.
pub open spec fn tokens_from(ps: Seq<Seq<char>>) -> Seq<Seq<char>>
    decreases ps.len(),
{
    if ps.len() == 0 {
        seq![]
    } else {
        let t = tokens_from(ps.drop_last());
        if is_lookup_token(ps.last()) && !t.contains(ps.last()) {
            t.push(ps.last())
        } else {
            t
        }
    }
}

/// The tokens of an error message that are looked up in the store.
pub open spec fn error_tokens(m: Seq<char>) -> Seq<Seq<char>> {
    tokens_from(pieces(m))
}

/// One-line reference to a declaration.
pub open spec fn ref_line(h: NodeRef) -> Seq<char> {
    "Ref: "@ + h.node_type@ + " "@ + h.name@ + " (in "@ + h.path@ + ")"@
}

/// `acc` extended by the references to `hs` that it does not hold yet.
pub open spec fn add_refs(acc: Seq<Seq<char>>, hs: Seq<NodeRef>) -> Seq<Seq<char>>
    decreases hs.len(),
{
    if hs.len() == 0 {
        acc
    } else {
        let a = add_refs(acc, hs.drop_last());
        if a.contains(ref_line(hs.last())) {
            a
        } else {
            a.push(ref_line(hs.last()))
        }
    }
}

/// References to every declaration that the lookups returned, each once, in
/// order of first discovery.
pub open spec fn all_refs(lists: Seq<Seq<NodeRef>>) -> Seq<Seq<char>>
    decreases lists.len(),
{
    if lists.len() == 0 {
        seq![]
    } else {
        add_refs(all_refs(lists.drop_last()), lists.last())
    }
}

/// The first five of those references.
pub open spec fn related_refs(lists: Seq<Seq<NodeRef>>) -> Seq<Seq<char>> {
    let r = all_refs(lists);
    if r.len() > 5 {
        r.subrange(0, 5)
    } else {
        r
    }
}

proof fn lemma_pieces_nonempty(s: Seq<char>)
    ensures
        pieces(s).len() >= 1,
    decreases s.len(),
{
    if s.len() > 0 {
        lemma_pieces_nonempty(s.drop_last());
    }
}

/// The source lines around a failure: lines `[L-5, L+10)` clamped to the
/// file for a failure at line `L`, else the first fifty, joined with `\n`.
pub fn source_snippet(source: &str, line: Option<u32>) -> (r: String)
    ensures
        r@ == snippet(source@, line),
{
    let ls = lines_of(&chars_of(source));
    let ghost lv = views(ls@);
    let n = ls.len();
    let lo: usize = match line {
        Some(l) => if l >= 5 {
            (l - 5) as usize
        } else {
            0
        },
        None => 0,
    };
    let e: u64 = match line {
        Some(l) => l as u64 + 10,
        None => 50,
    };
    let hi: usize = if e < n as u64 {
        e as usize
    } else {
        n
    };
    let mut out: Vec<char> = Vec::new();
    if lo < hi {
        let mut i = lo;
        while i < hi
            invariant
                lo <= i <= hi <= n == ls.len(),
                lo < hi,
                lv == views(ls@),
                i > lo ==> out@ == join_lines(lv.subrange(lo as int, i as int)),
                i == lo ==> out@.len() == 0,
            decreases hi - i,
        {
            let ghost prev = out@;
            if i > lo {
                push_str(&mut out, "\n");
            }
            push_chars(&mut out, &ls[i]);
            proof {
                let sub = lv.subrange(lo as int, i + 1);
                assert(sub.drop_last() =~= lv.subrange(lo as int, i as int));
                assert(sub.last() == ls@[i as int]@);
                if i == lo {
                    assert(out@ =~= ls@[i as int]@);
                }
            }
            i = i + 1;
        }
    }
    string_of(&out)
}

/// The tokens of an error message to look up: runs of alphanumeric
/// characters and `_` longer than three characters, without generic
/// diagnostic words, each once, in byte order.
pub fn related_tokens(message: &str) -> (r: Vec<String>)
    ensures
        strictly_sorted(string_views(r@)),
        forall|t: Seq<char>| string_views(r@).contains(t) <==> error_tokens(message@).contains(t),
{
    let s = chars_of(message);
    let mut done: Vec<Vec<char>> = Vec::new();
    let mut cur: Vec<char> = Vec::new();
    let mut i: usize = 0;
    assert(s@.subrange(0, 0) =~= Seq::<char>::empty());
    assert(views(done@).push(cur@) =~= seq![Seq::<char>::empty()]);
    while i < s.len()
        invariant
            i <= s.len(),
            views(done@).push(cur@) == pieces(s@.subrange(0, i as int)),
        decreases s.len() - i,
    {
        let c = s[i];
        let ghost pre = s@.subrange(0, i as int);
        proof {
            assert(s@.subrange(0, i + 1).drop_last() =~= pre);
            assert(s@.subrange(0, i + 1).last() == c);
            lemma_pieces_nonempty(pre);
        }
        if char_is_alphanumeric(c) || c == '_' {
            cur.push(c);
            proof {
                let p = pieces(pre);
                assert(views(done@).push(cur@) =~= p.update(p.len() - 1, p.last().push(c)));
            }
        } else {
            let ghost old_done = views(done@);
            let ghost old_cur = cur@;
            done.push(cur);
            cur = Vec::new();
            proof {
                assert(views(done@) =~= old_done.push(old_cur));
                assert(views(done@).push(cur@) =~= pieces(pre).push(seq![]));
            }
        }
        i = i + 1;
    }
    done.push(cur);
    assert(s@.subrange(0, i as int) =~= s@);
    let ghost ps = pieces(s@);
    let mut toks: Vec<Vec<char>> = Vec::new();
    let mut k: usize = 0;
    while k < done.len()
        invariant
            k <= done.len(),
            views(done@) == ps,
            views(toks@) == tokens_from(ps.subrange(0, k as int)),
        decreases done.len() - k,
    {
        let w = &done[k];
        proof {
            assert(ps.subrange(0, k + 1).drop_last() =~= ps.subrange(0, k as int));
            assert(ps.subrange(0, k + 1).last() == w@);
        }
        let keep = w.len() > 3 && !is_stop_word_exec(w) && !holds_chars(&toks, w);
        if keep {
            let ghost prev = views(toks@);
            toks.push(w.clone());
            proof {
                assert(views(toks@) =~= prev.push(w@));
            }
        }
        k = k + 1;
    }
    assert(ps.subrange(0, k as int) =~= ps);
    let ghost tv = views(toks@);
    let mut sorted: Vec<Vec<char>> = Vec::new();
    let mut m: usize = 0;
    assert(views(sorted@) =~= Seq::<Seq<char>>::empty());
    while m < toks.len()
        invariant
            m <= toks.len(),
            tv == views(toks@),
            strictly_sorted(views(sorted@)),
            forall|t: Seq<char>| views(sorted@).contains(t) <==> tv.subrange(0, m as int).contains(t),
        decreases toks.len() - m,
    {
        proof {
            assert forall|t: Seq<char>| tv.subrange(0, m + 1).contains(t) <==> (tv.subrange(0, m as int).contains(t) || t == toks@[m as int]@) by {
                let a = tv.subrange(0, m + 1);
                let b = tv.subrange(0, m as int);
                if a.contains(t) {
                    let i = choose|i: int| 0 <= i < a.len() && a[i] == t;
                    if i < m {
                        assert(b[i] == t);
                    }
                }
                if b.contains(t) {
                    let i = choose|i: int| 0 <= i < b.len() && b[i] == t;
                    assert(a[i] == t);
                }
                if t == toks@[m as int]@ {
                    assert(a[m as int] == t);
                }
            }
        }
        let w = toks[m].clone();
        assert(w@ == toks@[m as int]@);
        let ghost before = views(sorted@);
        insert_sorted(&mut sorted, w);
        proof {
            assert forall|t: Seq<char>| views(sorted@).contains(t) <==> tv.subrange(0, m + 1).contains(t) by {
                assert(views(sorted@).contains(t) <==> (before.contains(t) || t == toks@[m as int]@));
            }
        }
        m = m + 1;
    }
    assert(tv.subrange(0, m as int) =~= tv);
    let r = strings_of(&sorted);
    r
}

fn is_stop_word_exec(w: &Vec<char>) -> (r: bool)
    ensures
        r == is_stop_word(w@),
{
    same_chars(w, &chars_of("error")) || same_chars(w, &chars_of("found")) || same_chars(
        w,
        &chars_of("expected"),
    ) || same_chars(w, &chars_of("type")) || same_chars(w, &chars_of("function")) || same_chars(
        w,
        &chars_of("field"),
    )
}

fn ref_line_exec(h: &NodeRef) -> (r: Vec<char>)
    ensures
        r@ == ref_line(*h),
{
    let mut out = chars_of("Ref: ");
    push_str(&mut out, h.node_type.as_str());
    push_str(&mut out, " ");
    push_str(&mut out, h.name.as_str());
    push_str(&mut out, " (in ");
    push_str(&mut out, h.path.as_str());
    push_str(&mut out, ")");
    out
}

/// References to the declarations that the lookups returned (one list per
/// token, in token order): each once, in order of first discovery, at most
/// five.
pub fn collect_related(lists: &Vec<Vec<NodeRef>>) -> (r: Vec<String>)
    ensures
        string_views(r@) == related_refs(lists@.map_values(|l: Vec<NodeRef>| l@)),
        r.len() <= MAX_RELATED,
{
    let ghost ls = lists@.map_values(|l: Vec<NodeRef>| l@);
    let mut acc: Vec<Vec<char>> = Vec::new();
    let mut i: usize = 0;
    while i < lists.len()
        invariant
            i <= lists.len(),
            ls == lists@.map_values(|l: Vec<NodeRef>| l@),
            views(acc@) == all_refs(ls.subrange(0, i as int)),
        decreases lists.len() - i,
    {
        let hs = &lists[i];
        let ghost base = views(acc@);
        proof {
            assert(ls.subrange(0, i + 1).drop_last() =~= ls.subrange(0, i as int));
            assert(ls.subrange(0, i + 1).last() == hs@);
            assert(hs@.subrange(0, 0) =~= Seq::<NodeRef>::empty());
        }
        let mut j: usize = 0;
        while j < hs.len()
            invariant
                j <= hs.len(),
                views(acc@) == add_refs(base, hs@.subrange(0, j as int)),
            decreases hs.len() - j,
        {
            let line = ref_line_exec(&hs[j]);
            proof {
                assert(hs@.subrange(0, j + 1).drop_last() =~= hs@.subrange(0, j as int));
                assert(hs@.subrange(0, j + 1).last() == hs@[j as int]);
            }
            if !holds_chars(&acc, &line) {
                let ghost prev = views(acc@);
                acc.push(line);
                proof {
                    assert(views(acc@) =~= prev.push(line@));
                }
            }
            j = j + 1;
        }
        assert(hs@.subrange(0, j as int) =~= hs@);
        i = i + 1;
    }
    assert(ls.subrange(0, i as int) =~= ls);
    if acc.len() > MAX_RELATED {
        acc.truncate(MAX_RELATED);
        assert(views(acc@) =~= all_refs(ls).subrange(0, 5));
    }
    strings_of(&acc)
}

/// The context of an attempt from the failing file's text and the lookup
/// results for each of the error message's tokens.
pub fn assemble_context(failure: &TestFailure, source: &str, lookups: &Vec<Vec<NodeRef>>) -> (r:
    HealContext)
    ensures
        r.failure == *failure,
        r.source_snippet@ == snippet(source@, failure.line),
        string_views(r.related_signatures@) == related_refs(
            lookups@.map_values(|l: Vec<NodeRef>| l@),
        ),
        r.related_signatures.len() <= MAX_RELATED,
{
    HealContext {
        failure: failure.duplicate(),
        source_snippet: source_snippet(source, failure.line),
        related_signatures: collect_related(lookups),
    }
}


/// Builds the context of each attempt from the store and the failing file.
pub struct ContextBuilder {
    store: OracleStore,
    root: PathBuf,
}

impl ContextBuilder {
    pub fn new(store: OracleStore, root: PathBuf) -> (r: ContextBuilder) {
        ContextBuilder { store, root }
    }

    /// The project root that failure paths are relative to.
    pub fn root(&self) -> &PathBuf {
        &self.root
    }

    /// The context of an attempt on `failure`, whose file holds `source`
    /// (empty when the file does not exist). Each token of the error message
    /// is looked up in the store; a lookup that fails counts as no match.
    pub fn build_context(&self, failure: &TestFailure, source: &str) -> (r: HealContext)
        ensures
            r.failure == *failure,
            r.source_snippet@ == snippet(source@, failure.line),
            r.related_signatures.len() <= MAX_RELATED,
    {
        let tokens = related_tokens(failure.error_message.as_str());
        let mut lookups: Vec<Vec<NodeRef>> = Vec::new();
        let mut i: usize = 0;
        while i < tokens.len()
            invariant
                i <= tokens.len(),
            decreases tokens.len() - i,
        {
            match self.store.search_nodes(tokens[i].as_str()) {
                Ok(hits) => lookups.push(hits),
                Err(_) => lookups.push(Vec::new()),
            }
            i = i + 1;
        }
        assemble_context(failure, source, &lookups)
    }
}

} // verus!
