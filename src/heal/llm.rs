//! The repair-generator interface and the normalisation of its raw output.
use crate::text::{
    chars_of, contains, find, find_exec, lemma_find_char, lemma_find_first, lemma_find_within,
    occurs_at, slice_of, string_of, trim, trim_range,
};
use vstd::prelude::*;

verus! {

/// A transport or backend failure of a repair generator; distinct from a
/// generator that declines to produce a fix (an empty result).
#[derive(Debug, Clone)]
pub struct GenerationError {
    pub message: String,
}

/// A backend that turns a repair prompt into replacement source text.
pub trait LlmClient {
    fn generate_fix(&mut self, prompt: &str) -> Result<String, GenerationError>;
}

/// The code that a generator response carries: the inside of its first
/// fenced block (after the language-tag line, up to the closing fence),
/// trimmed; without a complete fence, the whole response trimmed.
pub open spec fn fenced_code(r: Seq<char>) -> Seq<char> {
    match find(r, "```"@) {
        Some(start) => {
            let after = r.subrange(start + 3, r.len() as int);
            match find(after, "\n"@) {
                Some(nl) => {
                    let code = after.subrange(nl + 1, after.len() as int);
                    match find(code, "```"@) {
                        Some(end) => trim(code.subrange(0, end)),
                        None => trim(r),
                    }
                },
                None => trim(r),
            }
        },
        None => trim(r),
    }
}

/// Extracts the replacement code from a generator response.
pub fn extract_code_block(response: &str) -> (r: String)
    ensures
        r@ == fenced_code(response@),
{
    let v = chars_of(response);
    let fence = chars_of("```");
    let nl = chars_of("\n");
    proof {
        reveal_strlit("```");
        reveal_strlit("\n");
    }
    let n = v.len();
    if let Some(start) = find_exec(&v, &fence) {
        proof {
            lemma_find_within(v@, fence@, start as int);
        }
        let after = slice_of(&v, start + 3, n);
        if let Some(k) = find_exec(&after, &nl) {
            proof {
                lemma_find_within(after@, nl@, k as int);
            }
            let m = after.len();
            let code = slice_of(&after, k + 1, m);
            if let Some(end) = find_exec(&code, &fence) {
                proof {
                    lemma_find_within(code@, fence@, end as int);
                    assert(code@.subrange(0, code@.len() as int) =~= code@);
                }
                return string_of(&trim_range(&code, 0, end));
            }
        }
    }
    proof {
        assert(v@.subrange(0, n as int) =~= v@);
    }
    string_of(&trim_range(&v, 0, n))
}


/// In `x + "```" + rest`, the first fence is the one after `x` when `x`
/// holds no fence and does not end with a backtick.
proof fn lemma_fence_after(x: Seq<char>, rest: Seq<char>)
    requires
        !contains(x, "```"@),
        !(x.len() > 0 && x.last() == '`'),
    ensures
        find(x + "```"@ + rest, "```"@) == Some(x.len() as int),
{
    reveal_strlit("```");
    let f = "```"@;
    let t = x + f + rest;
    assert(t.subrange(x.len() as int, x.len() as int + 3) =~= f);
    assert forall|j: int| 0 <= j < x.len() implies !occurs_at(t, f, j) by {
        if occurs_at(t, f, j) {
            if j + 3 <= x.len() {
                assert(x.subrange(j, j + 3) =~= t.subrange(j, j + 3));
                assert(occurs_at(x, f, j));
            } else {
                assert(t.subrange(j, j + 3)[x.len() - 1 - j] == x.last());
            }
        }
    }
    lemma_find_first(t, f, 0, x.len() as int);
}

/// A response holding one fenced block (the text before the fence holds no
/// fence and does not end with a backtick, the language tag no newline, and
/// the body no fence and no trailing backtick) yields that block's body,
/// trimmed.
pub proof fn lemma_single_fenced_block(pre: Seq<char>, tag: Seq<char>, body: Seq<char>, post: Seq<char>)
    requires
        !contains(pre, "```"@),
        !(pre.len() > 0 && pre.last() == '`'),
        forall|j: int| 0 <= j < tag.len() ==> tag[j] != '\n',
        !contains(body, "```"@),
        !(body.len() > 0 && body.last() == '`'),
    ensures
        fenced_code(pre + "```"@ + tag + "\n"@ + body + "```"@ + post) == trim(body),
{
    reveal_strlit("```");
    reveal_strlit("\n");
    let f = "```"@;
    let r = pre + f + tag + "\n"@ + body + f + post;
    let rest = tag + "\n"@ + body + f + post;
    assert(r =~= pre + f + rest);
    lemma_fence_after(pre, rest);
    let after = r.subrange(pre.len() as int + 3, r.len() as int);
    assert(after =~= rest);
    assert(rest[tag.len() as int] == '\n');
    assert forall|j: int| 0 <= j < tag.len() implies rest[j] != '\n' by {
        assert(rest[j] == tag[j]);
    }
    lemma_find_char(rest, '\n', 0, tag.len() as int);
    assert("\n"@ =~= seq!['\n']);
    let code = after.subrange(tag.len() as int + 1, after.len() as int);
    assert(code =~= body + f + post);
    lemma_fence_after(body, post);
    assert(code.subrange(0, body.len() as int) =~= body);
}

} // verus!
