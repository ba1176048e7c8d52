//! Repair prompts: one deterministic text per language, so that equal
//! contexts give byte-identical prompts.
use crate::heal::context::{join_lines, HealContext};
use crate::oracle::graph::{ends_with, ends_with_exec};
use crate::text::{chars_of, decimal, decimal_of, push_chars, push_str, string_of, string_views};
use vstd::prelude::*;

verus! {

pub struct PromptTemplates;

/// The failing line, or `unknown`.
pub open spec fn line_text(line: Option<u32>) -> Seq<char> {
    match line {
        Some(l) => decimal(l as nat),
        None => "unknown"@,
    }
}

/// The related-declaration block: one reference per line, or `None`.
pub open spec fn related_text(related: Seq<String>) -> Seq<char> {
    if related.len() == 0 {
        "None"@
    } else {
        join_lines(string_views(related))
    }
}

/// The prompt for a Rust failure.
pub open spec fn rust_prompt(ctx: HealContext) -> Seq<char> {
    "You are an expert Rust developer tasked with fixing a compilation error or test failure.\nYour goal is to provide ONLY the corrected code block that fixes the issue.\n\nCONTEXT:\nFile: "@ + ctx.failure.file_path@ + "\nLine: "@ + line_text(ctx.failure.line) + "\nError Message:\n"@
        + ctx.failure.error_message@ + "\n\nRELATED CODE:\n"@ + related_text(ctx.related_signatures@) + "\n\nSOURCE CODE:\n```rust\n"@
        + ctx.source_snippet@ + "\n```\n\nINSTRUCTIONS:\n1. Analyze the error message, related code, and the source code.\n2. Determine the necessary changes to fix the error.\n3. Provide the COMPLETE corrected code block.\n4. DO NOT include any explanations, markdown headers, or conversational text.\n5. ONLY output the code block enclosed in ```rust and ``` logic.\n\nRESPONSE:\n```rust\n"@
}

/// The prompt for a Python failure: the test name and the failing line.
pub open spec fn python_prompt(ctx: HealContext) -> Seq<char> {
    "You are an expert Python developer tasked with fixing a test failure.\nYour goal is to provide ONLY the corrected code block that fixes the issue.\n\nCONTEXT:\nFile: "@ + ctx.failure.file_path@ + "\nTest Name: "@ + ctx.failure.test_name@ + "\nLine: "@ + line_text(ctx.failure.line)
        + "\nError Message:\n"@
        + ctx.failure.error_message@ + "\n\nRELATED CODE:\n"@ + related_text(ctx.related_signatures@) + "\n\nSOURCE CODE:\n```python\n"@
        + ctx.source_snippet@ + "\n```\n\nINSTRUCTIONS:\n1. Analyze the error message, related code, and the source code.\n2. Determine the necessary changes to fix the error.\n3. Provide the COMPLETE corrected code block.\n4. DO NOT include any explanations, markdown headers, or conversational text.\n5. ONLY output the code block enclosed in ```python and ``` logic.\n\nRESPONSE:\n```python\n"@
}

fn related_exec(related: &Vec<String>) -> (r: Vec<char>)
    ensures
        r@ == related_text(related@),
{
    if related.len() == 0 {
        return chars_of("None");
    }
    let ghost sv = string_views(related@);
    let mut out = chars_of(related[0].as_str());
    proof {
        assert(sv.subrange(0, 1) =~= seq![sv[0]]);
    }
    let mut i: usize = 1;
    while i < related.len()
        invariant
            1 <= i <= related.len(),
            sv == string_views(related@),
            out@ == join_lines(sv.subrange(0, i as int)),
        decreases related.len() - i,
    {
        push_str(&mut out, "\n");
        push_str(&mut out, related[i].as_str());
        proof {
            assert(sv.subrange(0, i + 1).drop_last() =~= sv.subrange(0, i as int));
            assert(sv.subrange(0, i + 1).last() == related@[i as int]@);
        }
        i = i + 1;
    }
    assert(sv.subrange(0, i as int) =~= sv);
    out
}

impl PromptTemplates {
    /// The repair prompt for the failure's language: Rust for a `.rs` file,
    /// Python otherwise.
    pub fn repair_prompt(ctx: &HealContext) -> (r: String)
        ensures
            r@ == if ends_with(ctx.failure.file_path@, ".rs"@) {
                rust_prompt(*ctx)
            } else {
                python_prompt(*ctx)
            },
    {
        if ends_with_exec(ctx.failure.file_path.as_str(), ".rs") {
            PromptTemplates::rust_repair(ctx)
        } else {
            PromptTemplates::python_repair(ctx)
        }
    }

    /// The repair prompt for a Rust failure.
    pub fn rust_repair(ctx: &HealContext) -> (r: String)
        ensures
            r@ == rust_prompt(*ctx),
    {
        let mut out = chars_of("You are an expert Rust developer tasked with fixing a compilation error or test failure.\nYour goal is to provide ONLY the corrected code block that fixes the issue.\n\nCONTEXT:\nFile: ");
        push_str(&mut out, ctx.failure.file_path.as_str());
        push_str(&mut out, "\nLine: ");
        match ctx.failure.line {
            Some(l) => push_chars(&mut out, &decimal_of(l as u64)),
            None => push_str(&mut out, "unknown"),
        }
        push_str(&mut out, "\nError Message:\n");
        push_str(&mut out, ctx.failure.error_message.as_str());
        push_str(&mut out, "\n\nRELATED CODE:\n");
        push_chars(&mut out, &related_exec(&ctx.related_signatures));
        push_str(&mut out, "\n\nSOURCE CODE:\n```rust\n");
        push_str(&mut out, ctx.source_snippet.as_str());
        push_str(&mut out, "\n```\n\nINSTRUCTIONS:\n1. Analyze the error message, related code, and the source code.\n2. Determine the necessary changes to fix the error.\n3. Provide the COMPLETE corrected code block.\n4. DO NOT include any explanations, markdown headers, or conversational text.\n5. ONLY output the code block enclosed in ```rust and ``` logic.\n\nRESPONSE:\n```rust\n");
        string_of(&out)
    }

    /// The repair prompt for a Python failure.
    pub fn python_repair(ctx: &HealContext) -> (r: String)
        ensures
            r@ == python_prompt(*ctx),
    {
        let mut out = chars_of("You are an expert Python developer tasked with fixing a test failure.\nYour goal is to provide ONLY the corrected code block that fixes the issue.\n\nCONTEXT:\nFile: ");
        push_str(&mut out, ctx.failure.file_path.as_str());
        push_str(&mut out, "\nTest Name: ");
        push_str(&mut out, ctx.failure.test_name.as_str());
        push_str(&mut out, "\nLine: ");
        match ctx.failure.line {
            Some(l) => push_chars(&mut out, &decimal_of(l as u64)),
            None => push_str(&mut out, "unknown"),
        }
        push_str(&mut out, "\nError Message:\n");
        push_str(&mut out, ctx.failure.error_message.as_str());
        push_str(&mut out, "\n\nRELATED CODE:\n");
        push_chars(&mut out, &related_exec(&ctx.related_signatures));
        push_str(&mut out, "\n\nSOURCE CODE:\n```python\n");
        push_str(&mut out, ctx.source_snippet.as_str());
        push_str(&mut out, "\n```\n\nINSTRUCTIONS:\n1. Analyze the error message, related code, and the source code.\n2. Determine the necessary changes to fix the error.\n3. Provide the COMPLETE corrected code block.\n4. DO NOT include any explanations, markdown headers, or conversational text.\n5. ONLY output the code block enclosed in ```python and ``` logic.\n\nRESPONSE:\n```python\n");
        string_of(&out)
    }
}

} // verus!
