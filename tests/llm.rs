use arqonship::heal::context::HealContext;
use arqonship::heal::llm::extract_code_block;
use arqonship::heal::parser_rust::TestFailure;
use arqonship::heal::prompts::PromptTemplates;

#[test]
fn test_extract_code_block_rust() {
    let response = r#"Here's the fix:

```rust
fn main() {
    println!("Hello");
}
```

This should work."#;

    let code = extract_code_block(response);
    assert_eq!(code, "fn main() {\n    println!(\"Hello\");\n}");
}

#[test]
fn test_extract_code_block_no_fence() {
    let response = "fn main() { println!(\"Hello\"); }";
    let code = extract_code_block(response);
    assert_eq!(code, "fn main() { println!(\"Hello\"); }");
}

#[test]
fn fenced_block_inner_text_is_trimmed() {
    assert_eq!(extract_code_block("```python\n\n  x = 1  \n```"), "x = 1");
    assert_eq!(extract_code_block("  \n plain text \t\n"), "plain text");
    assert_eq!(extract_code_block("```rust\nno closing fence"), "```rust\nno closing fence");
    assert_eq!(extract_code_block("a ``` b"), "a ``` b");
    assert_eq!(extract_code_block("```\n```"), "");
    assert_eq!(extract_code_block(""), "");
}

fn context(line: Option<u32>, related: Vec<String>) -> HealContext {
    HealContext {
        failure: TestFailure {
            file_path: "src/lib.rs".to_string(),
            line,
            error_message: "cannot find value `x`".to_string(),
            test_name: "t_one".to_string(),
        },
        source_snippet: "fn a() {}".to_string(),
        related_signatures: related,
    }
}

#[test]
fn rust_prompt_embeds_context() {
    let p = PromptTemplates::rust_repair(&context(Some(42), vec!["Ref: function a (in src/lib.rs)".to_string(), "Ref: struct B (in src/b.rs)".to_string()]));
    assert!(p.starts_with("You are an expert Rust developer"));
    assert!(p.contains("CONTEXT:\nFile: src/lib.rs\nLine: 42\nError Message:\ncannot find value `x`\n\nRELATED CODE:\nRef: function a (in src/lib.rs)\nRef: struct B (in src/b.rs)\n\nSOURCE CODE:\n```rust\nfn a() {}\n```\n"));
    assert!(p.ends_with("RESPONSE:\n```rust\n"));
    let q = PromptTemplates::rust_repair(&context(None, vec![]));
    assert!(q.contains("Line: unknown\n"));
    assert!(q.contains("RELATED CODE:\nNone\n"));
}

#[test]
fn prompts_are_deterministic() {
    let a = PromptTemplates::python_repair(&context(Some(1), vec![]));
    let b = PromptTemplates::python_repair(&context(Some(1), vec![]));
    assert_eq!(a, b);
    assert!(a.contains("File: src/lib.rs\nTest Name: t_one\nLine: 1\nError Message:\n"));
    let b = PromptTemplates::python_repair(&context(None, vec![]));
    assert!(b.contains("Test Name: t_one\nLine: unknown\n"));
    assert!(a.contains("```python\nfn a() {}\n```"));
}

#[test]
fn prompt_language_follows_the_file() {
    let mut ctx = context(Some(3), vec![]);
    assert!(PromptTemplates::repair_prompt(&ctx).contains("```rust\n"));
    ctx.failure.file_path = "tests/test_a.py".to_string();
    assert_eq!(PromptTemplates::repair_prompt(&ctx), PromptTemplates::python_repair(&ctx));
}

#[test]
fn closing_fence_is_the_first_one_after_the_tag_line() {
    assert_eq!(extract_code_block("```\na````"), "a");
    assert_eq!(extract_code_block("intro\n```rs\n  let x = 1;\n```\ntail ```x```"), "let x = 1;");
}
