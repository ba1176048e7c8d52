//! Failures from the compiler's structured diagnostics: one JSON message per
//! line, of which only error-level compiler messages count, each span of
//! one giving a failure. A line that is not such a message, or not JSON at
//! all, is skipped without affecting the others.
use crate::json::{field, get_field, json_of, parse_json, str_of, JsonValue};
use crate::text::{chars_of, lines, lines_of, parse_u32, parse_u32_spec, same_chars, string_of, trim, trim_range, views};
use vstd::prelude::*;

verus! {

/// One failure to repair: where it is and what went wrong.
#[derive(Debug, Clone)]
pub struct TestFailure {
    pub file_path: String,
    pub line: Option<u32>,
    pub error_message: String,
    pub test_name: String,
}

impl TestFailure {
    /// A field-by-field copy.
    pub fn duplicate(&self) -> (r: TestFailure)
        ensures
            r == *self,
    {
        TestFailure {
            file_path: self.file_path.clone(),
            line: self.line,
            error_message: self.error_message.clone(),
            test_name: self.test_name.clone(),
        }
    }
}

pub struct RustLogParser;

/// A compile failure as decoded: file, first line of the span, message.
pub type CompileFailure = (Seq<char>, u32, Seq<char>);

/// A JSON number that is a `u32`.
pub open spec fn as_u32(v: Option<JsonValue>) -> Option<u32> {
    match v {
        Some(JsonValue::Number(t)) => parse_u32_spec(t@),
        _ => None,
    }
}

/// A span `{file_name, line_start, line_end}`: its file and first line.
pub open spec fn decode_span(v: JsonValue) -> Option<(Seq<char>, u32)> {
    match (str_of(field(v, "file_name"@)), as_u32(field(v, "line_start"@)), as_u32(field(v, "line_end"@))) {
        (Some(f), Some(l), Some(_)) => Some((f, l)),
        _ => None,
    }
}

/// Every item decoded as a span, or none if one is not a span.
pub open spec fn decode_spans(items: Seq<JsonValue>) -> Option<Seq<(Seq<char>, u32)>>
    decreases items.len(),
{
    if items.len() == 0 {
        Some(seq![])
    } else {
        match (decode_spans(items.drop_last()), decode_span(items.last())) {
            (Some(p), Some(s)) => Some(p.push(s)),
            _ => None,
        }
    }
}

/// An optional diagnostic code: absent, null, or `{code: <string>}`.
pub open spec fn code_ok(v: Option<JsonValue>) -> bool {
    match v {
        None => true,
        Some(JsonValue::Null) => true,
        Some(c) => str_of(field(c, "code"@)) is Some,
    }
}

/// A compiler message `{message, level, code?, spans}`: text, level, spans.
pub open spec fn decode_compiler_message(v: JsonValue) -> Option<(Seq<char>, Seq<char>, Seq<(Seq<char>, u32)>)> {
    match (str_of(field(v, "message"@)), str_of(field(v, "level"@)), field(v, "spans"@)) {
        (Some(m), Some(l), Some(JsonValue::Array(items))) => if code_ok(field(v, "code"@)) {
            match decode_spans(items@) {
                Some(ss) => Some((m, l, ss)),
                None => None,
            }
        } else {
            None
        },
        _ => None,
    }
}

/// The failures that one diagnostic message gives: one per span of an
/// error-level `compiler-message`, none for anything else.
pub open spec fn message_failures(v: JsonValue) -> Seq<CompileFailure> {
    match (str_of(field(v, "reason"@)), field(v, "message"@)) {
        (Some(reason), Some(m)) => match decode_compiler_message(m) {
            Some((msg, level, spans)) => if reason == "compiler-message"@ && level == "error"@ {
                spans.map_values(|s: (Seq<char>, u32)| (s.0, s.1, msg))
            } else {
                seq![]
            },
            None => seq![],
        },
        _ => seq![],
    }
}

/// The failures of a diagnostics stream, line by line.
pub open spec fn cargo_failures(ls: Seq<Seq<char>>) -> Seq<CompileFailure>
    decreases ls.len(),
{
    if ls.len() == 0 {
        seq![]
    } else {
        cargo_failures(ls.drop_last()) + if trim(ls.last()).len() == 0 {
            seq![]
        } else {
            match json_of(ls.last()) {
                Some(v) => message_failures(v),
                None => seq![],
            }
        }
    }
}

/// `f` is the failure `c`, with no test name.
pub open spec fn is_compile_failure(f: TestFailure, c: CompileFailure) -> bool {
    &&& f.file_path@ == c.0
    &&& f.line == Some(c.1)
    &&& f.error_message@ == c.2
    &&& f.test_name@.len() == 0
}

fn str_field(v: &JsonValue, key: &str) -> (r: Option<Vec<char>>)
    ensures
        match str_of(field(*v, key@)) {
            Some(s) => r matches Some(x) && x@ == s,
            None => r is None,
        },
{
    match get_field(v, key) {
        Some(JsonValue::Str(s)) => Some(chars_of(s.as_str())),
        _ => None,
    }
}

fn u32_field(v: &JsonValue, key: &str) -> (r: Option<u32>)
    ensures
        r == as_u32(field(*v, key@)),
{
    match get_field(v, key) {
        Some(JsonValue::Number(t)) => parse_u32(&chars_of(t.as_str())),
        _ => None,
    }
}

fn decode_spans_exec(items: &Vec<JsonValue>) -> (r: Option<Vec<(Vec<char>, u32)>>)
    ensures
        match decode_spans(items@) {
            Some(ss) => r matches Some(x) && x.len() == ss.len() && forall|i: int|
                0 <= i < ss.len() ==> (#[trigger] x[i]).0@ == ss[i].0 && x[i].1 == ss[i].1,
            None => r is None,
        },
{
    let mut out: Vec<(Vec<char>, u32)> = Vec::new();
    let mut i: usize = 0;
    while i < items.len()
        invariant
            i <= items.len(),
            decode_spans(items@.subrange(0, i as int)) matches Some(ss) && out.len() == ss.len()
                && forall|j: int| 0 <= j < ss.len() ==> (#[trigger] out[j]).0@ == ss[j].0 && out[j].1 == ss[j].1,
        decreases items.len() - i,
    {
        let it = &items[i];
        proof {
            assert(items@.subrange(0, i + 1).drop_last() =~= items@.subrange(0, i as int));
            assert(items@.subrange(0, i + 1).last() == *it);
        }
        let f = str_field(it, "file_name");
        let ls = u32_field(it, "line_start");
        let le = u32_field(it, "line_end");
        match (f, ls, le) {
            (Some(f), Some(l), Some(_)) => {
                out.push((f, l));
            },
            _ => {
                proof {
                    lemma_spans_fail(items@, i as int);
                }
                return None;
            },
        }
        i = i + 1;
    }
    assert(items@.subrange(0, i as int) =~= items@);
    Some(out)
}

proof fn lemma_spans_fail(items: Seq<JsonValue>, i: int)
    requires
        0 <= i < items.len(),
        decode_span(items[i]) is None,
    ensures
        decode_spans(items) is None,
    decreases items.len(),
{
    if i < items.len() - 1 {
        lemma_spans_fail(items.drop_last(), i);
    }
}

impl RustLogParser {
    /// The failures that one diagnostic message gives.
    pub fn failures_from_message(v: &JsonValue) -> (r: Vec<TestFailure>)
        ensures
            r.len() == message_failures(*v).len(),
            forall|i: int|
                0 <= i < r.len() ==> is_compile_failure(#[trigger] r[i], message_failures(*v)[i]),
    {
        let mut out: Vec<TestFailure> = Vec::new();
        let reason = match str_field(v, "reason") {
            Some(x) => x,
            None => return out,
        };
        let m = match get_field(v, "message") {
            Some(m) => m,
            None => return out,
        };
        let text = match str_field(m, "message") {
            Some(x) => x,
            None => return out,
        };
        let level = match str_field(m, "level") {
            Some(x) => x,
            None => return out,
        };
        let items = match get_field(m, "spans") {
            Some(JsonValue::Array(items)) => items,
            _ => return out,
        };
        let code_valid = match get_field(m, "code") {
            None => true,
            Some(JsonValue::Null) => true,
            Some(c) => str_field(c, "code").is_some(),
        };
        if !code_valid {
            return out;
        }
        let spans = match decode_spans_exec(items) {
            Some(ss) => ss,
            None => return out,
        };
        if !same_chars(&reason, &chars_of("compiler-message")) || !same_chars(&level, &chars_of("error")) {
            return out;
        }
        let ghost want = message_failures(*v);
        let mut i: usize = 0;
        while i < spans.len()
            invariant
                i <= spans.len(),
                want.len() == spans.len(),
                forall|j: int| 0 <= j < spans.len() ==> want[j] == (#[trigger] spans[j].0@, spans[j].1, text@),
                out.len() == i,
                forall|j: int| 0 <= j < i ==> is_compile_failure(#[trigger] out[j], want[j]),
            decreases spans.len() - i,
        {
            out.push(
                TestFailure {
                    file_path: string_of(&spans[i].0),
                    line: Some(spans[i].1),
                    error_message: string_of(&text),
                    test_name: String::new(),
                },
            );
            i = i + 1;
        }
        out
    }

    /// The failures of a newline-delimited diagnostics stream, in order.
    pub fn parse_cargo_output(json_output: &str) -> (r: Result<Vec<TestFailure>, String>)
        ensures
            r matches Ok(fs) && fs.len() == cargo_failures(lines(json_output@)).len() && forall|i: int|
                0 <= i < fs.len() ==> is_compile_failure(
                    #[trigger] fs[i],
                    cargo_failures(lines(json_output@))[i],
                ),
    {
        let ls = lines_of(&chars_of(json_output));
        let ghost lv = views(ls@);
        let mut out: Vec<TestFailure> = Vec::new();
        let mut i: usize = 0;
        while i < ls.len()
            invariant
                i <= ls.len(),
                lv == views(ls@),
                out.len() == cargo_failures(lv.subrange(0, i as int)).len(),
                forall|j: int| 0 <= j < out.len() ==> is_compile_failure(#[trigger] out[j], cargo_failures(lv.subrange(0, i as int))[j]),
            decreases ls.len() - i,
        {
            let line = &ls[i];
            let ghost prev = cargo_failures(lv.subrange(0, i as int));
            proof {
                assert(lv.subrange(0, i + 1).drop_last() =~= lv.subrange(0, i as int));
                assert(lv.subrange(0, i + 1).last() == line@);
                assert(line@.subrange(0, line@.len() as int) =~= line@);
            }
            let n = line.len();
            if trim_range(line, 0, n).len() == 0 {
                assert(cargo_failures(lv.subrange(0, i + 1)) =~= prev);
            } else {
                let text = string_of(line);
                let more = match parse_json(text.as_str()) {
                    Some(v) => RustLogParser::failures_from_message(&v),
                    None => Vec::new(),
                };
                let ghost add = match json_of(line@) {
                    Some(v) => message_failures(v),
                    None => seq![],
                };
                assert(cargo_failures(lv.subrange(0, i + 1)) == prev + add);
                assert(more.len() == add.len());
                let base = out.len();
                let mut k: usize = 0;
                while k < more.len()
                    invariant
                        k <= more.len(),
                        more.len() == add.len(),
                        forall|j: int| 0 <= j < more.len() ==> is_compile_failure(#[trigger] more[j], add[j]),
                        base == prev.len(),
                        out.len() == base + k,
                        forall|j: int| 0 <= j < out.len() ==> is_compile_failure(#[trigger] out[j], (prev + add)[j]),
                    decreases more.len() - k,
                {
                    assert((prev + add)[base + k] == add[k as int]);
                    out.push(more[k].duplicate());
                    k = k + 1;
                }
            }
            i = i + 1;
        }
        assert(lv.subrange(0, i as int) =~= lv);
        Ok(out)
    }
}

} // verus!
