//! Failures from a plain-text pytest report.
//!
//! A line `FAILED <file>::<test> ...` opens a failure block; the lines after
//! it form the error message until a `===` line that names the short test
//! summary, which closes the block and emits the failure. A block still open
//! at the end of the report is dropped.
use crate::heal::parser_rust::TestFailure;
use crate::text::{
    chars_of, contains, contains_exec, first_word, first_word_exec, lines, lines_of, matches_at,
    nth_field, nth_field_exec, push_chars, push_str, slice_of, starts_with, string_of, trim,
    trim_range, views,
};
use vstd::prelude::*;

verus! {

pub struct PythonLogParser;

/// Scanner state between lines.
pub struct PytestScan {
    pub test: Option<Seq<char>>,
    pub error: Seq<char>,
    pub in_failure: bool,
}

/// A failure as the scanner emits it: file, message, test name.
pub type PytestFailure = (Seq<char>, Seq<char>, Seq<char>);

pub open spec fn scan_start() -> PytestScan {
    PytestScan { test: None, error: seq![], in_failure: false }
}

/// The failure that closing a block on test path `t` with message `e` emits.
pub open spec fn close_block(t: Seq<char>, e: Seq<char>) -> PytestFailure {
    let file = match nth_field(t, "::"@, 0) {
        Some(f) => f,
        None => seq![],
    };
    let name = match nth_field(t, "::"@, 1) {
        Some(f) => f,
        None => seq![],
    };
    (file, trim(e), name)
}

/// The scanner after one line, and what that line emits.
pub open spec fn scan_line(st: PytestScan, line: Seq<char>) -> (PytestScan, Option<PytestFailure>) {
    if starts_with(line, "FAILED "@) {
        (
            PytestScan {
                test: Some(first_word(line.subrange(7, line.len() as int))),
                error: seq![],
                in_failure: true,
            },
            None,
        )
    } else if st.in_failure && !starts_with(line, "==="@) {
        (PytestScan { error: st.error + line + "\n"@, ..st }, None)
    } else if st.in_failure && contains(line, "short test summary"@) {
        (
            PytestScan { test: None, in_failure: false, ..st },
            match st.test {
                Some(t) => Some(close_block(t, st.error)),
                None => None,
            },
        )
    } else {
        (st, None)
    }
}

/// The scanner after `ls`, and the failures emitted on the way.
pub open spec fn scan_lines(ls: Seq<Seq<char>>) -> (PytestScan, Seq<PytestFailure>)
    decreases ls.len(),
{
    if ls.len() == 0 {
        (scan_start(), seq![])
    } else {
        let (st, out) = scan_lines(ls.drop_last());
        let (st2, emitted) = scan_line(st, ls.last());
        (
            st2,
            match emitted {
                Some(f) => out.push(f),
                None => out,
            },
        )
    }
}

/// The failures that a pytest report lists.
pub open spec fn pytest_failures(text: Seq<char>) -> Seq<PytestFailure> {
    scan_lines(lines(text)).1
}

/// `f` is the failure `p` with no line number.
pub open spec fn is_pytest_failure(f: TestFailure, p: PytestFailure) -> bool {
    &&& f.file_path@ == p.0
    &&& f.error_message@ == p.1
    &&& f.test_name@ == p.2
    &&& f.line is None
}

fn field_or_empty(t: &Vec<char>, sep: &Vec<char>, n: usize) -> (r: Vec<char>)
    ensures
        r@ == match nth_field(t@, sep@, n as nat) {
            Some(f) => f,
            None => seq![],
        },
{
    match nth_field_exec(t, sep, n) {
        Some(f) => f,
        None => Vec::new(),
    }
}

impl PythonLogParser {
    /// The failures of a plain-text pytest report, in order.
    pub fn parse_pytest_output(text_output: &str) -> (r: Result<Vec<TestFailure>, String>)
        ensures
            r matches Ok(fs) && fs.len() == pytest_failures(text_output@).len() && forall|i: int|
                0 <= i < fs.len() ==> is_pytest_failure(
                    #[trigger] fs[i],
                    pytest_failures(text_output@)[i],
                ),
    {
        let ls = lines_of(&chars_of(text_output));
        let ghost lv = views(ls@);
        let failed = chars_of("FAILED ");
        let rule = chars_of("===");
        let summary = chars_of("short test summary");
        let sep = chars_of("::");
        proof {
            reveal_strlit("FAILED ");
        }
        let mut test: Option<Vec<char>> = None;
        let mut error: Vec<char> = Vec::new();
        let mut in_failure = false;
        let mut failures: Vec<TestFailure> = Vec::new();
        let mut i: usize = 0;
        while i < ls.len()
            invariant
                i <= ls.len(),
                lv == views(ls@),
                failed@ == "FAILED "@,
                failed@.len() == 7,
                rule@ == "==="@,
                summary@ == "short test summary"@,
                sep@ == "::"@,
                ({
                    let (st, out) = scan_lines(lv.subrange(0, i as int));
                    &&& st.in_failure == in_failure
                    &&& st.error == error@
                    &&& match test {
                        Some(t) => st.test == Some(t@),
                        None => st.test is None,
                    }
                    &&& failures.len() == out.len()
                    &&& forall|j: int|
                        0 <= j < failures.len() ==> is_pytest_failure(#[trigger] failures[j], out[j])
                }),
            decreases ls.len() - i,
        {
            let line = &ls[i];
            proof {
                assert(lv.subrange(0, i + 1).drop_last() =~= lv.subrange(0, i as int));
                assert(lv.subrange(0, i + 1).last() == line@);
            }
            if matches_at(line, &failed, 0) {
                let n = line.len();
                let rest = slice_of(line, 7, n);
                test = Some(first_word_exec(&rest));
                in_failure = true;
                error = Vec::new();
            } else if in_failure && !matches_at(line, &rule, 0) {
                push_chars(&mut error, line);
                push_str(&mut error, "\n");
            } else if in_failure && contains_exec(line, &summary) {
                match test {
                    Some(t) => {
                        let file = field_or_empty(&t, &sep, 0);
                        let name = field_or_empty(&t, &sep, 1);
                        let n = error.len();
                        proof {
                            assert(error@.subrange(0, n as int) =~= error@);
                        }
                        let msg = trim_range(&error, 0, n);
                        failures.push(
                            TestFailure {
                                file_path: string_of(&file),
                                line: None,
                                error_message: string_of(&msg),
                                test_name: string_of(&name),
                            },
                        );
                    },
                    None => {},
                }
                test = None;
                in_failure = false;
            }
            i = i + 1;
        }
        assert(lv.subrange(0, i as int) =~= lv);
        Ok(failures)
    }
}

} // verus!
