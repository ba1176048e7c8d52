//! Conventional-commit classification of `git log` lines.
use crate::text::{
    chars_of, contains, contains_exec, find, find_exec, lines, lines_of, matches_at, slice_of,
    starts_with, string_of, trim, trim_range,
};
use std::path::PathBuf;
use vstd::prelude::*;

verus! {

#[derive(Debug, Clone)]
pub struct Commit {
    pub hash: String,
    pub commit_type: String,
    pub scope: Option<String>,
    pub description: String,
    pub is_breaking: bool,
}

pub struct CommitParser {
    root: PathBuf,
}

/// Type of a commit by the prefix of its subject.
pub open spec fn commit_type_of(m: Seq<char>) -> Seq<char> {
    if starts_with(m, "feat"@) {
        "feat"@
    } else if starts_with(m, "fix"@) {
        "fix"@
    } else if starts_with(m, "chore"@) {
        "chore"@
    } else if starts_with(m, "docs"@) {
        "docs"@
    } else if starts_with(m, "refactor"@) {
        "refactor"@
    } else if starts_with(m, "test"@) {
        "test"@
    } else {
        "other"@
    }
}

/// A subject announces a breaking change.
pub open spec fn is_breaking_message(m: Seq<char>) -> bool {
    contains(m, "BREAKING CHANGE"@) || contains(m, "!:"@)
}

/// Hash and subject of a log line `<hash> <subject>`; none without a space.
pub open spec fn log_line_parts(line: Seq<char>) -> Option<(Seq<char>, Seq<char>)> {
    match find(line, " "@) {
        Some(k) => if 0 <= k < line.len() {
            Some((line.subrange(0, k), line.subrange(k + 1, line.len() as int)))
        } else {
            None
        },
        None => None,
    }
}

/// `c` is the commit with hash `h` and subject `m`.
pub open spec fn describes(c: Commit, h: Seq<char>, m: Seq<char>) -> bool {
    &&& c.hash@ == h
    &&& c.description@ == m
    &&& c.commit_type@ == commit_type_of(m)
    &&& c.scope is None
    &&& c.is_breaking == is_breaking_message(m)
}

/// Hash and subject of each line that has both, in order.
pub open spec fn log_entries(ls: Seq<Seq<char>>) -> Seq<(Seq<char>, Seq<char>)>
    decreases ls.len(),
{
    if ls.len() == 0 {
        seq![]
    } else {
        let prev = log_entries(ls.drop_last());
        match log_line_parts(ls.last()) {
            Some(p) => prev.push(p),
            None => prev,
        }
    }
}

/// The revision range to list: everything after the last tag, or all of
/// `HEAD` when there is no tag.
pub open spec fn log_range_spec(tag: Seq<char>) -> Seq<char> {
    if tag.len() == 0 {
        "HEAD"@
    } else {
        tag + "..HEAD"@
    }
}

fn starts_with_exec(m: &Vec<char>, p: &str) -> (r: bool)
    ensures
        r == starts_with(m@, p@),
{
    let pv = chars_of(p);
    matches_at(m, &pv, 0)
}

impl CommitParser {
    pub fn new(root: PathBuf) -> (r: Self) {
        CommitParser { root }
    }

    /// The project root whose history is read.
    pub fn root(&self) -> &PathBuf {
        &self.root
    }

    /// Parses one `<hash> <subject>` line of `git log`.
    pub fn parse_commit_line(&self, line: &str) -> (r: Option<Commit>)
        ensures
            match log_line_parts(line@) {
                Some(p) => r matches Some(c) && describes(c, p.0, p.1),
                None => r is None,
            },
    {
        let v = chars_of(line);
        let sp = chars_of(" ");
        match find_exec(&v, &sp) {
            None => None,
            Some(k) => {
                proof {
                    reveal_strlit(" ");
                    assert(sp@.len() == 1);
                    assert(k + 1 <= v@.len());
                }
                let hash = slice_of(&v, 0, k);
                let n = v.len();
                assert(k < n);
                let msg = slice_of(&v, k + 1, n);
                let is_breaking = contains_exec(&msg, &chars_of("BREAKING CHANGE"))
                    || contains_exec(&msg, &chars_of("!:"));
                let commit_type = if starts_with_exec(&msg, "feat") {
                    "feat"
                } else if starts_with_exec(&msg, "fix") {
                    "fix"
                } else if starts_with_exec(&msg, "chore") {
                    "chore"
                } else if starts_with_exec(&msg, "docs") {
                    "docs"
                } else if starts_with_exec(&msg, "refactor") {
                    "refactor"
                } else if starts_with_exec(&msg, "test") {
                    "test"
                } else {
                    "other"
                };
                Some(
                    Commit {
                        hash: string_of(&hash),
                        commit_type: commit_type.to_owned(),
                        scope: None,
                        description: string_of(&msg),
                        is_breaking,
                    },
                )
            },
        }
    }

    /// The commits that the lines of a `git log --format="%H %s"` listing
    /// describe, in order; lines without a subject are skipped.
    pub fn parse_commit_log(&self, log: &str) -> (r: Vec<Commit>)
        ensures
            r.len() == log_entries(lines(log@)).len(),
            forall|i: int|
                0 <= i < r.len() ==> describes(
                    #[trigger] r[i],
                    log_entries(lines(log@))[i].0,
                    log_entries(lines(log@))[i].1,
                ),
    {
        let ls = lines_of(&chars_of(log));
        let ghost lv = crate::text::views(ls@);
        let mut r: Vec<Commit> = Vec::new();
        let mut i: usize = 0;
        while i < ls.len()
            invariant
                i <= ls.len(),
                lv == crate::text::views(ls@),
                r.len() == log_entries(lv.subrange(0, i as int)).len(),
                forall|j: int|
                    0 <= j < r.len() ==> describes(
                        #[trigger] r[j],
                        log_entries(lv.subrange(0, i as int))[j].0,
                        log_entries(lv.subrange(0, i as int))[j].1,
                    ),
            decreases ls.len() - i,
        {
            let line = string_of(&ls[i]);
            let parsed = self.parse_commit_line(line.as_str());
            proof {
                assert(lv.subrange(0, i + 1).drop_last() =~= lv.subrange(0, i as int));
                assert(lv[i as int] == ls@[i as int]@);
            }
            match parsed {
                Some(c) => {
                    r.push(c);
                },
                None => {},
            }
            i = i + 1;
        }
        assert(lv.subrange(0, i as int) =~= lv);
        r
    }
}

/// The `git log` revision range after the output of `git describe --tags`
/// (`described` tells whether that command succeeded).
pub fn log_range(describe_output: &str, described: bool) -> (r: String)
    ensures
        r@ == log_range_spec(if described { trim(describe_output@) } else { seq![] }),
{
    let v = chars_of(describe_output);
    let tag = if described { trim_range(&v, 0, v.len()) } else { Vec::new() };
    proof {
        assert(v@.subrange(0, v@.len() as int) =~= v@);
    }
    if tag.len() == 0 {
        "HEAD".to_owned()
    } else {
        let mut out = tag;
        crate::text::push_str(&mut out, "..HEAD");
        string_of(&out)
    }
}

} // verus!
