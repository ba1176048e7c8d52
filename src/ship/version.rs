//! Semantic versions, the bump that a set of commits calls for, and the
//! changelog that lists them.
use crate::ship::commits::Commit;
use crate::text::{chars_of, decimal, decimal_of, nth_field, nth_field_exec, parse_u32, parse_u32_spec, push_chars, push_str, string_of};
use vstd::prelude::*;

verus! {

#[derive(Debug, Clone, Copy, PartialEq, Eq, Structural)]
pub struct SemVer {
    pub major: u32,
    pub minor: u32,
    pub patch: u32,
}

/// `s` without its leading `v` characters.
pub open spec fn strip_v(s: Seq<char>) -> Seq<char>
    decreases s.len(),
{
    if s.len() > 0 && s[0] == 'v' {
        strip_v(s.drop_first())
    } else {
        s
    }
}

/// The `n`-th dot-separated component of `s` as a number; 0 where it is
/// missing or not a number.
pub open spec fn component(s: Seq<char>, n: nat) -> u32 {
    match nth_field(s, "."@, n) {
        Some(f) => match parse_u32_spec(f) {
            Some(x) => x,
            None => 0,
        },
        None => 0,
    }
}

/// `major.minor.patch` in decimal.
pub open spec fn semver_text(v: SemVer) -> Seq<char> {
    decimal(v.major as nat) + "."@ + decimal(v.minor as nat) + "."@ + decimal(v.patch as nat)
}

/// Whether a commit is classified as a feature.
pub open spec fn is_feat(c: Commit) -> bool {
    c.commit_type@ == "feat"@
}

/// Whether a commit is classified as a bug fix.
pub open spec fn is_fix(c: Commit) -> bool {
    c.commit_type@ == "fix"@
}

/// Section selector: 0 features, 1 fixes, 2 everything else.
pub open spec fn in_section(c: Commit, sel: int) -> bool {
    if sel == 0 {
        is_feat(c)
    } else if sel == 1 {
        is_fix(c)
    } else {
        !is_feat(c) && !is_fix(c)
    }
}

/// One `- <description>` line per commit of the section, in order.
pub open spec fn bullets(cs: Seq<Commit>, sel: int) -> Seq<char>
    decreases cs.len(),
{
    if cs.len() == 0 {
        seq![]
    } else if in_section(cs.last(), sel) {
        bullets(cs.drop_last(), sel) + "- "@ + cs.last().description@ + "\n"@
    } else {
        bullets(cs.drop_last(), sel)
    }
}

/// A titled section, absent when it would list nothing.
pub open spec fn section(title: Seq<char>, body: Seq<char>) -> Seq<char> {
    if body.len() == 0 {
        seq![]
    } else {
        title + body + "\n"@
    }
}

/// The changelog of a release.
pub open spec fn changelog(v: SemVer, cs: Seq<Commit>) -> Seq<char> {
    "## v"@ + semver_text(v) + "\n\n"@ + section("### Features\n\n"@, bullets(cs, 0)) + section(
        "### Bug Fixes\n\n"@,
        bullets(cs, 1),
    ) + section("### Other Changes\n\n"@, bullets(cs, 2))
}

pub open spec fn has_breaking(cs: Seq<Commit>) -> bool {
    exists|i: int| 0 <= i < cs.len() && (#[trigger] cs[i]).is_breaking
}

pub open spec fn has_feat(cs: Seq<Commit>) -> bool {
    exists|i: int| 0 <= i < cs.len() && is_feat(#[trigger] cs[i])
}

/// Room for any bump of `v`.
pub open spec fn bumpable(v: SemVer) -> bool {
    v.major < u32::MAX && v.minor < u32::MAX && v.patch < u32::MAX
}

/// The release after `v` that a set of commits calls for.
pub open spec fn next_version(v: SemVer, cs: Seq<Commit>) -> SemVer
    recommends
        bumpable(v),
{
    if has_breaking(cs) {
        SemVer { major: (v.major + 1) as u32, minor: 0, patch: 0 }
    } else if has_feat(cs) {
        SemVer { major: v.major, minor: (v.minor + 1) as u32, patch: 0 }
    } else {
        SemVer { major: v.major, minor: v.minor, patch: (v.patch + 1) as u32 }
    }
}

fn component_of(clean: &Vec<char>, n: usize) -> (r: u32)
    ensures
        r == component(clean@, n as nat),
{
    let dot = chars_of(".");
    match nth_field_exec(clean, &dot, n) {
        Some(f) => match parse_u32(&f) {
            Some(x) => x,
            None => 0,
        },
        None => 0,
    }
}

impl SemVer {
    /// Reads `major.minor.patch` after any leading `v`s; a missing or
    /// non-numeric component reads as 0, so every input gives a version.
    pub fn parse(version_str: &str) -> (r: Result<SemVer, String>)
        ensures
            r matches Ok(v) && v.major == component(strip_v(version_str@), 0) && v.minor
                == component(strip_v(version_str@), 1) && v.patch == component(
                strip_v(version_str@),
                2,
            ),
    {
        let s = chars_of(version_str);
        let mut i: usize = 0;
        assert(s@.subrange(0, s.len() as int) =~= s@);
        while i < s.len() && s[i] == 'v'
            invariant
                i <= s.len(),
                strip_v(s@) == strip_v(s@.subrange(i as int, s.len() as int)),
            decreases s.len() - i,
        {
            proof {
                let t = s@.subrange(i as int, s.len() as int);
                assert(t.drop_first() =~= s@.subrange(i + 1, s.len() as int));
            }
            i = i + 1;
        }
        let clean = crate::text::slice_of(&s, i, s.len());
        proof {
            assert(s@.subrange(0, s.len() as int) =~= s@);
        }
        Ok(
            SemVer {
                major: component_of(&clean, 0),
                minor: component_of(&clean, 1),
                patch: component_of(&clean, 2),
            },
        )
    }

    pub fn bump_major(&self) -> (r: SemVer)
        requires
            self.major < u32::MAX,
        ensures
            r == (SemVer { major: (self.major + 1) as u32, minor: 0, patch: 0 }),
    {
        SemVer { major: self.major + 1, minor: 0, patch: 0 }
    }

    pub fn bump_minor(&self) -> (r: SemVer)
        requires
            self.minor < u32::MAX,
        ensures
            r == (SemVer { major: self.major, minor: (self.minor + 1) as u32, patch: 0 }),
    {
        SemVer { major: self.major, minor: self.minor + 1, patch: 0 }
    }

    pub fn bump_patch(&self) -> (r: SemVer)
        requires
            self.patch < u32::MAX,
        ensures
            r == (SemVer { major: self.major, minor: self.minor, patch: (self.patch + 1) as u32 }),
    {
        SemVer { major: self.major, minor: self.minor, patch: self.patch + 1 }
    }

    /// `major.minor.patch`.
    pub fn to_string(&self) -> (r: String)
        ensures
            r@ == semver_text(*self),
    {
        string_of(&self.text())
    }

    fn text(&self) -> (r: Vec<char>)
        ensures
            r@ == semver_text(*self),
    {
        let mut out = decimal_of(self.major as u64);
        push_str(&mut out, ".");
        push_chars(&mut out, &decimal_of(self.minor as u64));
        push_str(&mut out, ".");
        push_chars(&mut out, &decimal_of(self.patch as u64));
        out
    }
}

/// The next release: a major bump if any commit is breaking, else a minor
/// bump if any is a feature, else a patch bump.
pub fn calculate_next_version(current: &SemVer, commits: &[Commit]) -> (r: SemVer)
    requires
        bumpable(*current),
    ensures
        r == next_version(*current, commits@),
{
    let feat = "feat".to_owned();
    let mut breaking = false;
    let mut featured = false;
    let mut i: usize = 0;
    while i < commits.len()
        invariant
            i <= commits.len(),
            feat@ == "feat"@,
            breaking == has_breaking(commits@.subrange(0, i as int)),
            featured == has_feat(commits@.subrange(0, i as int)),
        decreases commits.len() - i,
    {
        let c = &commits[i];
        let ghost pre = commits@.subrange(0, i as int);
        let ghost post = commits@.subrange(0, i + 1);
        proof {
            assert forall|j: int| 0 <= j < i implies post[j] == pre[j] by {}
            assert(post[i as int] == commits@[i as int]);
            if has_breaking(pre) {
                let j = choose|j: int| 0 <= j < pre.len() && (#[trigger] pre[j]).is_breaking;
                assert(post[j] == pre[j]);
            }
            if has_feat(pre) {
                let j = choose|j: int| 0 <= j < pre.len() && is_feat(#[trigger] pre[j]);
                assert(post[j] == pre[j]);
            }
            if has_breaking(post) && !c.is_breaking {
                let j = choose|j: int| 0 <= j < post.len() && (#[trigger] post[j]).is_breaking;
                assert(pre[j] == post[j]);
            }
            if has_feat(post) && !is_feat(*c) {
                let j = choose|j: int| 0 <= j < post.len() && is_feat(#[trigger] post[j]);
                assert(pre[j] == post[j]);
            }
        }
        breaking = breaking || c.is_breaking;
        featured = featured || c.commit_type == feat;
        i = i + 1;
    }
    assert(commits@.subrange(0, i as int) =~= commits@);
    if breaking {
        current.bump_major()
    } else if featured {
        current.bump_minor()
    } else {
        current.bump_patch()
    }
}

fn section_bullets(commits: &[Commit], sel: usize) -> (r: Vec<char>)
    requires
        sel <= 2,
    ensures
        r@ == bullets(commits@, sel as int),
{
    let feat = "feat".to_owned();
    let fix = "fix".to_owned();
    let mut out: Vec<char> = Vec::new();
    let mut i: usize = 0;
    while i < commits.len()
        invariant
            i <= commits.len(),
            sel <= 2,
            feat@ == "feat"@,
            fix@ == "fix"@,
            out@ == bullets(commits@.subrange(0, i as int), sel as int),
        decreases commits.len() - i,
    {
        let c = &commits[i];
        let f = c.commit_type == feat;
        let x = c.commit_type == fix;
        let take = if sel == 0 {
            f
        } else if sel == 1 {
            x
        } else {
            !f && !x
        };
        proof {
            assert(commits@.subrange(0, i + 1).drop_last() =~= commits@.subrange(0, i as int));
            assert(commits@.subrange(0, i + 1).last() == *c);
        }
        if take {
            push_str(&mut out, "- ");
            push_chars(&mut out, &chars_of(c.description.as_str()));
            push_str(&mut out, "\n");
        }
        i = i + 1;
    }
    assert(commits@.subrange(0, i as int) =~= commits@);
    out
}

fn push_section(out: &mut Vec<char>, title: &str, body: &Vec<char>)
    ensures
        final(out)@ == old(out)@ + section(title@, body@),
{
    if body.len() > 0 {
        push_str(out, title);
        push_chars(out, body);
        push_str(out, "\n");
    } else {
        assert(old(out)@ + section(title@, body@) =~= old(out)@);
    }
}

/// The changelog of a release: a `## v<version>` heading, then a section for
/// features, one for bug fixes and one for other changes, each present only
/// when it lists a commit.
pub fn generate_changelog(version: &SemVer, commits: &[Commit]) -> (r: String)
    ensures
        r@ == changelog(*version, commits@),
{
    let mut out = chars_of("## v");
    push_chars(&mut out, &version.text());
    push_str(&mut out, "\n\n");
    push_section(&mut out, "### Features\n\n", &section_bullets(commits, 0));
    push_section(&mut out, "### Bug Fixes\n\n", &section_bullets(commits, 1));
    push_section(&mut out, "### Other Changes\n\n", &section_bullets(commits, 2));
    string_of(&out)
}

} // verus!
