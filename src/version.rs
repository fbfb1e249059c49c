//! Release versions: reading them from tag names, bumping and rendering them.
use vstd::prelude::*;

verus! {

/// A `major.minor.patch` version.
#[derive(Clone, Copy, Debug, PartialEq, Eq, Structural)]
pub struct Version {
    pub major: u64,
    pub minor: u64,
    pub patch: u64,
}

/// The transition a release makes, from the current version to the next.
#[derive(Clone, Copy, Debug, PartialEq, Eq, Structural)]
pub struct VersionUpdate {
    pub old: Version,
    pub new: Version,
}

pub open spec fn is_digit(c: u8) -> bool {
    48 <= c <= 57
}

/// The value of a run of decimal digits.
pub open spec fn number(s: Seq<u8>) -> nat
    decreases s.len(),
{
    if s.len() == 0 {
        0
    } else {
        number(s.drop_last()) * 10 + (s.last() - 48) as nat
    }
}

/// The end of the run of digits of `s` that starts at `i`.
pub open spec fn run_end(s: Seq<u8>, i: int) -> int
    decreases s.len() - i,
{
    if 0 <= i < s.len() && is_digit(s[i]) {
        run_end(s, i + 1)
    } else {
        i
    }
}

/// The digits of `s` from `i` on, as a component of a version, when they are
/// at least one digit and fit in a `u64`.
pub open spec fn component(s: Seq<u8>, i: int) -> Option<u64> {
    let e = run_end(s, i);
    if e > i && number(s.subrange(i, e)) <= u64::MAX {
        Some(number(s.subrange(i, e)) as u64)
    } else {
        None
    }
}

/// Where the numbers of a version tag start: after an optional leading `v`.
pub open spec fn body_start(s: Seq<u8>) -> int {
    if s.len() > 0 && s[0] == 118u8 {
        1
    } else {
        0
    }
}

/// The version a tag name denotes: `MAJOR.MINOR.PATCH`, each a run of
/// decimal digits, optionally after a `v`; `None` for any other name.
pub open spec fn parse_spec(s: Seq<u8>) -> Option<Version> {
    let a = body_start(s);
    let e1 = run_end(s, a);
    let e2 = run_end(s, e1 + 1);
    let e3 = run_end(s, e2 + 1);
    if e1 < s.len() && s[e1] == 46u8 && e2 < s.len() && s[e2] == 46u8 && e3 == s.len()
        && component(s, a) is Some && component(s, e1 + 1) is Some
        && component(s, e2 + 1) is Some {
        Some(
            Version {
                major: component(s, a)->Some_0,
                minor: component(s, e1 + 1)->Some_0,
                patch: component(s, e2 + 1)->Some_0,
            },
        )
    } else {
        None
    }
}

proof fn lemma_run_end_bounds(s: Seq<u8>, i: int)
    requires
        0 <= i <= s.len(),
    ensures
        i <= run_end(s, i) <= s.len(),
        forall|k: int| i <= k < run_end(s, i) ==> is_digit(s[k]),
        run_end(s, i) < s.len() ==> !is_digit(s[run_end(s, i)]),
    decreases s.len() - i,
{
    if i < s.len() && is_digit(s[i]) {
        lemma_run_end_bounds(s, i + 1);
    }
}

proof fn lemma_number_grows(s: Seq<u8>, i: int, j: int, k: int)
    requires
        0 <= i <= j <= k <= s.len(),
        forall|t: int| i <= t < k ==> is_digit(s[t]),
    ensures
        number(s.subrange(i, j)) <= number(s.subrange(i, k)),
    decreases k - j,
{
    if j < k {
        lemma_number_grows(s, i, j, k - 1);
        assert(s.subrange(i, k).drop_last() =~= s.subrange(i, k - 1));
    }
}

/// Reads the run of digits of `s` that starts at `i`: its end and, when it
/// fits in a `u64`, its value.
fn read_component(s: &Vec<u8>, i: usize) -> (r: (usize, Option<u64>))
    requires
        i <= s.len(),
    ensures
        r.0 == run_end(s@, i as int),
        r.1 == component(s@, i as int) || (r.0 == i && r.1 is None),
        r.0 > i ==> r.1 == component(s@, i as int),
{
    proof {
        lemma_run_end_bounds(s@, i as int);
    }
    let mut k: usize = i;
    let mut value: u64 = 0;
    let mut fits = true;
    while k < s.len() && 48 <= s[k] && s[k] <= 57
        invariant
            i <= k <= s.len(),
            run_end(s@, i as int) == run_end(s@, k as int),
            forall|t: int| i <= t < k ==> is_digit(s@[t]),
            fits ==> value == number(s@.subrange(i as int, k as int)),
            !fits ==> number(s@.subrange(i as int, k as int)) > u64::MAX,
        decreases s.len() - k,
    {
        let d = (s[k] - 48) as u64;
        proof {
            assert(s@.subrange(i as int, k + 1).drop_last() =~= s@.subrange(i as int, k as int));
            lemma_number_grows(s@, i as int, k as int, k + 1);
        }
        if fits {
            if value > (u64::MAX - d) / 10 {
                fits = false;
            } else {
                value = value * 10 + d;
            }
        }
        k = k + 1;
    }
    proof {
        lemma_run_end_bounds(s@, k as int);
    }
    if k == i || !fits {
        (k, None)
    } else {
        (k, Some(value))
    }
}

/// The version a tag name denotes, if it is one.
pub fn parse_version(s: &Vec<u8>) -> (r: Option<Version>)
    ensures
        r == parse_spec(s@),
{
    let a: usize = if s.len() > 0 && s[0] == 118u8 {
        1
    } else {
        0
    };
    let (e1, major) = read_component(s, a);
    if e1 >= s.len() || s[e1] != 46u8 || major.is_none() {
        return None;
    }
    let (e2, minor) = read_component(s, e1 + 1);
    if e2 >= s.len() || s[e2] != 46u8 || minor.is_none() {
        return None;
    }
    let (e3, patch) = read_component(s, e2 + 1);
    if e3 != s.len() || patch.is_none() {
        return None;
    }
    Some(Version { major: major.unwrap(), minor: minor.unwrap(), patch: patch.unwrap() })
}

/// `a` is a later version than `b`.
pub open spec fn later(a: Version, b: Version) -> bool {
    a.major > b.major || (a.major == b.major && (a.minor > b.minor || (a.minor == b.minor
        && a.patch > b.patch)))
}

pub open spec fn zero() -> Version {
    Version { major: 0, minor: 0, patch: 0 }
}

/// The latest version among the tag names that denote one; `0.0.0` when none does.
pub open spec fn latest_spec(tags: Seq<Seq<u8>>) -> Version
    decreases tags.len(),
{
    if tags.len() == 0 {
        zero()
    } else {
        let rest = latest_spec(tags.drop_last());
        match parse_spec(tags.last()) {
            Some(v) => if later(v, rest) {
                v
            } else {
                rest
            },
            None => rest,
        }
    }
}

/// The current version of a project whose tags are `tags`.
pub fn latest_version(tags: &Vec<Vec<u8>>) -> (r: Version)
    ensures
        r == latest_spec(tags@.map_values(|t: Vec<u8>| t@)),
{
    let ghost names = tags@.map_values(|t: Vec<u8>| t@);
    let mut best = Version { major: 0, minor: 0, patch: 0 };
    let mut i: usize = 0;
    while i < tags.len()
        invariant
            i <= tags.len(),
            names == tags@.map_values(|t: Vec<u8>| t@),
            best == latest_spec(names.take(i as int)),
        decreases tags.len() - i,
    {
        proof {
            assert(names.take(i + 1).drop_last() =~= names.take(i as int));
        }
        match parse_version(&tags[i]) {
            Some(v) => {
                if v.major > best.major || (v.major == best.major && (v.minor > best.minor || (
                v.minor == best.minor && v.patch > best.patch))) {
                    best = v;
                }
            },
            None => {},
        }
        i = i + 1;
    }
    assert(names.take(tags.len() as int) =~= names);
    best
}

/// A kind of version transition.
#[derive(Clone, Copy, Debug, PartialEq, Eq, Structural)]
pub enum Operation {
    Major,
    Minor,
    Patch,
}

/// The version that `op` leads to from `v` (meaningful when `applicable(op, v)`).
pub open spec fn bump_spec(op: Operation, v: Version) -> Version {
    match op {
        Operation::Major => Version { major: (v.major + 1) as u64, minor: 0, patch: 0 },
        Operation::Minor => Version { major: v.major, minor: (v.minor + 1) as u64, patch: 0 },
        Operation::Patch => Version { major: v.major, minor: v.minor, patch: (v.patch + 1) as u64 },
    }
}

/// The transition `op` makes from `v`, when it can be made.
pub open spec fn update_spec(op: Operation, v: Version) -> Option<VersionUpdate> {
    if applicable(op, v) {
        Some(VersionUpdate { old: v, new: bump_spec(op, v) })
    } else {
        None
    }
}

/// `op` can be applied to `v`: the bumped component stays within `u64`.
pub open spec fn applicable(op: Operation, v: Version) -> bool {
    match op {
        Operation::Major => v.major < u64::MAX,
        Operation::Minor => v.minor < u64::MAX,
        Operation::Patch => v.patch < u64::MAX,
    }
}

impl Operation {
    /// The transition this operation makes from `current`; `None` when the
    /// bumped component would not fit in a `u64`.
    pub fn version_update(&self, current: Version) -> (r: Option<VersionUpdate>)
        ensures
            r == update_spec(*self, current),
    {
        match self {
            Operation::Major => {
                if current.major == u64::MAX {
                    return None;
                }
                Some(
                    VersionUpdate {
                        old: current,
                        new: Version { major: current.major + 1, minor: 0, patch: 0 },
                    },
                )
            },
            Operation::Minor => {
                if current.minor == u64::MAX {
                    return None;
                }
                Some(
                    VersionUpdate {
                        old: current,
                        new: Version { major: current.major, minor: current.minor + 1, patch: 0 },
                    },
                )
            },
            Operation::Patch => {
                if current.patch == u64::MAX {
                    return None;
                }
                Some(
                    VersionUpdate {
                        old: current,
                        new: Version {
                            major: current.major,
                            minor: current.minor,
                            patch: current.patch + 1,
                        },
                    },
                )
            },
        }
    }
}

/// The decimal digit `d` as a character.
pub open spec fn digit_char(d: nat) -> char {
    if d == 0 { '0' } else if d == 1 { '1' } else if d == 2 { '2' } else if d == 3 { '3' }
    else if d == 4 { '4' } else if d == 5 { '5' } else if d == 6 { '6' } else if d == 7 { '7' }
    else if d == 8 { '8' } else { '9' }
}

/// The decimal text of `n`, without leading zeros.
pub open spec fn decimal(n: nat) -> Seq<char>
    decreases n,
{
    if n < 10 {
        seq![digit_char(n)]
    } else {
        decimal(n / 10) + seq![digit_char(n % 10)]
    }
}

/// The text of a version: `MAJOR.MINOR.PATCH`.
pub open spec fn version_text(v: Version) -> Seq<char> {
    decimal(v.major as nat) + seq!['.'] + decimal(v.minor as nat) + seq!['.'] + decimal(
        v.patch as nat,
    )
}

fn digit_str(d: u64) -> (r: &'static str)
    requires
        d < 10,
    ensures
        r@ == seq![digit_char(d as nat)],
{
    proof {
        reveal_strlit("0");
        reveal_strlit("1");
        reveal_strlit("2");
        reveal_strlit("3");
        reveal_strlit("4");
        reveal_strlit("5");
        reveal_strlit("6");
        reveal_strlit("7");
        reveal_strlit("8");
        reveal_strlit("9");
    }
    if d == 0 { "0" } else if d == 1 { "1" } else if d == 2 { "2" } else if d == 3 { "3" }
    else if d == 4 { "4" } else if d == 5 { "5" } else if d == 6 { "6" } else if d == 7 { "7" }
    else if d == 8 { "8" } else { "9" }
}

fn push_decimal(s: &mut String, n: u64)
    ensures
        final(s)@ == old(s)@ + decimal(n as nat),
    decreases n,
{
    if n >= 10 {
        push_decimal(s, n / 10);
    }
    s.append(digit_str(n % 10));
    assert(s@ =~= old(s)@ + decimal(n as nat));
}

/// Appends the text of `v` to `s`.
pub fn push_version(s: &mut String, v: Version)
    ensures
        final(s)@ == old(s)@ + version_text(v),
{
    proof {
        reveal_strlit(".");
    }
    push_decimal(s, v.major);
    s.append(".");
    push_decimal(s, v.minor);
    s.append(".");
    push_decimal(s, v.patch);
    assert(final(s)@ =~= old(s)@ + version_text(v));
}

} // verus!
