//! Version strings: a dotted version carries up to three non-negative
//! integer components, optionally behind a leading non-digit marker (such
//! as a `v` prefix) and in front of trailing pre-release text. Components
//! beyond the third are ignored and missing components compare as zero.
//! Component values are saturated at `u64::MAX`.

use vstd::prelude::*;

use crate::strutil::chars_of;

verus! {

/// The least interpreter major version the application accepts.
pub const MIN_NODE_MAJOR: u64 = 22;

pub open spec fn spec_is_digit(c: char) -> bool {
    48 <= c as u32 && c as u32 <= 57
}

pub open spec fn spec_digit_val(c: char) -> nat {
    (c as u32 - 48) as nat
}

pub fn is_digit(c: char) -> (r: bool)
    ensures
        r == spec_is_digit(c),
{
    let u = c as u32;
    48 <= u && u <= 57
}

/// Decimal value of a digit sequence, most significant digit first.
pub open spec fn spec_num_of(s: Seq<char>) -> nat
    decreases s.len(),
{
    if s.len() == 0 {
        0
    } else {
        spec_num_of(s.drop_last()) * 10 + spec_digit_val(s.last())
    }
}

/// The input with its leading run of non-digit characters removed.
pub open spec fn spec_skip_marker(s: Seq<char>) -> Seq<char>
    decreases s.len(),
{
    if s.len() == 0 || spec_is_digit(s[0]) {
        s
    } else {
        spec_skip_marker(s.drop_first())
    }
}

/// Length of the leading run of digits.
pub open spec fn spec_digit_run(s: Seq<char>) -> nat
    decreases s.len(),
{
    if s.len() > 0 && spec_is_digit(s[0]) {
        1 + spec_digit_run(s.drop_first())
    } else {
        0
    }
}

/// Up to `k` dot-separated integer components read off the front of `s`;
/// text after a component that is not a dot ends the read.
pub open spec fn spec_comps_from(s: Seq<char>, k: nat) -> Seq<nat>
    decreases k,
{
    if k == 0 {
        Seq::empty()
    } else {
        let run = spec_digit_run(s) as int;
        let v = spec_num_of(s.take(run));
        let rest = s.skip(run);
        if rest.len() > 0 && rest[0] == '.' {
            seq![v] + spec_comps_from(rest.drop_first(), (k - 1) as nat)
        } else {
            seq![v]
        }
    }
}

/// The components of a version string: marker skipped, at most three read.
pub open spec fn spec_version_comps(s: Seq<char>) -> Seq<nat> {
    spec_comps_from(spec_skip_marker(s), 3)
}

/// Saturation of a component value at `u64::MAX`.
pub open spec fn spec_sat64(n: nat) -> nat {
    if n > u64::MAX {
        u64::MAX as nat
    } else {
        n
    }
}

/// The `i`-th component, saturated, with missing components read as zero.
pub open spec fn spec_comp(s: Seq<char>, i: int) -> nat {
    let cs = spec_version_comps(s);
    if 0 <= i < cs.len() {
        spec_sat64(cs[i])
    } else {
        0
    }
}

/// `latest` is strictly newer than `current`: the first differing
/// component among the three decides.
pub open spec fn spec_version_newer(current: Seq<char>, latest: Seq<char>) -> bool {
    let a0 = spec_comp(current, 0);
    let a1 = spec_comp(current, 1);
    let a2 = spec_comp(current, 2);
    let b0 = spec_comp(latest, 0);
    let b1 = spec_comp(latest, 1);
    let b2 = spec_comp(latest, 2);
    b0 > a0 || (b0 == a0 && (b1 > a1 || (b1 == a1 && b2 > a2)))
}

/// The two versions have equal components after saturation.
pub open spec fn spec_version_eq(a: Seq<char>, b: Seq<char>) -> bool {
    spec_comp(a, 0) == spec_comp(b, 0) && spec_comp(a, 1) == spec_comp(b, 1) && spec_comp(a, 2)
        == spec_comp(b, 2)
}

/// A present version complies when its major component is at least
/// `MIN_NODE_MAJOR`; an absent version never complies.
pub open spec fn spec_version_compliant(v: Option<Seq<char>>) -> bool {
    match v {
        Option::Some(s) => spec_comp(s, 0) >= MIN_NODE_MAJOR,
        Option::None => false,
    }
}

proof fn lemma_skip_marker_skip(s: Seq<char>, i: int)
    requires
        0 <= i <= s.len(),
        forall|k: int| 0 <= k < i ==> !spec_is_digit(s[k]),
        i < s.len() ==> spec_is_digit(s[i]),
    ensures
        spec_skip_marker(s) == s.skip(i),
    decreases i,
{
    if i == 0 {
        if s.len() > 0 {
            assert(spec_is_digit(s[0]));
        }
        assert(s.skip(0) =~= s);
    } else {
        let t = s.drop_first();
        assert(forall|k: int| 0 <= k < i - 1 ==> t[k] == s[k + 1] && !spec_is_digit(t[k]));
        lemma_skip_marker_skip(t, i - 1);
        assert(t.skip(i - 1) =~= s.skip(i));
    }
}

proof fn lemma_digit_run_window(s: Seq<char>, i: int)
    requires
        0 <= i <= s.len(),
        forall|k: int| 0 <= k < i ==> spec_is_digit(s[k]),
        i < s.len() ==> !spec_is_digit(s[i]),
    ensures
        spec_digit_run(s) == i,
    decreases i,
{
    if i == 0 {
    } else {
        let t = s.drop_first();
        assert(forall|k: int| 0 <= k < i - 1 ==> t[k] == s[k + 1] && spec_is_digit(t[k]));
        if i - 1 < t.len() {
            assert(t[i - 1] == s[i]);
        }
        lemma_digit_run_window(t, i - 1);
    }
}

/// Reads the digit run starting at `from`, returning its saturated value
/// and the position after the run.
fn parse_component(s: &Vec<char>, from: usize) -> (r: (u64, usize))
    requires
        from <= s@.len(),
    ensures
        from <= r.1 <= s@.len(),
        r.1 - from == spec_digit_run(s@.skip(from as int)),
        r.0 == spec_sat64(spec_num_of(s@.subrange(from as int, r.1 as int))),
{
    let mut i: usize = from;
    let mut val: u64 = 0;
    while i < s.len() && is_digit(s[i])
        invariant
            from <= i <= s@.len(),
            forall|k: int| from <= k < i ==> spec_is_digit(s@[k]),
            val == spec_sat64(spec_num_of(s@.subrange(from as int, i as int))),
        decreases s@.len() - i,
    {
        let c = s[i];
        let d = (c as u32 - 48) as u64;
        let ghost p = s@.subrange(from as int, i as int);
        let ghost q = s@.subrange(from as int, i + 1);
        proof {
            assert(q.drop_last() =~= p);
            assert(q.last() == s@[i as int]);
            assert(spec_num_of(q) == spec_num_of(p) * 10 + spec_digit_val(s@[i as int]));
        }
        if val > (u64::MAX - d) / 10 {
            proof {
                assert(spec_num_of(p) * 10 + spec_digit_val(s@[i as int]) > u64::MAX) by (nonlinear_arith)
                    requires
                        val > (u64::MAX - d) / 10,
                        val <= spec_num_of(p),
                        d == spec_digit_val(s@[i as int]),
                        d <= 9,
                        val == spec_sat64(spec_num_of(p)),
                {
                }
            }
            val = u64::MAX;
        } else {
            proof {
                assert(val * 10 + d <= u64::MAX) by (nonlinear_arith)
                    requires
                        val <= (u64::MAX - d) / 10,
                        d <= 9,
                {
                }
                assert(spec_num_of(p) <= u64::MAX) by {
                    if spec_num_of(p) > u64::MAX {
                        assert(val == u64::MAX);
                        assert(u64::MAX > (u64::MAX - d) / 10) by (nonlinear_arith)
                            requires
                                d <= 9,
                        {
                        }
                    }
                }
            }
            val = val * 10 + d;
        }
        i = i + 1;
    }
    proof {
        lemma_digit_run_window(s@.skip(from as int), i - from);
        assert(forall|k: int|
            0 <= k < i - from ==> s@.skip(from as int)[k] == s@[from + k]);
        if (i as int) < s@.len() {
            assert(s@.skip(from as int)[i - from] == s@[i as int]);
        }
    }
    (val, i)
}

/// The three saturated components of a version string, in order.
pub fn version_key(s: &str) -> (r: (u64, u64, u64))
    ensures
        r.0 == spec_comp(s@, 0),
        r.1 == spec_comp(s@, 1),
        r.2 == spec_comp(s@, 2),
{
    let chars = chars_of(s);
    let n = chars.len();
    let mut start: usize = 0;
    while start < n && !is_digit(chars[start])
        invariant
            n == chars@.len(),
            chars@ == s@,
            start <= n,
            forall|k: int| 0 <= k < start ==> !spec_is_digit(s@[k]),
        decreases n - start,
    {
        start = start + 1;
    }
    proof {
        lemma_skip_marker_skip(s@, start as int);
    }
    let ghost body = s@.skip(start as int);
    let (c0, after0) = parse_component(&chars, start);
    proof {
        assert(body.take(spec_digit_run(body) as int) =~= s@.subrange(
            start as int,
            after0 as int,
        ));
    }
    let mut c1: u64 = 0;
    let mut c2: u64 = 0;
    let ghost cs = spec_version_comps(s@);
    let ghost run0 = spec_digit_run(body) as int;
    let ghost v0 = spec_num_of(body.take(run0));
    proof {
        assert(v0 == spec_num_of(s@.subrange(start as int, after0 as int)));
    }
    if after0 < n && chars[after0] == '.' {
        let ghost rest1 = body.skip(run0).drop_first();
        proof {
            assert(body.skip(run0)[0] == s@[after0 as int]);
            assert(body.skip(run0).len() > 0 && body.skip(run0)[0] == '.');
            assert(cs == seq![v0] + spec_comps_from(rest1, 2));
            assert(rest1 =~= s@.skip(after0 + 1));
        }
        let (v1, after1) = parse_component(&chars, after0 + 1);
        let ghost run1 = spec_digit_run(rest1) as int;
        let ghost w1 = spec_num_of(rest1.take(run1));
        proof {
            assert(rest1.take(run1) =~= s@.subrange(after0 + 1, after1 as int));
        }
        c1 = v1;
        if after1 < n && chars[after1] == '.' {
            let ghost rest2 = rest1.skip(run1).drop_first();
            proof {
                assert(rest1.skip(run1)[0] == s@[after1 as int]);
                assert(rest1.skip(run1).len() > 0 && rest1.skip(run1)[0] == '.');
                assert(spec_comps_from(rest1, 2) == seq![w1] + spec_comps_from(rest2, 1));
                assert(rest2 =~= s@.skip(after1 + 1));
            }
            let (v2, after2) = parse_component(&chars, after1 + 1);
            let ghost run2 = spec_digit_run(rest2) as int;
            let ghost w2 = spec_num_of(rest2.take(run2));
            proof {
                assert(rest2.take(run2) =~= s@.subrange(after1 + 1, after2 as int));
                assert(spec_comps_from(rest2.skip(run2).drop_first(), 0)
                    == Seq::<nat>::empty());
                assert(spec_comps_from(rest2, 1) =~= seq![w2]);
                assert(cs =~= seq![v0, w1, w2]);
                assert(cs[0] == v0 && cs[1] == w1 && cs[2] == w2);
            }
            c2 = v2;
        } else {
            proof {
                if after1 < n {
                    assert(rest1.skip(run1)[0] == s@[after1 as int]);
                    assert(rest1.skip(run1)[0] != '.');
                } else {
                    assert(rest1.skip(run1).len() == 0);
                }
                assert(spec_comps_from(rest1, 2) == seq![w1]);
                assert(cs =~= seq![v0, w1]);
                assert(cs[0] == v0 && cs[1] == w1);
            }
        }
    } else {
        proof {
            if after0 < n {
                assert(body.skip(run0)[0] == s@[after0 as int]);
                assert(body.skip(run0)[0] != '.');
            } else {
                assert(body.skip(run0).len() == 0);
            }
            assert(cs == seq![v0]);
        }
    }
    (c0, c1, c2)
}

/// True when `latest` is strictly newer than `current`: an update is
/// available exactly then.
pub fn compare_versions(current: &str, latest: &str) -> (r: bool)
    ensures
        r == spec_version_newer(current@, latest@),
{
    let (a0, a1, a2) = version_key(current);
    let (b0, b1, b2) = version_key(latest);
    b0 > a0 || (b0 == a0 && (b1 > a1 || (b1 == a1 && b2 > a2)))
}

/// True when the version is present and its major component is at least
/// `MIN_NODE_MAJOR`; false when the version is absent.
pub fn check_node_version_requirement(version: &Option<String>) -> (r: bool)
    ensures
        r == spec_version_compliant(version.deep_view()),
{
    match version {
        Option::Some(v) => {
            let (major, _, _) = version_key(v.as_str());
            major >= MIN_NODE_MAJOR
        },
        Option::None => false,
    }
}

/// For a version string shaped as a non-digit marker, a digit run for the
/// major component, and a remainder that does not begin with a digit, the
/// compliance test reads exactly the major run's value.
pub proof fn lemma_compliance_reads_major(marker: Seq<char>, major: Seq<char>, rest: Seq<char>)
    requires
        forall|i: int| 0 <= i < marker.len() ==> !spec_is_digit(marker[i]),
        major.len() > 0,
        forall|i: int| 0 <= i < major.len() ==> spec_is_digit(major[i]),
        rest.len() > 0 ==> !spec_is_digit(rest[0]),
    ensures
        spec_version_compliant(Option::Some(marker + major + rest)) == (spec_num_of(major)
            >= MIN_NODE_MAJOR),
{
    let s = marker + major + rest;
    assert(forall|k: int| 0 <= k < marker.len() ==> s[k] == marker[k]);
    if marker.len() < s.len() {
        assert(s[marker.len() as int] == major[0]);
    }
    lemma_skip_marker_skip(s, marker.len() as int);
    let body = s.skip(marker.len() as int);
    assert(body =~= major + rest);
    assert(forall|k: int| 0 <= k < major.len() ==> body[k] == major[k]);
    if major.len() < body.len() {
        assert(body[major.len() as int] == rest[0]);
    }
    lemma_digit_run_window(body, major.len() as int);
    assert(body.take(major.len() as int) =~= major);
    assert(spec_version_comps(s)[0] == spec_num_of(major));
    assert(spec_comp(s, 0) == spec_sat64(spec_num_of(major)));
    if spec_num_of(major) > u64::MAX {
        assert(spec_sat64(spec_num_of(major)) == u64::MAX);
    }
}

/// A leading non-digit marker never changes the components of a version.
pub proof fn lemma_marker_ignored(marker: Seq<char>, s: Seq<char>)
    requires
        forall|i: int| 0 <= i < marker.len() ==> !spec_is_digit(marker[i]),
    ensures
        spec_version_comps(marker + s) == spec_version_comps(s),
    decreases marker.len(),
{
    if marker.len() == 0 {
        assert(marker + s =~= s);
    } else {
        let t = marker + s;
        assert(!spec_is_digit(t[0]));
        assert(t.drop_first() =~= marker.drop_first() + s);
        assert(forall|i: int|
            0 <= i < marker.drop_first().len() ==> marker.drop_first()[i] == marker[i + 1]);
        lemma_marker_ignored(marker.drop_first(), s);
    }
}

/// The newer-than relation orders versions totally: it is asymmetric, and
/// two versions that neither exceeds have equal components.
pub proof fn lemma_version_order_total(a: Seq<char>, b: Seq<char>)
    ensures
        spec_version_newer(a, b) ==> !spec_version_newer(b, a),
        !spec_version_newer(a, b) && !spec_version_newer(b, a) ==> spec_version_eq(a, b),
        spec_version_eq(a, b) ==> !spec_version_newer(a, b) && !spec_version_newer(b, a),
{
}

/// The newer-than relation is transitive.
pub proof fn lemma_version_order_trans(a: Seq<char>, b: Seq<char>, c: Seq<char>)
    requires
        spec_version_newer(a, b),
        spec_version_newer(b, c),
    ensures
        spec_version_newer(a, c),
{
}

} // verus!
