//! Ranking of locally bundled offline installer files by filename
//! heuristics. A file qualifies as a candidate when its name, compared
//! case-insensitively, starts with the product prefix and ends with the
//! OS-appropriate installer extension. Architecture agreement is the
//! dominant score signal; a long-term-support marker and a version marker
//! add smaller weight; ties fall to the lexicographically greatest name.

use vstd::prelude::*;

use crate::strutil::chars_of;
use crate::strutil::contains_chars;
use crate::strutil::ends_with_chars;
use crate::strutil::lemma_str_lt_trans;
use crate::strutil::lemma_str_lt_trichotomy;
use crate::strutil::lower_chars;
use crate::strutil::spec_contains;
use crate::strutil::spec_ends_with;
use crate::strutil::spec_lower;
use crate::strutil::spec_starts_with;
use crate::strutil::spec_str_lt;
use crate::strutil::starts_with_chars;
use crate::strutil::str_lt_chars;

verus! {

/// The name, lower-cased, starts with the product prefix and ends in the
/// Windows installer extension.
pub open spec fn spec_is_msi_candidate(name: Seq<char>) -> bool {
    let n = spec_lower(name);
    spec_starts_with(n, "node"@) && spec_ends_with(n, ".msi"@)
}

/// The name, lower-cased, starts with the product prefix and ends in the
/// macOS installer extension.
pub open spec fn spec_is_pkg_candidate(name: Seq<char>) -> bool {
    let n = spec_lower(name);
    spec_starts_with(n, "node"@) && spec_ends_with(n, ".pkg"@)
}

/// The lower-cased name mentions a 64-bit ARM architecture.
pub open spec fn spec_names_arm(n: Seq<char>) -> bool {
    spec_contains(n, "arm64"@) || spec_contains(n, "aarch64"@)
}

/// The lower-cased name mentions a 64-bit Intel architecture.
pub open spec fn spec_names_x64(n: Seq<char>) -> bool {
    spec_contains(n, "x64"@) || spec_contains(n, "x86_64"@) || spec_contains(n, "intel"@)
}

/// The host architecture string denotes 64-bit ARM.
pub open spec fn spec_arch_is_arm(arch: Seq<char>) -> bool {
    let a = spec_lower(arch);
    spec_contains(a, "aarch64"@) || spec_contains(a, "arm64"@)
}

/// Secondary score signals shared by both installer kinds: a
/// long-term-support marker and a version marker.
pub open spec fn spec_secondary_score(n: Seq<char>) -> int {
    (if spec_contains(n, "lts"@) {
        5int
    } else {
        0int
    }) + (if spec_contains(n, "v"@) {
        1int
    } else {
        0int
    })
}

/// Score of a Windows installer filename: 64-bit Intel is taken to be
/// the host architecture, so a matching name adds the dominant weight
/// and a name that names the conflicting architecture subtracts.
pub open spec fn spec_score_msi(name: Seq<char>) -> int {
    let n = spec_lower(name);
    (if spec_names_x64(n) {
        30int
    } else {
        0int
    }) + (if spec_names_arm(n) {
        -10int
    } else {
        0int
    }) + spec_secondary_score(n)
}

/// Score of a macOS installer filename against the host architecture: a
/// matching architecture adds the dominant weight, a conflicting one
/// subtracts.
pub open spec fn spec_score_pkg(name: Seq<char>, arch: Seq<char>) -> int {
    let n = spec_lower(name);
    (if spec_arch_is_arm(arch) {
        (if spec_names_arm(n) {
            30int
        } else {
            0int
        }) + (if spec_names_x64(n) {
            -10int
        } else {
            0int
        })
    } else {
        (if spec_names_x64(n) {
            30int
        } else {
            0int
        }) + (if spec_names_arm(n) {
            -10int
        } else {
            0int
        })
    }) + spec_secondary_score(n)
}

pub fn is_node_msi_candidate(name: &str) -> (r: bool)
    ensures
        r == spec_is_msi_candidate(name@),
{
    let cs = chars_of(name);
    let n = lower_chars(&cs);
    starts_with_chars(&n, &chars_of("node")) && ends_with_chars(&n, &chars_of(".msi"))
}

pub fn is_node_pkg_candidate(name: &str) -> (r: bool)
    ensures
        r == spec_is_pkg_candidate(name@),
{
    let cs = chars_of(name);
    let n = lower_chars(&cs);
    starts_with_chars(&n, &chars_of("node")) && ends_with_chars(&n, &chars_of(".pkg"))
}

fn secondary_score(n: &Vec<char>) -> (r: i32)
    ensures
        r as int == spec_secondary_score(n@),
        0 <= r <= 6,
{
    let mut score: i32 = 0;
    if contains_chars(n, &chars_of("lts")) {
        score = score + 5;
    }
    if contains_chars(n, &chars_of("v")) {
        score = score + 1;
    }
    score
}

pub fn score_node_msi_filename(name: &str) -> (r: i32)
    ensures
        r as int == spec_score_msi(name@),
{
    let cs = chars_of(name);
    let n = lower_chars(&cs);
    let mut score: i32 = 0;
    if contains_chars(&n, &chars_of("x64")) || contains_chars(&n, &chars_of("x86_64"))
        || contains_chars(&n, &chars_of("intel")) {
        score = score + 30;
    }
    if contains_chars(&n, &chars_of("arm64")) || contains_chars(&n, &chars_of("aarch64")) {
        score = score - 10;
    }
    score + secondary_score(&n)
}

pub fn score_node_pkg_filename(name: &str, arch: &str) -> (r: i32)
    ensures
        r as int == spec_score_pkg(name@, arch@),
{
    let acs = chars_of(arch);
    let a = lower_chars(&acs);
    let cs = chars_of(name);
    let n = lower_chars(&cs);
    let arm_host = contains_chars(&a, &chars_of("aarch64")) || contains_chars(
        &a,
        &chars_of("arm64"),
    );
    let names_arm = contains_chars(&n, &chars_of("arm64")) || contains_chars(
        &n,
        &chars_of("aarch64"),
    );
    let names_x64 = contains_chars(&n, &chars_of("x64")) || contains_chars(
        &n,
        &chars_of("x86_64"),
    ) || contains_chars(&n, &chars_of("intel"));
    let mut score: i32 = 0;
    if arm_host {
        if names_arm {
            score = score + 30;
        }
        if names_x64 {
            score = score - 10;
        }
    } else {
        if names_x64 {
            score = score + 30;
        }
        if names_arm {
            score = score - 10;
        }
    }
    score + secondary_score(&n)
}

/// Entry `i` ranks at least as high as entry `j`: a strictly greater
/// score, or an equal score and a name that is not lexicographically
/// smaller.
pub open spec fn spec_ranks_at_least(
    score_i: int,
    name_i: Seq<char>,
    score_j: int,
    name_j: Seq<char>,
) -> bool {
    score_i > score_j || (score_i == score_j && !spec_str_lt(name_i, name_j))
}

/// Among the flagged entries, returns the index of one that ranks at
/// least as high as every flagged entry; `None` exactly when no entry is
/// flagged.
fn pick_best(names: &Vec<String>, flags: &Vec<bool>, scores: &Vec<i32>) -> (r: Option<usize>)
    requires
        names@.len() == flags@.len(),
        names@.len() == scores@.len(),
    ensures
        r is None <==> (forall|j: int| 0 <= j < names@.len() ==> !flags@[j]),
        match r {
            Option::Some(i) => 0 <= i < names@.len() && flags@[i as int] && forall|j: int|
                0 <= j < names@.len() && flags@[j] ==> spec_ranks_at_least(
                    scores@[i as int] as int,
                    names@[i as int]@,
                    scores@[j] as int,
                    names@[j]@,
                ),
            Option::None => true,
        },
{
    let n = names.len();
    let mut best: Option<usize> = None;
    let mut best_chars: Vec<char> = Vec::new();
    let mut i: usize = 0;
    while i < n
        invariant
            n == names@.len(),
            n == flags@.len(),
            n == scores@.len(),
            i <= n,
            best is None ==> (forall|j: int| 0 <= j < i ==> !flags@[j]),
            match best {
                Option::Some(b) => 0 <= b < i && flags@[b as int] && best_chars@
                    == names@[b as int]@ && forall|j: int|
                    0 <= j < i && flags@[j] ==> spec_ranks_at_least(
                        scores@[b as int] as int,
                        names@[b as int]@,
                        scores@[j] as int,
                        names@[j]@,
                    ),
                Option::None => true,
            },
        decreases n - i,
    {
        if flags[i] {
            let cur_chars = chars_of(names[i].as_str());
            match best {
                Option::None => {
                    proof {
                        lemma_str_lt_trichotomy(names@[i as int]@, names@[i as int]@);
                    }
                    best = Some(i);
                    best_chars = cur_chars;
                },
                Option::Some(b) => {
                    let ghost bn = names@[b as int]@;
                    let ghost nm = names@[i as int]@;
                    if scores[i] > scores[b] || (scores[i] == scores[b] && str_lt_chars(
                        &best_chars,
                        &cur_chars,
                    )) {
                        proof {
                            lemma_str_lt_trichotomy(bn, nm);
                            lemma_str_lt_trichotomy(nm, nm);
                            assert forall|j: int| 0 <= j < i + 1 && flags@[j] implies
                                spec_ranks_at_least(
                                    scores@[i as int] as int,
                                    nm,
                                    scores@[j] as int,
                                    names@[j]@,
                                ) by {
                                if j < i {
                                    let nj = names@[j]@;
                                    if scores@[i as int] == scores@[b as int] && scores@[j]
                                        == scores@[b as int] {
                                        lemma_str_lt_trichotomy(bn, nj);
                                        if nj == bn {
                                            lemma_str_lt_trichotomy(nm, nj);
                                        } else if spec_str_lt(nj, bn) {
                                            lemma_str_lt_trans(nj, bn, nm);
                                            lemma_str_lt_trichotomy(nm, nj);
                                        }
                                    }
                                }
                            }
                        }
                        best = Some(i);
                        best_chars = cur_chars;
                    }
                },
            }
        }
        i = i + 1;
    }
    best
}

/// Selects the best Windows offline installer among the given directory
/// entries: the candidate with the highest score, ties broken by the
/// lexicographically greatest name. `None` exactly when no entry
/// qualifies.
pub fn find_local_node_msi(names: &Vec<String>) -> (r: Option<usize>)
    ensures
        r is None <==> (forall|j: int| 0 <= j < names@.len() ==> !spec_is_msi_candidate(
            names@[j]@,
        )),
        match r {
            Option::Some(i) => 0 <= i < names@.len() && spec_is_msi_candidate(names@[i as int]@)
                && forall|j: int|
                0 <= j < names@.len() && spec_is_msi_candidate(names@[j]@)
                    ==> spec_ranks_at_least(
                    spec_score_msi(names@[i as int]@),
                    names@[i as int]@,
                    spec_score_msi(names@[j]@),
                    names@[j]@,
                ),
            Option::None => true,
        },
{
    let n = names.len();
    let mut flags: Vec<bool> = Vec::new();
    let mut scores: Vec<i32> = Vec::new();
    let mut i: usize = 0;
    while i < n
        invariant
            n == names@.len(),
            i <= n,
            flags@.len() == i,
            scores@.len() == i,
            forall|j: int|
                0 <= j < i ==> flags@[j] == spec_is_msi_candidate(names@[j]@) && scores@[j] as int
                    == spec_score_msi(names@[j]@),
        decreases n - i,
    {
        flags.push(is_node_msi_candidate(names[i].as_str()));
        scores.push(score_node_msi_filename(names[i].as_str()));
        i = i + 1;
    }
    let r = pick_best(names, &flags, &scores);
    proof {
        match r {
            Option::Some(b) => {
                assert forall|j: int|
                    0 <= j < names@.len() && spec_is_msi_candidate(names@[j]@) implies
                    spec_ranks_at_least(
                        spec_score_msi(names@[b as int]@),
                        names@[b as int]@,
                        spec_score_msi(names@[j]@),
                        names@[j]@,
                    ) by {
                    assert(flags@[j]);
                }
            },
            Option::None => {
                assert forall|j: int|
                    0 <= j < names@.len() implies !spec_is_msi_candidate(names@[j]@) by {
                    assert(!flags@[j]);
                }
            },
        }
    }
    r
}

/// Selects the best macOS offline installer among the given directory
/// entries for the given host architecture, with the same ranking rule as
/// the Windows selection.
pub fn find_local_node_pkg(names: &Vec<String>, arch: &str) -> (r: Option<usize>)
    ensures
        r is None <==> (forall|j: int| 0 <= j < names@.len() ==> !spec_is_pkg_candidate(
            names@[j]@,
        )),
        match r {
            Option::Some(i) => 0 <= i < names@.len() && spec_is_pkg_candidate(names@[i as int]@)
                && forall|j: int|
                0 <= j < names@.len() && spec_is_pkg_candidate(names@[j]@)
                    ==> spec_ranks_at_least(
                    spec_score_pkg(names@[i as int]@, arch@),
                    names@[i as int]@,
                    spec_score_pkg(names@[j]@, arch@),
                    names@[j]@,
                ),
            Option::None => true,
        },
{
    let n = names.len();
    let mut flags: Vec<bool> = Vec::new();
    let mut scores: Vec<i32> = Vec::new();
    let mut i: usize = 0;
    while i < n
        invariant
            n == names@.len(),
            i <= n,
            flags@.len() == i,
            scores@.len() == i,
            forall|j: int|
                0 <= j < i ==> flags@[j] == spec_is_pkg_candidate(names@[j]@) && scores@[j] as int
                    == spec_score_pkg(names@[j]@, arch@),
        decreases n - i,
    {
        flags.push(is_node_pkg_candidate(names[i].as_str()));
        scores.push(score_node_pkg_filename(names[i].as_str(), arch));
        i = i + 1;
    }
    let r = pick_best(names, &flags, &scores);
    proof {
        match r {
            Option::Some(b) => {
                assert forall|j: int|
                    0 <= j < names@.len() && spec_is_pkg_candidate(names@[j]@) implies
                    spec_ranks_at_least(
                        spec_score_pkg(names@[b as int]@, arch@),
                        names@[b as int]@,
                        spec_score_pkg(names@[j]@, arch@),
                        names@[j]@,
                    ) by {
                    assert(flags@[j]);
                }
            },
            Option::None => {
                assert forall|j: int|
                    0 <= j < names@.len() implies !spec_is_pkg_candidate(names@[j]@) by {
                    assert(!flags@[j]);
                }
            },
        }
    }
    r
}

} // verus!
