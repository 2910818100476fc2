//! Candidate install locations for the interpreter executable, ordered
//! most-likely-correct first. Higher-priority discovered locations (an
//! environment variable a version manager sets, a manager's on-disk
//! default-version marker) are prepended to a fixed fallback list; any
//! absent source is silently skipped. The caller reads environment
//! variables and marker files and hands their contents in as plain
//! values; the first existing, invocable path wins.

use vstd::prelude::*;

use crate::strutil::chars_of;
use crate::strutil::concat2;
use crate::strutil::concat3;
use crate::strutil::spec_starts_with;
use crate::strutil::spec_trim;
use crate::strutil::starts_with_chars;
use crate::strutil::string_of_chars;
use crate::strutil::trim_chars;

verus! {

/// Number of characters before the first line feed.
pub open spec fn spec_line_len(s: Seq<char>) -> nat
    decreases s.len(),
{
    if s.len() > 0 && s[0] != '\n' {
        1 + spec_line_len(s.drop_first())
    } else {
        0
    }
}

/// A line with a carriage return left by a CRLF ending has it removed.
pub open spec fn spec_strip_cr(s: Seq<char>) -> Seq<char> {
    if s.len() > 0 && s.last() == '\r' {
        s.drop_last()
    } else {
        s
    }
}

/// The lines of a text: split at line feeds, each line stripped of a
/// trailing carriage return, and no final empty line after a trailing
/// line feed.
pub open spec fn spec_split_lines(s: Seq<char>) -> Seq<Seq<char>>
    decreases s.len(),
{
    if s.len() == 0 {
        Seq::empty()
    } else {
        let k = spec_line_len(s) as int;
        let line = spec_strip_cr(s.take(k));
        if k >= s.len() {
            seq![line]
        } else {
            seq![line] + spec_split_lines(s.skip(k + 1))
        }
    }
}

/// The values of the `current:` lines of a version-manager settings
/// file: the text after the marker, trimmed, kept when non-empty, in
/// line order.
pub open spec fn spec_current_entries(lines: Seq<Seq<char>>) -> Seq<Seq<char>>
    decreases lines.len(),
{
    if lines.len() == 0 {
        Seq::empty()
    } else {
        let l = lines[0];
        let rest = spec_current_entries(lines.drop_first());
        if spec_starts_with(l, "current:"@) && spec_trim(l.skip("current:"@.len() as int)).len()
            > 0 {
            seq![spec_trim(l.skip("current:"@.len() as int))] + rest
        } else {
            rest
        }
    }
}

proof fn lemma_line_len_window(s: Seq<char>, i: int)
    requires
        0 <= i <= s.len(),
        forall|k: int| 0 <= k < i ==> s[k] != '\n',
        i < s.len() ==> s[i] == '\n',
    ensures
        spec_line_len(s) == i,
    decreases i,
{
    if i == 0 {
    } else {
        let t = s.drop_first();
        assert(forall|k: int| 0 <= k < i - 1 ==> t[k] == s[k + 1] && t[k] != '\n');
        if i - 1 < t.len() {
            assert(t[i - 1] == s[i]);
        }
        lemma_line_len_window(t, i - 1);
    }
}

/// Copies `s[a..b]` into a fresh vector.
fn sub_chars(s: &Vec<char>, a: usize, b: usize) -> (r: Vec<char>)
    requires
        a <= b <= s@.len(),
    ensures
        r@ == s@.subrange(a as int, b as int),
{
    let mut r: Vec<char> = Vec::new();
    let mut i: usize = a;
    while i < b
        invariant
            a <= i <= b <= s@.len(),
            r@ == s@.subrange(a as int, i as int),
        decreases b - i,
    {
        r.push(s[i]);
        i = i + 1;
        assert(r@ =~= s@.subrange(a as int, i as int));
    }
    r
}

/// Splits a text into lines as `spec_split_lines` describes.
fn split_lines(s: &Vec<char>) -> (r: Vec<Vec<char>>)
    ensures
        r.deep_view() == spec_split_lines(s@),
{
    let n = s.len();
    let mut r: Vec<Vec<char>> = Vec::new();
    let mut pos: usize = 0;
    proof {
        assert(s@.skip(0) =~= s@);
        assert(r.deep_view() =~~= Seq::<Seq<char>>::empty());
        assert(r.deep_view() + spec_split_lines(s@) =~= spec_split_lines(s@));
    }
    while pos < n
        invariant
            n == s@.len(),
            pos <= n,
            spec_split_lines(s@) == r.deep_view() + spec_split_lines(s@.skip(pos as int)),
        decreases n - pos,
    {
        let ghost tail = s@.skip(pos as int);
        let mut k: usize = pos;
        while k < n && s[k] != '\n'
            invariant
                n == s@.len(),
                pos <= k <= n,
                forall|j: int| pos <= j < k ==> s@[j] != '\n',
            decreases n - k,
        {
            k = k + 1;
        }
        proof {
            assert(forall|j: int| 0 <= j < k - pos ==> tail[j] == s@[pos + j]);
            if (k as int) < n {
                assert(tail[k - pos] == s@[k as int]);
            }
            lemma_line_len_window(tail, k - pos);
        }
        let mut line = sub_chars(s, pos, k);
        proof {
            assert(line@ =~= tail.take(k - pos));
        }
        if line.len() > 0 && line[line.len() - 1] == '\r' {
            line.pop();
            proof {
                assert(line@ =~= spec_strip_cr(tail.take(k - pos)));
            }
        }
        assert(line@ == spec_strip_cr(tail.take(k - pos)));
        let ghost prev = r.deep_view();
        r.push(line);
        proof {
            assert(r.deep_view() =~~= prev + seq![line@]);
        }
        if k == n {
            proof {
                assert(tail.len() > 0);
                assert(spec_split_lines(tail) == seq![line@]);
                assert(spec_split_lines(s@.skip(n as int)) == Seq::<Seq<char>>::empty());
                assert(r.deep_view() + spec_split_lines(s@.skip(n as int)) =~= prev
                    + spec_split_lines(tail));
            }
            pos = n;
        } else {
            proof {
                assert(tail.len() > 0);
                assert((k - pos) as int != tail.len());
                assert(spec_split_lines(tail) == seq![line@] + spec_split_lines(
                    tail.skip(k - pos + 1),
                ));
                assert(tail.skip(k - pos + 1) =~= s@.skip(k + 1));
                assert(r.deep_view() + spec_split_lines(s@.skip(k + 1)) =~= prev
                    + spec_split_lines(tail));
            }
            pos = k + 1;
        }
    }
    proof {
        assert(spec_split_lines(s@.skip(pos as int)) == Seq::<Seq<char>>::empty());
        assert(r.deep_view() + spec_split_lines(s@.skip(pos as int)) =~= r.deep_view());
    }
    r
}

/// Reads the active-version values out of a version-manager settings
/// file: every `current:` line's value, trimmed, kept when non-empty.
pub fn parse_nvm_settings_current(content: &str) -> (r: Vec<String>)
    ensures
        r.deep_view() == spec_current_entries(spec_split_lines(content@)),
{
    let cs = chars_of(content);
    let lines = split_lines(&cs);
    let marker = chars_of("current:");
    proof {
        reveal_strlit("current:");
    }
    let mut r: Vec<String> = Vec::new();
    let mut i: usize = 0;
    let ghost lv = lines.deep_view();
    proof {
        assert(lv.skip(0) =~= lv);
        assert(r.deep_view() =~~= Seq::<Seq<char>>::empty());
        assert(r.deep_view() + spec_current_entries(lv) =~= spec_current_entries(lv));
    }
    while i < lines.len()
        invariant
            lv == lines.deep_view(),
            lv == spec_split_lines(content@),
            i <= lv.len(),
            lines@.len() == lv.len(),
            marker@ == "current:"@,
            marker@.len() == 8,
            spec_current_entries(lv) == r.deep_view() + spec_current_entries(
                lv.skip(i as int),
            ),
        decreases lv.len() - i,
    {
        let ghost tail = lv.skip(i as int);
        let line = &lines[i];
        proof {
            assert(tail[0] == lv[i as int]);
            assert(lv[i as int] == line@);
            assert(tail.drop_first() =~= lv.skip(i + 1));
        }
        if starts_with_chars(line, &marker) {
            let rest = sub_chars(line, 8, line.len());
            proof {
                assert(rest@ =~= line@.skip(8));
            }
            let val = trim_chars(&rest);
            if val.len() > 0 {
                let ghost prev = r.deep_view();
                r.push(string_of_chars(&val));
                proof {
                    assert(spec_current_entries(tail) == seq![spec_trim(line@.skip(8))]
                        + spec_current_entries(tail.drop_first()));
                    assert(r.deep_view() =~~= prev + seq![spec_trim(line@.skip(8))]);
                    assert(r.deep_view() + spec_current_entries(tail.drop_first()) =~= prev
                        + spec_current_entries(tail));
                }
            } else {
                proof {
                    assert(spec_current_entries(tail) == spec_current_entries(
                        tail.drop_first(),
                    ));
                }
            }
        } else {
            proof {
                assert(spec_current_entries(tail) == spec_current_entries(tail.drop_first()));
            }
        }
        i = i + 1;
    }
    proof {
        assert(spec_current_entries(lv.skip(i as int)) == Seq::<Seq<char>>::empty());
        assert(r.deep_view() + spec_current_entries(lv.skip(i as int)) =~= r.deep_view());
    }
    r
}

/// Relies on dirs::home_dir for the user's home directory; the value
/// depends on the host environment, so nothing is promised of it.
#[verifier::external_body]
fn host_home_dir() -> (r: Option<String>) {
    dirs::home_dir().and_then(|p| p.into_os_string().into_string().ok())
}

/// The ordered interpreter locations on a Unix-like host: the
/// version-manager default marker first when present, then package
/// manager and system directories, then user-scoped installs of each
/// known version manager.
pub open spec fn spec_unix_node_paths(
    home: Option<Seq<char>>,
    nvm_default: Option<Seq<char>>,
) -> Seq<Seq<char>> {
    let fixed = seq!["/opt/homebrew/bin/node"@, "/usr/local/bin/node"@, "/usr/bin/node"@];
    match home {
        Option::None => fixed,
        Option::Some(h) => {
            let managed = seq![
                h + "/.nvm/versions/node/v22.0.0/bin/node"@,
                h + "/.nvm/versions/node/v22.1.0/bin/node"@,
                h + "/.nvm/versions/node/v22.2.0/bin/node"@,
                h + "/.nvm/versions/node/v22.11.0/bin/node"@,
                h + "/.nvm/versions/node/v22.12.0/bin/node"@,
                h + "/.nvm/versions/node/v23.0.0/bin/node"@,
                h + "/.fnm/aliases/default/bin/node"@,
                h + "/.volta/bin/node"@,
                h + "/.asdf/shims/node"@,
                h + "/.local/share/mise/shims/node"@,
            ];
            let base = fixed + managed;
            match nvm_default {
                Option::Some(d) => if spec_trim(d).len() > 0 {
                    base.insert(0, h + "/.nvm/versions/node/v"@ + spec_trim(d) + "/bin/node"@)
                } else {
                    base
                },
                Option::None => base,
            }
        },
    }
}

/// Unix candidate locations for the interpreter. `nvm_default` is the
/// content of the version manager's default-alias marker file, when the
/// caller could read one; the home directory is looked up on the host.
pub fn get_unix_node_paths(nvm_default: &Option<String>) -> (r: Vec<String>)
    ensures
        exists|home: Option<Seq<char>>|
            r.deep_view() == #[trigger] spec_unix_node_paths(home, nvm_default.deep_view()),
{
    let home = host_home_dir();
    let r = unix_node_paths(&home, nvm_default);
    proof {
        assert(r.deep_view() == spec_unix_node_paths(home.deep_view(), nvm_default.deep_view()));
    }
    r
}

/// Pure construction of the Unix candidate list from the home directory
/// and the default-alias marker content.
pub fn unix_node_paths(home: &Option<String>, nvm_default: &Option<String>) -> (r: Vec<String>)
    ensures
        r.deep_view() == spec_unix_node_paths(home.deep_view(), nvm_default.deep_view()),
{
    let mut r: Vec<String> = Vec::new();
    match home {
        Option::None => {
            r.push(String::from_str("/opt/homebrew/bin/node"));
            r.push(String::from_str("/usr/local/bin/node"));
            r.push(String::from_str("/usr/bin/node"));
            assert(r.deep_view() =~= spec_unix_node_paths(
                home.deep_view(),
                nvm_default.deep_view(),
            ));
        },
        Option::Some(h) => {
            let mut front: Option<String> = None;
            match nvm_default {
                Option::Some(d) => {
                    let t = trim_chars(&chars_of(d.as_str()));
                    if t.len() > 0 {
                        let ts = string_of_chars(&t);
                        let p1 = concat2(h.as_str(), "/.nvm/versions/node/v");
                        let p2 = concat3(p1.as_str(), ts.as_str(), "/bin/node");
                        front = Some(p2);
                    }
                },
                Option::None => {},
            }
            match front {
                Option::Some(p) => {
                    r.push(p);
                },
                Option::None => {},
            }
            r.push(String::from_str("/opt/homebrew/bin/node"));
            r.push(String::from_str("/usr/local/bin/node"));
            r.push(String::from_str("/usr/bin/node"));
            r.push(concat2(h.as_str(), "/.nvm/versions/node/v22.0.0/bin/node"));
            r.push(concat2(h.as_str(), "/.nvm/versions/node/v22.1.0/bin/node"));
            r.push(concat2(h.as_str(), "/.nvm/versions/node/v22.2.0/bin/node"));
            r.push(concat2(h.as_str(), "/.nvm/versions/node/v22.11.0/bin/node"));
            r.push(concat2(h.as_str(), "/.nvm/versions/node/v22.12.0/bin/node"));
            r.push(concat2(h.as_str(), "/.nvm/versions/node/v23.0.0/bin/node"));
            r.push(concat2(h.as_str(), "/.fnm/aliases/default/bin/node"));
            r.push(concat2(h.as_str(), "/.volta/bin/node"));
            r.push(concat2(h.as_str(), "/.asdf/shims/node"));
            r.push(concat2(h.as_str(), "/.local/share/mise/shims/node"));
            assert(r.deep_view() =~~= spec_unix_node_paths(
                home.deep_view(),
                nvm_default.deep_view(),
            ));
        },
    }
    r
}

/// The ordered interpreter locations on a Windows host. The active
/// version recorded in the manager's settings file ranks first (later
/// lines in front), then the manager's symlink directory, then fixed,
/// user-scoped and environment-derived install directories.
/// The fixed, user-scoped and environment-derived Windows install
/// directories, before any discovered location is prepended.
pub open spec fn spec_windows_base(
    home: Option<Seq<char>>,
    program_files: Option<Seq<char>>,
    program_files_x86: Option<Seq<char>>,
) -> Seq<Seq<char>> {
    let fixed = seq![
        "C:\\Program Files\\nodejs\\node.exe"@,
        "C:\\Program Files (x86)\\nodejs\\node.exe"@,
        "C:\\nvm4w\\nodejs\\node.exe"@,
    ];
    let user = match home {
        Option::Some(h) => seq![
            h + "\\AppData\\Roaming\\nvm\\current\\node.exe"@,
            h + "\\AppData\\Roaming\\fnm\\aliases\\default\\node.exe"@,
            h + "\\AppData\\Local\\fnm\\aliases\\default\\node.exe"@,
            h + "\\.fnm\\aliases\\default\\node.exe"@,
            h + "\\AppData\\Local\\Volta\\bin\\node.exe"@,
            h + "\\scoop\\apps\\nodejs\\current\\node.exe"@,
            h + "\\scoop\\apps\\nodejs-lts\\current\\node.exe"@,
            "C:\\ProgramData\\chocolatey\\lib\\nodejs\\tools\\node.exe"@,
        ],
        Option::None => Seq::empty(),
    };
    let envs = (match program_files {
        Option::Some(p) => seq![p + "\\nodejs\\node.exe"@],
        Option::None => Seq::empty(),
    }) + (match program_files_x86 {
        Option::Some(p) => seq![p + "\\nodejs\\node.exe"@],
        Option::None => Seq::empty(),
    });
    fixed + user + envs
}

pub open spec fn spec_windows_node_paths(
    home: Option<Seq<char>>,
    program_files: Option<Seq<char>>,
    program_files_x86: Option<Seq<char>>,
    nvm_symlink: Option<Seq<char>>,
    nvm_home: Option<Seq<char>>,
    nvm_settings: Option<Seq<char>>,
) -> Seq<Seq<char>> {
    let base = spec_windows_base(home, program_files, program_files_x86);
    let with_symlink = match nvm_symlink {
        Option::Some(s) => base.insert(0, s + "\\node.exe"@),
        Option::None => base,
    };
    match (nvm_home, nvm_settings) {
        (Option::Some(nh), Option::Some(c)) => spec_prepend_each(
            spec_nvm_current_paths(nh, c),
            with_symlink,
        ),
        _ => with_symlink,
    }
}

/// Paths built from the active-version entries of the manager's settings
/// file, in line order.
pub open spec fn spec_nvm_current_paths(nvm_home: Seq<char>, settings: Seq<char>) -> Seq<
    Seq<char>,
> {
    spec_current_entries(spec_split_lines(settings)).map_values(
        |e: Seq<char>| nvm_home + "\\v"@ + e + "\\node.exe"@,
    )
}

/// Inserts each element, in order, at the front of the accumulator, so
/// that the last element ends up first.
pub open spec fn spec_prepend_each(entries: Seq<Seq<char>>, acc: Seq<Seq<char>>) -> Seq<
    Seq<char>,
>
    decreases entries.len(),
{
    if entries.len() == 0 {
        acc
    } else {
        spec_prepend_each(entries.drop_first(), acc.insert(0, entries[0]))
    }
}

/// Windows candidate locations for the interpreter. The caller reads the
/// `ProgramFiles`, `ProgramFiles(x86)`, `NVM_SYMLINK` and `NVM_HOME`
/// environment variables and the manager's settings file and hands in
/// their values; the home directory is looked up on the host.
pub fn get_windows_node_paths(
    program_files: &Option<String>,
    program_files_x86: &Option<String>,
    nvm_symlink: &Option<String>,
    nvm_home: &Option<String>,
    nvm_settings: &Option<String>,
) -> (r: Vec<String>)
    ensures
        exists|home: Option<Seq<char>>|
            r.deep_view() == #[trigger] spec_windows_node_paths(
                home,
                program_files.deep_view(),
                program_files_x86.deep_view(),
                nvm_symlink.deep_view(),
                nvm_home.deep_view(),
                nvm_settings.deep_view(),
            ),
{
    let home = host_home_dir();
    let r = windows_node_paths(
        &home,
        program_files,
        program_files_x86,
        nvm_symlink,
        nvm_home,
        nvm_settings,
    );
    proof {
        assert(r.deep_view() == spec_windows_node_paths(
            home.deep_view(),
            program_files.deep_view(),
            program_files_x86.deep_view(),
            nvm_symlink.deep_view(),
            nvm_home.deep_view(),
            nvm_settings.deep_view(),
        ));
    }
    r
}

/// Pure construction of the Windows candidate list from the home
/// directory, environment values and settings-file content.
pub fn windows_node_paths(
    home: &Option<String>,
    program_files: &Option<String>,
    program_files_x86: &Option<String>,
    nvm_symlink: &Option<String>,
    nvm_home: &Option<String>,
    nvm_settings: &Option<String>,
) -> (r: Vec<String>)
    ensures
        r.deep_view() == spec_windows_node_paths(
            home.deep_view(),
            program_files.deep_view(),
            program_files_x86.deep_view(),
            nvm_symlink.deep_view(),
            nvm_home.deep_view(),
            nvm_settings.deep_view(),
        ),
{
    let mut r: Vec<String> = Vec::new();
    r.push(String::from_str("C:\\Program Files\\nodejs\\node.exe"));
    r.push(String::from_str("C:\\Program Files (x86)\\nodejs\\node.exe"));
    r.push(String::from_str("C:\\nvm4w\\nodejs\\node.exe"));
    match home {
        Option::Some(h) => {
            r.push(concat2(h.as_str(), "\\AppData\\Roaming\\nvm\\current\\node.exe"));
            r.push(concat2(h.as_str(), "\\AppData\\Roaming\\fnm\\aliases\\default\\node.exe"));
            r.push(concat2(h.as_str(), "\\AppData\\Local\\fnm\\aliases\\default\\node.exe"));
            r.push(concat2(h.as_str(), "\\.fnm\\aliases\\default\\node.exe"));
            r.push(concat2(h.as_str(), "\\AppData\\Local\\Volta\\bin\\node.exe"));
            r.push(concat2(h.as_str(), "\\scoop\\apps\\nodejs\\current\\node.exe"));
            r.push(concat2(h.as_str(), "\\scoop\\apps\\nodejs-lts\\current\\node.exe"));
            r.push(String::from_str("C:\\ProgramData\\chocolatey\\lib\\nodejs\\tools\\node.exe"));
        },
        Option::None => {},
    }
    match program_files {
        Option::Some(p) => {
            r.push(concat2(p.as_str(), "\\nodejs\\node.exe"));
        },
        Option::None => {},
    }
    match program_files_x86 {
        Option::Some(p) => {
            r.push(concat2(p.as_str(), "\\nodejs\\node.exe"));
        },
        Option::None => {},
    }
    let ghost base = r.deep_view();
    proof {
        assert(base =~~= spec_windows_base(
            home.deep_view(),
            program_files.deep_view(),
            program_files_x86.deep_view(),
        ));
    }
    match nvm_symlink {
        Option::Some(s) => {
            r.insert(0, concat2(s.as_str(), "\\node.exe"));
            proof {
                assert(r.deep_view() =~~= base.insert(0, s@ + "\\node.exe"@));
            }
        },
        Option::None => {},
    }
    let ghost with_symlink = r.deep_view();
    match (nvm_home, nvm_settings) {
        (Option::Some(nh), Option::Some(c)) => {
            let entries = parse_nvm_settings_current(c.as_str());
            let ghost mapped = spec_nvm_current_paths(nh@, c@);
            proof {
                assert(mapped.skip(0) =~= mapped);
            }
            let mut i: usize = 0;
            while i < entries.len()
                invariant
                    entries@.len() == entries.deep_view().len(),
                    entries.deep_view() == spec_current_entries(spec_split_lines(c@)),
                    mapped == spec_nvm_current_paths(nh@, c@),
                    mapped.len() == entries@.len(),
                    i <= entries@.len(),
                    spec_prepend_each(mapped, with_symlink) == spec_prepend_each(
                        mapped.skip(i as int),
                        r.deep_view(),
                    ),
                decreases entries@.len() - i,
            {
                let p1 = concat2(nh.as_str(), "\\v");
                let p2 = concat3(p1.as_str(), entries[i].as_str(), "\\node.exe");
                let ghost before = r.deep_view();
                r.insert(0, p2);
                proof {
                    assert(mapped.skip(i as int)[0] == mapped[i as int]);
                    assert(mapped[i as int] == nh@ + "\\v"@ + entries.deep_view()[i as int]
                        + "\\node.exe"@);
                    assert(entries.deep_view()[i as int] == entries@[i as int]@);
                    assert(p2@ =~= mapped[i as int]);
                    assert(r.deep_view() =~~= before.insert(0, mapped[i as int]));
                    assert(mapped.skip(i as int).drop_first() =~= mapped.skip(i + 1));
                }
                i = i + 1;
            }
            proof {
                assert(mapped.skip(i as int).len() == 0);
                assert(spec_prepend_each(mapped.skip(i as int), r.deep_view())
                    == r.deep_view());
            }
        },
        _ => {},
    }
    proof {
        assert(r.deep_view() =~~= spec_windows_node_paths(
            home.deep_view(),
            program_files.deep_view(),
            program_files_x86.deep_view(),
            nvm_symlink.deep_view(),
            nvm_home.deep_view(),
            nvm_settings.deep_view(),
        ));
    }
    r
}

/// Candidate locations of the bundled tool directory, relative to the
/// executable's directory and the working directory, joined with a
/// forward slash; the caller tests each for existence in order.
pub open spec fn spec_tool_dir_candidates(
    exe_dir: Option<Seq<char>>,
    cwd: Option<Seq<char>>,
) -> Seq<Seq<char>> {
    (match exe_dir {
        Option::Some(e) => seq![
            e + "/tool"@,
            e + "/resources/tool"@,
            e + "/../Resources/tool"@,
        ],
        Option::None => Seq::empty(),
    }) + (match cwd {
        Option::Some(c) => seq![c + "/tool"@, c + "/../tool"@],
        Option::None => Seq::empty(),
    })
}

/// Candidate locations of the bundled tool directory: next to the
/// executable (and its resource layouts) first, then under the working
/// directory.
pub fn tool_dir_candidates(exe_dir: &Option<String>, cwd: &Option<String>) -> (r: Vec<String>)
    ensures
        r.deep_view() == spec_tool_dir_candidates(exe_dir.deep_view(), cwd.deep_view()),
{
    let mut r: Vec<String> = Vec::new();
    match exe_dir {
        Option::Some(e) => {
            r.push(concat2(e.as_str(), "/tool"));
            r.push(concat2(e.as_str(), "/resources/tool"));
            r.push(concat2(e.as_str(), "/../Resources/tool"));
        },
        Option::None => {},
    }
    match cwd {
        Option::Some(c) => {
            r.push(concat2(c.as_str(), "/tool"));
            r.push(concat2(c.as_str(), "/../tool"));
        },
        Option::None => {},
    }
    assert(r.deep_view() =~~= spec_tool_dir_candidates(exe_dir.deep_view(), cwd.deep_view()));
    r
}

/// Picks the interpreter executable to invoke: the bare command name
/// when direct invocation already works, otherwise the first candidate
/// path the caller found to exist, otherwise none.
pub fn resolve_node_executable(
    direct_invocable: bool,
    paths: &Vec<String>,
    present: &Vec<bool>,
) -> (r: Option<String>)
    requires
        paths@.len() == present@.len(),
    ensures
        match r {
            Option::Some(p) => if direct_invocable {
                p@ == "node"@
            } else {
                exists|i: int|
                    0 <= i < paths@.len() && #[trigger] present@[i] && p@ == paths@[i]@
                        && (forall|j: int| 0 <= j < i ==> !present@[j])
            },
            Option::None => !direct_invocable && (forall|j: int|
                0 <= j < paths@.len() ==> !present@[j]),
        },
{
    if direct_invocable {
        return Some(String::from_str("node"));
    }
    let mut i: usize = 0;
    while i < paths.len()
        invariant
            !direct_invocable,
            paths@.len() == present@.len(),
            i <= paths@.len(),
            forall|j: int| 0 <= j < i ==> !present@[j],
        decreases paths@.len() - i,
    {
        if present[i] {
            let p = String::from_str(paths[i].as_str());
            proof {
                assert(exists|w: int|
                    0 <= w < paths@.len() && #[trigger] present@[w] && p@ == paths@[w]@ && (
                    forall|j: int| 0 <= j < w ==> !present@[j])) by {
                    assert(present@[i as int] && p@ == paths@[i as int]@);
                }
            }
            return Some(p);
        }
        i = i + 1;
    }
    None
}

} // verus!
