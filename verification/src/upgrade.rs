//! Version handling for the updater: comparing dotted versions, reading a
//! release tag, and naming the platform whose build to download.
use vstd::prelude::*;
use std::cmp::Ordering;
use crate::text::{
    chars_eq, chars_of, index_of_char_from, index_of_from, lemma_index_of_from_facts, owned,
    parse_u32, parse_u32_chars, push_str_chars, slice_chars, string_of,
};

verus! {

/// The numeric parts of a dotted version: each `.`-separated part that reads
/// as a `u32` (std's `parse::<u32>`), in order; other parts are skipped.
pub open spec fn version_parts(s: Seq<char>) -> Seq<u32>
    decreases s.len(),
{
    match index_of_from(s, '.', 0) {
        None => part_value(s),
        Some(i) => if 0 <= i < s.len() {
            part_value(s.take(i)) + version_parts(s.skip(i + 1))
        } else {
            Seq::empty()
        },
    }
}

pub open spec fn part_value(p: Seq<char>) -> Seq<u32> {
    match parse_u32(p) {
        Some(v) => seq![v],
        None => Seq::empty(),
    }
}

/// Lexicographic order of number sequences, as std orders `Vec<u32>`:
/// -1 below, 0 equal, 1 above; a proper prefix comes first.
pub open spec fn lex_order(a: Seq<u32>, b: Seq<u32>) -> int
    decreases a.len(),
{
    if a.len() == 0 {
        if b.len() == 0 {
            0
        } else {
            -1
        }
    } else if b.len() == 0 {
        1
    } else if a[0] < b[0] {
        -1
    } else if a[0] > b[0] {
        1
    } else {
        lex_order(a.drop_first(), b.drop_first())
    }
}

/// The numeric parts of a dotted version.
pub fn parse_version_parts(s: &str) -> (parts: Vec<u32>)
    ensures
        parts@ == version_parts(s@),
{
    let mut rest = chars_of(s);
    let mut parts: Vec<u32> = Vec::new();
    loop
        invariant_except_break
            version_parts(s@) == parts@ + version_parts(rest@),
        ensures
            version_parts(s@) == parts@,
        decreases rest@.len(),
    {
        let rlen = rest.len();
        match index_of_char_from(&rest, '.', 0) {
            None => {
                let ghost before = parts@;
                match parse_u32_chars(&rest) {
                    Some(v) => {
                        parts.push(v);
                    },
                    None => {},
                }
                assert(version_parts(rest@) == part_value(rest@));
                assert(parts@ == before + part_value(rest@));
                assert(version_parts(s@) == parts@);
                break ;
            },
            Some(i) => {
                proof {
                    lemma_index_of_from_facts(rest@, '.', 0);
                }
                let part = slice_chars(&rest, 0, i);
                let ghost before = parts@;
                match parse_u32_chars(&part) {
                    Some(v) => {
                        parts.push(v);
                    },
                    None => {},
                }
                assert(part@ == rest@.take(i as int));
                assert(parts@ == before + part_value(part@));
                let next = slice_chars(&rest, i + 1, rlen);
                assert(next@ == rest@.skip(i + 1));
                assert(version_parts(rest@) == part_value(part@) + version_parts(next@));
                assert(before + (part_value(part@) + version_parts(next@)) == (before + part_value(
                    part@,
                )) + version_parts(next@));
                rest = next;
            },
        }
    }
    parts
}

/// Lexicographic comparison of two part lists.
fn lex_compare(a: &[u32], b: &[u32]) -> (c: i8)
    ensures
        c == lex_order(a@, b@),
{
    let mut i: usize = 0;
    assert(a@.skip(0) == a@ && b@.skip(0) == b@);
    while i < a.len() && i < b.len() && a[i] == b[i]
        invariant
            i <= a.len(),
            i <= b.len(),
            lex_order(a@, b@) == lex_order(a@.skip(i as int), b@.skip(i as int)),
        decreases a.len() - i,
    {
        assert(a@.skip(i as int).drop_first() == a@.skip(i + 1));
        assert(b@.skip(i as int).drop_first() == b@.skip(i + 1));
        i = i + 1;
    }
    if i == a.len() {
        if i == b.len() {
            0
        } else {
            -1
        }
    } else if i == b.len() {
        1
    } else if a[i] < b[i] {
        -1
    } else {
        1
    }
}

/// The order of two dotted versions: their numeric parts compared
/// lexicographically.
pub fn compare_versions(local: &str, remote: &str) -> (o: Ordering)
    ensures
        o == Ordering::Less <==> lex_order(version_parts(local@), version_parts(remote@)) == -1,
        o == Ordering::Equal <==> lex_order(version_parts(local@), version_parts(remote@)) == 0,
        o == Ordering::Greater <==> lex_order(version_parts(local@), version_parts(remote@)) == 1,
{
    let local_parts = parse_version_parts(local);
    let remote_parts = parse_version_parts(remote);
    let c = lex_compare(&local_parts, &remote_parts);
    proof {
        lemma_lex_order_range(local_parts@, remote_parts@);
    }
    if c < 0 {
        Ordering::Less
    } else if c == 0 {
        Ordering::Equal
    } else {
        Ordering::Greater
    }
}

pub proof fn lemma_lex_order_range(a: Seq<u32>, b: Seq<u32>)
    ensures
        -1 <= lex_order(a, b) <= 1,
    decreases a.len(),
{
    if a.len() > 0 && b.len() > 0 && a[0] == b[0] {
        lemma_lex_order_range(a.drop_first(), b.drop_first());
    }
}

/// Law: swapping the two versions reverses their order.
pub proof fn law_compare_versions_antisymmetric(a: Seq<char>, b: Seq<char>)
    ensures
        lex_order(version_parts(a), version_parts(b)) == -lex_order(version_parts(b), version_parts(a)),
{
    lemma_lex_order_antisymmetric(version_parts(a), version_parts(b));
}

proof fn lemma_lex_order_antisymmetric(a: Seq<u32>, b: Seq<u32>)
    ensures
        lex_order(a, b) == -lex_order(b, a),
    decreases a.len(),
{
    if a.len() > 0 && b.len() > 0 && a[0] == b[0] {
        lemma_lex_order_antisymmetric(a.drop_first(), b.drop_first());
    }
}

/// Law: a version is equal to itself.
pub proof fn law_compare_versions_reflexive(a: Seq<char>)
    ensures
        lex_order(version_parts(a), version_parts(a)) == 0,
{
    lemma_lex_order_reflexive(version_parts(a));
}

proof fn lemma_lex_order_reflexive(a: Seq<u32>)
    ensures
        lex_order(a, a) == 0,
    decreases a.len(),
{
    if a.len() > 0 {
        lemma_lex_order_reflexive(a.drop_first());
    }
}

/// Law: versions that are equal in order have the same numeric parts.
pub proof fn law_compare_versions_equal_parts(a: Seq<char>, b: Seq<char>)
    requires
        lex_order(version_parts(a), version_parts(b)) == 0,
    ensures
        version_parts(a) == version_parts(b),
{
    lemma_lex_order_zero(version_parts(a), version_parts(b));
}

proof fn lemma_lex_order_zero(a: Seq<u32>, b: Seq<u32>)
    requires
        lex_order(a, b) == 0,
    ensures
        a == b,
    decreases a.len(),
{
    if a.len() > 0 && b.len() > 0 {
        lemma_lex_order_zero(a.drop_first(), b.drop_first());
        assert(a == seq![a[0]] + a.drop_first());
        assert(b == seq![b[0]] + b.drop_first());
    } else {
        assert(a =~= b);
    }
}

proof fn lemma_lex_order_first_difference(a: Seq<u32>, b: Seq<u32>, k: int)
    requires
        0 <= k < a.len(),
        k < b.len(),
        a.take(k) == b.take(k),
        a[k] < b[k],
    ensures
        lex_order(a, b) == -1,
    decreases k,
{
    if k > 0 {
        assert(a[0] == a.take(k)[0]);
        assert(b[0] == b.take(k)[0]);
        assert(a.drop_first().take(k - 1) =~= a.take(k).drop_first());
        assert(b.drop_first().take(k - 1) =~= b.take(k).drop_first());
        lemma_lex_order_first_difference(a.drop_first(), b.drop_first(), k - 1);
    }
}

proof fn lemma_lex_order_proper_prefix(a: Seq<u32>, b: Seq<u32>)
    requires
        a.len() < b.len(),
        b.take(a.len() as int) == a,
    ensures
        lex_order(a, b) == -1,
    decreases a.len(),
{
    if a.len() > 0 {
        assert(a[0] == b.take(a.len() as int)[0]);
        assert(b.drop_first().take(a.len() - 1) =~= a.drop_first());
        lemma_lex_order_proper_prefix(a.drop_first(), b.drop_first());
    }
}

/// Law: versions are ordered by their first differing numeric part: where
/// the parts of `a` and `b` agree before position `k` and `a`'s part `k` is
/// smaller, `a` is older than `b`, however many parts either has (so 1.9.9
/// is older than 2.0).
pub proof fn law_compare_versions_first_difference(a: Seq<char>, b: Seq<char>, k: int)
    requires
        0 <= k < version_parts(a).len(),
        k < version_parts(b).len(),
        forall|j: int| 0 <= j < k ==> version_parts(a)[j] == version_parts(b)[j],
        version_parts(a)[k] < version_parts(b)[k],
    ensures
        lex_order(version_parts(a), version_parts(b)) == -1,
        lex_order(version_parts(b), version_parts(a)) == 1,
{
    let (pa, pb) = (version_parts(a), version_parts(b));
    assert(pa.take(k) =~= pb.take(k));
    lemma_lex_order_first_difference(pa, pb, k);
    lemma_lex_order_antisymmetric(pa, pb);
}

/// Law: length decides only between a version and a longer one that
/// extends it: where `a`'s parts are the first parts of `b` and `b` has
/// more, `a` is older (so 1.2 is older than 1.2.0).
pub proof fn law_compare_versions_proper_prefix(a: Seq<char>, b: Seq<char>)
    requires
        version_parts(a).len() < version_parts(b).len(),
        forall|j: int| 0 <= j < version_parts(a).len() ==> version_parts(a)[j] == version_parts(b)[j],
    ensures
        lex_order(version_parts(a), version_parts(b)) == -1,
        lex_order(version_parts(b), version_parts(a)) == 1,
{
    let (pa, pb) = (version_parts(a), version_parts(b));
    assert(pb.take(pa.len() as int) =~= pa);
    lemma_lex_order_proper_prefix(pa, pb);
    lemma_lex_order_antisymmetric(pa, pb);
}

/// Law: versions with the same numeric parts are equal in order.
pub proof fn law_compare_versions_same_parts(a: Seq<char>, b: Seq<char>)
    requires
        version_parts(a) == version_parts(b),
    ensures
        lex_order(version_parts(a), version_parts(b)) == 0,
{
    lemma_lex_order_reflexive(version_parts(a));
}

proof fn lemma_version_parts_no_dot(p: Seq<char>)
    requires
        forall|k: int| 0 <= k < p.len() ==> p[k] != '.',
    ensures
        version_parts(p) == part_value(p),
{
    lemma_index_of_from_facts(p, '.', 0);
}

/// Law: the parts of a version joined by a dot are the parts of each side:
/// a first part without a dot, then a dot, then the rest.
pub proof fn law_version_parts_join(p: Seq<char>, q: Seq<char>)
    requires
        forall|k: int| 0 <= k < p.len() ==> p[k] != '.',
    ensures
        version_parts(p + seq!['.'] + q) == version_parts(p) + version_parts(q),
{
    let t = p + seq!['.'] + q;
    lemma_index_of_from_facts(t, '.', 0);
    assert(t[p.len() as int] == '.');
    assert forall|k: int| 0 <= k < p.len() implies t[k] != '.' by {
        assert(t[k] == p[k]);
    }
    assert(index_of_from(t, '.', 0) == Some(p.len() as int));
    assert(t.take(p.len() as int) =~= p);
    assert(t.skip(p.len() + 1int) =~= q);
    lemma_version_parts_no_dot(p);
}

/// Law: a number written in decimal is a version with that one part.
pub proof fn law_version_parts_of_number(n: u32)
    ensures
        version_parts(crate::text::decimal(n as nat)) == seq![n],
{
    crate::text::lemma_decimal_facts(n as nat);
    let d = crate::text::decimal(n as nat);
    assert forall|k: int| 0 <= k < d.len() implies d[k] != '.' by {
        assert(crate::text::is_digit(d[k]));
    }
    lemma_version_parts_no_dot(d);
    crate::text::law_u32_decimal_parses_back(n);
}

/// Law: the order of versions is transitive.
pub proof fn law_compare_versions_transitive(a: Seq<char>, b: Seq<char>, c: Seq<char>)
    requires
        lex_order(version_parts(a), version_parts(b)) == -1,
        lex_order(version_parts(b), version_parts(c)) == -1,
    ensures
        lex_order(version_parts(a), version_parts(c)) == -1,
{
    lemma_lex_order_transitive(version_parts(a), version_parts(b), version_parts(c));
}

proof fn lemma_lex_order_transitive(a: Seq<u32>, b: Seq<u32>, c: Seq<u32>)
    requires
        lex_order(a, b) == -1,
        lex_order(b, c) == -1,
    ensures
        lex_order(a, c) == -1,
    decreases a.len(),
{
    if a.len() > 0 && b.len() > 0 && c.len() > 0 && a[0] == b[0] && b[0] == c[0] {
        lemma_lex_order_transitive(a.drop_first(), b.drop_first(), c.drop_first());
    }
}

/// A release tag without its leading `v`s.
pub open spec fn strip_leading_v(s: Seq<char>) -> Seq<char>
    decreases s.len(),
{
    if s.len() > 0 && s[0] == 'v' {
        strip_leading_v(s.drop_first())
    } else {
        s
    }
}

/// The version a release tag names (`v1.2.3` names `1.2.3`).
pub fn version_from_tag(tag: &str) -> (v: String)
    ensures
        v@ == strip_leading_v(tag@),
{
    let chars = chars_of(tag);
    let mut i: usize = 0;
    assert(chars@.skip(0) == chars@);
    while i < chars.len() && chars[i] == 'v'
        invariant
            i <= chars.len(),
            strip_leading_v(chars@) == strip_leading_v(chars@.skip(i as int)),
        decreases chars.len() - i,
    {
        assert(chars@.skip(i as int).drop_first() == chars@.skip(i + 1));
        i = i + 1;
    }
    let clen = chars.len();
    let rest = slice_chars(&chars, i, clen);
    assert(rest@ == chars@.skip(i as int));
    string_of(rest.as_slice())
}

/// Windows versions ordered as `windows_version::OsVersion` orders them:
/// major, minor, service pack, build.
pub open spec fn version_at_least(v: (u32, u32, u32, u32), w: (u32, u32, u32, u32)) -> bool {
    v.0 > w.0 || (v.0 == w.0 && (v.1 > w.1 || (v.1 == w.1 && (v.2 > w.2 || (v.2 == w.2 && v.3
        >= w.3)))))
}

fn at_least(v: (u32, u32, u32, u32), w: (u32, u32, u32, u32)) -> (r: bool)
    ensures
        r == version_at_least(v, w),
{
    v.0 > w.0 || (v.0 == w.0 && (v.1 > w.1 || (v.1 == w.1 && (v.2 > w.2 || (v.2 == w.2 && v.3
        >= w.3)))))
}

/// The platform name whose build a Windows machine downloads: its own name
/// from Windows 10 on, `windows7` from 7, `windowsxp` from XP, its own name
/// before that.
pub open spec fn os_for_windows(os: Seq<char>, v: (u32, u32, u32, u32)) -> Seq<char> {
    if version_at_least(v, (10, 0, 0, 10240)) {
        os
    } else if version_at_least(v, (6, 1, 0, 7600)) {
        "windows7"@
    } else if version_at_least(v, (5, 1, 0, 2600)) {
        "windowsxp"@
    } else {
        os
    }
}

pub fn os_for_windows_version(os: &str, version: (u32, u32, u32, u32)) -> (name: String)
    ensures
        name@ == os_for_windows(os@, version),
{
    if at_least(version, (10, 0, 0, 10240)) {
        owned(os)
    } else if at_least(version, (6, 1, 0, 7600)) {
        owned("windows7")
    } else if at_least(version, (5, 1, 0, 2600)) {
        owned("windowsxp")
    } else {
        owned(os)
    }
}

/// The platform name of the build to download: on Windows the one its
/// version calls for (see `os_for_windows`), elsewhere the platform's own.
pub fn get_os(os: &str, is_windows: bool, version: (u32, u32, u32, u32)) -> (name: String)
    ensures
        name@ == if is_windows {
            os_for_windows(os@, version)
        } else {
            os@
        },
{
    if is_windows {
        os_for_windows_version(os, version)
    } else {
        owned(os)
    }
}

/// The architecture name of the release builds: `i686` for `x86`.
pub fn release_arch(arch: &str) -> (a: String)
    ensures
        a@ == if arch@ == "x86"@ {
            "i686"@
        } else {
            arch@
        },
{
    if chars_eq(&chars_of(arch), &chars_of("x86")) {
        owned("i686")
    } else {
        owned(arch)
    }
}

/// The archive type of the release builds: `zip` on Windows, `tar.gz`
/// elsewhere.
pub fn archive_ext(os: &str) -> (e: String)
    ensures
        e@ == if os@ == "windows"@ {
            "zip"@
        } else {
            "tar.gz"@
        },
{
    if chars_eq(&chars_of(os), &chars_of("windows")) {
        owned("zip")
    } else {
        owned("tar.gz")
    }
}

/// The download address of a release build.
pub open spec fn download_url_text(
    owner: Seq<char>,
    repo: Seq<char>,
    version: Seq<char>,
    os: Seq<char>,
    arch: Seq<char>,
    archive: Seq<char>,
) -> Seq<char> {
    "https://github.com/"@ + owner + "/"@ + repo + "/releases/download/v"@ + version + "/ABS_"@
        + os + "-"@ + arch + "-v"@ + version + "."@ + archive
}

pub fn download_url(owner: &str, repo: &str, version: &str, os: &str, arch: &str, archive: &str) -> (u: String)
    ensures
        u@ == download_url_text(owner@, repo@, version@, os@, arch@, archive@),
{
    let mut out: Vec<char> = Vec::new();
    push_str_chars(&mut out, "https://github.com/");
    push_str_chars(&mut out, owner);
    push_str_chars(&mut out, "/");
    push_str_chars(&mut out, repo);
    push_str_chars(&mut out, "/releases/download/v");
    push_str_chars(&mut out, version);
    push_str_chars(&mut out, "/ABS_");
    push_str_chars(&mut out, os);
    push_str_chars(&mut out, "-");
    push_str_chars(&mut out, arch);
    push_str_chars(&mut out, "-v");
    push_str_chars(&mut out, version);
    push_str_chars(&mut out, ".");
    push_str_chars(&mut out, archive);
    string_of(out.as_slice())
}

/// The address of the latest release of a repository.
pub open spec fn latest_release_url_text(owner: Seq<char>, repo: Seq<char>) -> Seq<char> {
    "https://api.github.com/repos/"@ + owner + "/"@ + repo + "/releases/latest"@
}

pub fn latest_release_url(owner: &str, repo: &str) -> (u: String)
    ensures
        u@ == latest_release_url_text(owner@, repo@),
{
    let mut out: Vec<char> = Vec::new();
    push_str_chars(&mut out, "https://api.github.com/repos/");
    push_str_chars(&mut out, owner);
    push_str_chars(&mut out, "/");
    push_str_chars(&mut out, repo);
    push_str_chars(&mut out, "/releases/latest");
    string_of(out.as_slice())
}

} // verus!
