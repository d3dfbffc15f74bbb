//! Detection of usable Java installations: parsing the version a
//! launcher reports and choosing the best installation among the
//! detected ones.
//!
//! Scanning the filesystem and running candidate launchers is the
//! embedding application's work; the decisions — what a version line
//! means and which installation to prefer — are made here.

use vstd::prelude::*;
use vstd::string::StrSliceExecFns;

verus! {

/// `c` is a decimal digit.
pub open spec fn is_digit(c: char) -> bool {
    0x30 <= c as u32 <= 0x39
}

/// The value of the digit `c`.
pub open spec fn digit_val(c: char) -> int {
    c as u32 - 0x30
}

/// The value of a digit string, most significant digit first.
pub open spec fn digits_val(s: Seq<char>) -> int
    decreases s.len(),
{
    if s.len() == 0 {
        0
    } else {
        digits_val(s.drop_last()) * 10 + digit_val(s[s.len() - 1])
    }
}

/// A version mark `major.minor.patch` begins at `i`: a maximal digit
/// run up to `a`, a dot, a digit run up to `b`, a dot, and at least one
/// more digit.
pub open spec fn version_match_at(s: Seq<char>, i: int, a: int, b: int) -> bool {
    &&& 0 <= i < a
    &&& a + 1 < b
    &&& b + 1 < s.len()
    &&& (forall|k: int| i <= k < a ==> is_digit(#[trigger] s[k]))
    &&& s[a] == '.'
    &&& (forall|k: int| a + 1 <= k < b ==> is_digit(#[trigger] s[k]))
    &&& s[b] == '.'
    &&& is_digit(s[b + 1])
}

/// A version mark begins at `i`.
pub open spec fn version_matches_from(s: Seq<char>, i: int) -> bool {
    exists|a: int, b: int| version_match_at(s, i, a, b)
}

/// Whether `c` is a decimal digit.
fn char_is_digit(c: char) -> (r: bool)
    ensures
        r == is_digit(c),
{
    let u = c as u32;
    0x30 <= u && u <= 0x39
}

/// A maximal digit run from `i` to `a` that is not followed by a dot
/// and a digit admits no version mark at `i`.
proof fn lemma_no_match_dot(s: Seq<char>, i: int, a: int)
    requires
        0 <= i < a <= s.len(),
        forall|k: int| i <= k < a ==> is_digit(#[trigger] s[k]),
        a == s.len() || !is_digit(s[a]),
        !(a + 1 < s.len() && s[a] == '.' && is_digit(s[a + 1])),
    ensures
        !version_matches_from(s, i),
{
    assert forall|a2: int, b2: int| !version_match_at(s, i, a2, b2) by {
        if version_match_at(s, i, a2, b2) {
            if a2 < a {
                assert(is_digit(s[a2]));
                assert(s[a2] == '.');
            } else if a2 > a {
                assert(is_digit(s[a]));
            } else {
                assert(is_digit(s[a + 1]));
            }
        }
    }
}

/// With the major run and its dot fixed, a maximal minor run that is
/// not followed by a dot and a digit admits no version mark at `i`.
proof fn lemma_no_match_second_dot(s: Seq<char>, i: int, a: int, b: int)
    requires
        0 <= i < a,
        a + 1 < b <= s.len(),
        forall|k: int| i <= k < a ==> is_digit(#[trigger] s[k]),
        a < s.len(),
        s[a] == '.',
        forall|k: int| a + 1 <= k < b ==> is_digit(#[trigger] s[k]),
        b == s.len() || !is_digit(s[b]),
        !(b + 1 < s.len() && s[b] == '.' && is_digit(s[b + 1])),
    ensures
        !version_matches_from(s, i),
{
    assert forall|a2: int, b2: int| !version_match_at(s, i, a2, b2) by {
        if version_match_at(s, i, a2, b2) {
            if a2 < a {
                assert(is_digit(s[a2]));
                assert(s[a2] == '.');
            } else if a2 > a {
                assert(is_digit(s[a]));
            } else {
                if b2 < b {
                    assert(is_digit(s[b2]));
                    assert(s[b2] == '.');
                } else if b2 > b {
                    assert(is_digit(s[b]));
                } else {
                    assert(is_digit(s[b + 1]));
                }
            }
        }
    }
}

/// Both runs of a version mark at `i` are pinned by maximality: any
/// mark at `i` uses exactly the runs the scanner found.
proof fn lemma_match_pins(s: Seq<char>, i: int, a: int, b: int, a2: int, b2: int)
    requires
        0 <= i < a,
        a + 1 < b <= s.len(),
        forall|k: int| i <= k < a ==> is_digit(#[trigger] s[k]),
        a < s.len(),
        s[a] == '.',
        forall|k: int| a + 1 <= k < b ==> is_digit(#[trigger] s[k]),
        b == s.len() || !is_digit(s[b]),
        version_match_at(s, i, a2, b2),
    ensures
        a2 == a,
        b2 == b,
{
    if a2 < a {
        assert(is_digit(s[a2]));
        assert(s[a2] == '.');
    } else if a2 > a {
        assert(is_digit(s[a]));
    }
    if b2 < b {
        assert(is_digit(s[b2]));
        assert(s[b2] == '.');
    } else if b2 > b {
        assert(is_digit(s[b]));
    }
}

/// The value of the digit run `[from, to)` of `line`, exact up to 255;
/// any larger value is reported as some value above 255.
fn capped_digits(line: &str, from: usize, to: usize) -> (r: u32)
    requires
        from < to <= line@.len(),
        forall|k: int| from <= k < to ==> is_digit(#[trigger] line@[k]),
    ensures
        digits_val(line@.subrange(from as int, to as int)) <= 255 ==> r == digits_val(
            line@.subrange(from as int, to as int),
        ),
        digits_val(line@.subrange(from as int, to as int)) > 255 ==> r > 255,
{
    let mut val: u32 = 0;
    let mut k: usize = from;
    proof {
        assert(line@.subrange(from as int, from as int) =~= Seq::<char>::empty());
    }
    while k < to
        invariant
            from <= k <= to <= line@.len(),
            forall|k2: int| from <= k2 < to ==> is_digit(#[trigger] line@[k2]),
            0 <= digits_val(line@.subrange(from as int, k as int)),
            digits_val(line@.subrange(from as int, k as int)) < 100000 ==> val == digits_val(
                line@.subrange(from as int, k as int),
            ),
            digits_val(line@.subrange(from as int, k as int)) >= 100000 ==> val >= 100000,
            val < 1000000,
        decreases to - k,
    {
        let c = line.get_char(k);
        let d: u32 = (c as u32) - 0x30;
        proof {
            let pre = line@.subrange(from as int, k as int);
            let post = line@.subrange(from as int, k as int + 1);
            assert(post.drop_last() =~= pre);
            assert(digits_val(post) == digits_val(pre) * 10 + digit_val(line@[k as int]));
            assert(digits_val(pre) * 10 >= 0) by (nonlinear_arith)
                requires
                    digits_val(pre) >= 0,
            ;
            if digits_val(pre) >= 100000 {
                assert(digits_val(post) >= 100000) by (nonlinear_arith)
                    requires
                        digits_val(pre) >= 100000,
                        digits_val(post) == digits_val(pre) * 10 + digit_val(line@[k as int]),
                        digit_val(line@[k as int]) >= 0,
                ;
            }
        }
        if val < 100000 {
            val = val * 10 + d;
        }
        k = k + 1;
    }
    val
}

/// Reads the Java version out of one line of `java -version` output:
/// the first `major.minor.patch` mark decides, and a major of 1 (the
/// legacy scheme) means the minor carries the version. A line without
/// such a mark, or one whose numbers do not fit a byte, reports no
/// version.
pub fn parse_java_version(line: &str) -> (r: Option<u8>)
    ensures
        (forall|i: int| !version_matches_from(line@, i)) ==> r is None,
        forall|i: int, a: int, b: int|
            (#[trigger] version_match_at(line@, i, a, b) && (forall|j: int|
                0 <= j < i ==> !version_matches_from(line@, j))) ==> ({
                let major = digits_val(line@.subrange(i, a));
                let minor = digits_val(line@.subrange(a + 1, b));
                if major <= 255 && minor <= 255 {
                    r == Option::Some(
                        (if major == 1 {
                            minor
                        } else {
                            major
                        }) as u8,
                    )
                } else {
                    r is None
                }
            }),
{
    let n: usize = line.unicode_len();
    let mut i: usize = 0;
    while i < n
        invariant
            n == line@.len(),
            0 <= i <= n,
            forall|j: int| 0 <= j < i ==> !version_matches_from(line@, j),
        decreases n - i,
    {
        if char_is_digit(line.get_char(i)) {
            let mut a: usize = i + 1;
            while a < n && char_is_digit(line.get_char(a))
                invariant
                    n == line@.len(),
                    i < a <= n,
                    forall|k: int| i <= k < a ==> is_digit(#[trigger] line@[k]),
                decreases n - a,
            {
                a = a + 1;
            }
            if a < n && line.get_char(a) == '.' && a + 1 < n && char_is_digit(line.get_char(a + 1))
            {
                let mut b: usize = a + 2;
                while b < n && char_is_digit(line.get_char(b))
                    invariant
                        n == line@.len(),
                        a + 2 <= b <= n,
                        forall|k: int| a + 1 <= k < b ==> is_digit(#[trigger] line@[k]),
                    decreases n - b,
                {
                    b = b + 1;
                }
                if b < n && line.get_char(b) == '.' && b + 1 < n && char_is_digit(
                    line.get_char(b + 1),
                ) {
                    proof {
                        assert(version_match_at(line@, i as int, a as int, b as int));
                        assert(version_matches_from(line@, i as int));
                    }
                    let major = capped_digits(line, i, a);
                    let minor = capped_digits(line, a + 1, b);
                    let r = if major <= 255 && minor <= 255 {
                        let v: u32 = if major == 1 {
                            minor
                        } else {
                            major
                        };
                        Some(v as u8)
                    } else {
                        None
                    };
                    proof {
                        assert forall|i2: int, a2: int, b2: int|
                            (#[trigger] version_match_at(line@, i2, a2, b2) && (forall|j: int|
                                0 <= j < i2 ==> !version_matches_from(line@, j))) implies ({
                                let major2 = digits_val(line@.subrange(i2, a2));
                                let minor2 = digits_val(line@.subrange(a2 + 1, b2));
                                if major2 <= 255 && minor2 <= 255 {
                                    r == Option::Some(
                                        (if major2 == 1 {
                                            minor2
                                        } else {
                                            major2
                                        }) as u8,
                                    )
                                } else {
                                    r is None
                                }
                            }) by {
                            if i2 < i {
                                assert(version_matches_from(line@, i2));
                                assert(false);
                            } else if i2 > i {
                                assert(version_matches_from(line@, i as int));
                                assert(false);
                            } else {
                                lemma_match_pins(
                                    line@,
                                    i as int,
                                    a as int,
                                    b as int,
                                    a2,
                                    b2,
                                );
                            }
                        }
                    }
                    return r;
                } else {
                    proof {
                        lemma_no_match_second_dot(line@, i as int, a as int, b as int);
                    }
                }
            } else {
                proof {
                    lemma_no_match_dot(line@, i as int, a as int);
                }
            }
        } else {
            proof {
                assert forall|a2: int, b2: int| !version_match_at(line@, i as int, a2, b2) by {
                    if version_match_at(line@, i as int, a2, b2) {
                        assert(is_digit(line@[i as int]));
                    }
                }
            }
        }
        i = i + 1;
    }
    proof {
        assert forall|j: int| !version_matches_from(line@, j) by {
            if version_matches_from(line@, j) {
                let (a2, b2) = choose|a2: int, b2: int| version_match_at(line@, j, a2, b2);
                assert(0 <= j < n);
            }
        }
        assert forall|i2: int, a2: int, b2: int|
            !(#[trigger] version_match_at(line@, i2, a2, b2)) by {
            if version_match_at(line@, i2, a2, b2) {
                assert(version_matches_from(line@, i2));
            }
        }
    }
    None
}

/// One detected Java installation.
pub struct JavaInstall {
    /// Path of the launcher executable.
    pub path: String,
    /// The major version it reported.
    pub major: u8,
}

/// The preference key: distance from the wanted version first, and at
/// equal distance the older one wins. The wanted version itself has the
/// least key of any version.
pub open spec fn java_key(v: int) -> int {
    if v < 21 {
        (21 - v) * 2
    } else {
        (v - 21) * 2 + 1
    }
}

/// Executable twin of [`java_key`].
fn java_key_exec(v: u8) -> (r: u32)
    ensures
        r == java_key(v as int),
{
    if v < 21 {
        (21 - (v as u32)) * 2
    } else {
        ((v as u32) - 21) * 2 + 1
    }
}

/// Chooses the best installation: the first one running the wanted
/// version, and otherwise the first one closest to it, preferring the
/// older at equal distance. No installation means no choice.
pub fn get_best_java(javas: &Vec<JavaInstall>) -> (r: Option<String>)
    ensures
        javas@.len() == 0 ==> r is None,
        javas@.len() > 0 ==> (r matches Some(p) && exists|i: int|
            {
                &&& 0 <= i < javas@.len()
                &&& p@ == (#[trigger] javas@[i]).path@
                &&& (forall|j: int|
                    0 <= j < javas@.len() ==> java_key((#[trigger] javas@[j]).major as int)
                        >= java_key(javas@[i].major as int))
                &&& (forall|j: int|
                    0 <= j < i ==> java_key((#[trigger] javas@[j]).major as int) > java_key(
                        javas@[i].major as int,
                    ))
            }),
{
    let n = javas.len();
    if n == 0 {
        return None;
    }
    let mut best: usize = 0;
    let mut best_key: u32 = java_key_exec(javas[0].major);
    let mut i: usize = 1;
    while i < n
        invariant
            n == javas@.len(),
            0 <= best < i <= n,
            best_key == java_key(javas@[best as int].major as int),
            forall|j: int|
                0 <= j < i ==> java_key((#[trigger] javas@[j]).major as int) >= best_key,
            forall|j: int|
                0 <= j < best ==> java_key((#[trigger] javas@[j]).major as int) > best_key,
        decreases n - i,
    {
        let key = java_key_exec(javas[i].major);
        if key < best_key {
            best = i;
            best_key = key;
        }
        i = i + 1;
    }
    Some(javas[best].path.clone())
}

/// The installations whose version detection succeeded, in order.
pub open spec fn detected_view(c: Seq<(String, Option<u8>)>) -> Seq<JavaInstall>
    decreases c.len(),
{
    if c.len() == 0 {
        Seq::<JavaInstall>::empty()
    } else {
        let rest = detected_view(c.drop_last());
        match c[c.len() - 1].1 {
            Option::Some(v) => rest.push(JavaInstall { path: c[c.len() - 1].0, major: v }),
            Option::None => rest,
        }
    }
}

/// Keeps the candidates whose version detection succeeded; the
/// embedding application supplies one detection result per candidate
/// launcher path.
pub fn detect_javas(candidates: Vec<(String, Option<u8>)>) -> (r: Vec<JavaInstall>)
    ensures
        r@ == detected_view(candidates@),
{
    let n = candidates.len();
    let mut r: Vec<JavaInstall> = Vec::new();
    let mut i: usize = 0;
    proof {
        assert(candidates@.take(0) =~= Seq::<(String, Option<u8>)>::empty());
    }
    while i < n
        invariant
            n == candidates@.len(),
            0 <= i <= n,
            r@ == detected_view(candidates@.take(i as int)),
        decreases n - i,
    {
        proof {
            assert(candidates@.take(i as int + 1).drop_last() =~= candidates@.take(i as int));
        }
        let (path, detected) = &candidates[i];
        match detected {
            Some(v) => {
                let install = JavaInstall { path: path.clone(), major: *v };
                assert(candidates@[i as int].1 == Option::Some(install.major));
                assert(install.path == candidates@[i as int].0);
                r.push(install);
            },
            None => {},
        }
        i = i + 1;
    }
    proof {
        assert(candidates@.take(n as int) =~= candidates@);
    }
    r
}

/// Candidate installations the library itself knows of: none — the
/// embedding application contributes the platform-specific candidate
/// paths it scanned.
pub fn find_java_installations() -> (r: Vec<String>)
    ensures
        r@.len() == 0,
{
    Vec::new()
}

} // verus!
