//! Text and path operations on character sequences, with their
//! mathematical meaning stated as spec functions.

use vstd::prelude::*;

verus! {

/// The Unicode `White_Space` property, which `char::is_whitespace` and
/// `str::trim` use.
pub open spec fn is_white_space(c: char) -> bool {
    let v = c as u32;
    ||| 0x9 <= v <= 0xd
    ||| v == 0x20
    ||| v == 0x85
    ||| v == 0xa0
    ||| v == 0x1680
    ||| 0x2000 <= v <= 0x200a
    ||| v == 0x2028
    ||| v == 0x2029
    ||| v == 0x202f
    ||| v == 0x205f
    ||| v == 0x3000
}

/// `s` without its leading white space.
pub open spec fn trim_start(s: Seq<char>) -> Seq<char>
    decreases s.len(),
{
    if s.len() > 0 && is_white_space(s[0]) {
        trim_start(s.drop_first())
    } else {
        s
    }
}

/// `s` without its trailing white space.
pub open spec fn trim_end(s: Seq<char>) -> Seq<char>
    decreases s.len(),
{
    if s.len() > 0 && is_white_space(s.last()) {
        trim_end(s.drop_last())
    } else {
        s
    }
}

/// `s` without leading and trailing white space.
pub open spec fn trim(s: Seq<char>) -> Seq<char> {
    trim_end(trim_start(s))
}

/// Whether `c` has the Unicode `White_Space` property.
pub fn is_white_space_char(c: char) -> (r: bool)
    ensures
        r == is_white_space(c),
{
    let v = c as u32;
    (0x9 <= v && v <= 0xd) || v == 0x20 || v == 0x85 || v == 0xa0 || v == 0x1680 || (0x2000 <= v
        && v <= 0x200a) || v == 0x2028 || v == 0x2029 || v == 0x202f || v == 0x205f || v == 0x3000
}

/// The slice of `s` without leading and trailing white space.
pub fn trim_str(s: &str) -> (r: &str)
    ensures
        r@ == trim(s@),
{
    let n = s.unicode_len();
    let mut i: usize = 0;
    assert(s@.subrange(0, n as int) =~= s@);
    loop
        invariant
            n == s@.len(),
            i <= n,
            trim_start(s@) == trim_start(s@.subrange(i as int, n as int)),
        ensures
            i <= n,
            trim_start(s@) == s@.subrange(i as int, n as int),
        decreases n - i,
    {
        if i == n {
            break;
        }
        let c = s.get_char(i);
        if !is_white_space_char(c) {
            break;
        }
        assert(s@.subrange(i as int, n as int).drop_first() =~= s@.subrange(i + 1, n as int));
        i = i + 1;
    }
    let mut j: usize = n;
    loop
        invariant
            n == s@.len(),
            i <= j <= n,
            trim(s@) == trim_end(s@.subrange(i as int, j as int)),
        ensures
            i <= j <= n,
            trim(s@) == s@.subrange(i as int, j as int),
        decreases j - i,
    {
        if j == i {
            break;
        }
        let c = s.get_char(j - 1);
        if !is_white_space_char(c) {
            break;
        }
        assert(s@.subrange(i as int, j as int).drop_last() =~= s@.subrange(i as int, j - 1));
        j = j - 1;
    }
    s.substring_char(i, j)
}


/// Whether `s` ends with `suffix`.
pub open spec fn has_suffix(s: Seq<char>, suffix: Seq<char>) -> bool {
    suffix.len() <= s.len() && s.subrange(s.len() - suffix.len(), s.len() as int) == suffix
}

/// Whether `s` begins with `prefix`.
pub open spec fn has_prefix(s: Seq<char>, prefix: Seq<char>) -> bool {
    prefix.len() <= s.len() && s.subrange(0, prefix.len() as int) == prefix
}

/// `s` without `suffix`, where `s` ends with it.
pub open spec fn strip_suffix(s: Seq<char>, suffix: Seq<char>) -> Option<Seq<char>> {
    if has_suffix(s, suffix) {
        Some(s.subrange(0, s.len() - suffix.len()))
    } else {
        None
    }
}

/// Whether `a[from..from + len]` equals `b[..len]`, checked character by character.
fn chars_match(a: &str, from: usize, b: &str, len: usize) -> (r: bool)
    requires
        from + len <= a@.len(),
        len <= b@.len(),
        a@.len() <= usize::MAX,
    ensures
        r == (a@.subrange(from as int, from + len) == b@.subrange(0, len as int)),
{
    let mut k: usize = 0;
    while k < len
        invariant
            from + len <= a@.len(),
            len <= b@.len(),
            a@.len() <= usize::MAX,
            k <= len,
            forall|t: int| 0 <= t < k ==> a@[from + t] == b@[t],
        decreases len - k,
    {
        if a.get_char(from + k) != b.get_char(k) {
            assert(a@.subrange(from as int, from + len)[k as int] != b@.subrange(0, len as int)[k as int]);
            return false;
        }
        k = k + 1;
    }
    assert(a@.subrange(from as int, from + len) =~= b@.subrange(0, len as int));
    true
}

/// Whether `s` ends with `suffix`.
pub fn ends_with_str(s: &str, suffix: &str) -> (r: bool)
    ensures
        r == has_suffix(s@, suffix@),
{
    let n = s.unicode_len();
    let m = suffix.unicode_len();
    if m > n {
        return false;
    }
    assert(suffix@.subrange(0, m as int) =~= suffix@);
    chars_match(s, n - m, suffix, m)
}

/// Whether `s` begins with `prefix`.
pub fn starts_with_str(s: &str, prefix: &str) -> (r: bool)
    ensures
        r == has_prefix(s@, prefix@),
{
    let n = s.unicode_len();
    let m = prefix.unicode_len();
    if m > n {
        return false;
    }
    assert(prefix@.subrange(0, m as int) =~= prefix@);
    chars_match(s, 0, prefix, m)
}

/// `s` without `suffix`, or `None` where `s` does not end with it.
pub fn strip_suffix_str<'a>(s: &'a str, suffix: &str) -> (r: Option<&'a str>)
    ensures
        r matches Some(t) ==> strip_suffix(s@, suffix@) == Some(t@),
        r is None <==> strip_suffix(s@, suffix@) is None,
{
    if ends_with_str(s, suffix) {
        let n = s.unicode_len();
        let m = suffix.unicode_len();
        Some(s.substring_char(0, n - m))
    } else {
        None
    }
}

/// The code of `c` with an ASCII upper-case letter mapped to lower case.
pub open spec fn ascii_lower(c: char) -> u32 {
    if 'A' <= c <= 'Z' {
        (c as u32 + 32) as u32
    } else {
        c as u32
    }
}

/// Whether `a` and `b` are equal up to ASCII case.
pub open spec fn eq_ignore_ascii_case(a: Seq<char>, b: Seq<char>) -> bool {
    a.len() == b.len() && forall|i: int| 0 <= i < a.len() ==> ascii_lower(a[i]) == ascii_lower(b[i])
}

fn ascii_lower_char(c: char) -> (r: u32)
    ensures
        r == ascii_lower(c),
{
    if 'A' <= c && c <= 'Z' {
        (c as u32) + 32
    } else {
        c as u32
    }
}

/// Whether `a` and `b` are equal up to ASCII case.
pub fn eq_ignore_ascii_case_str(a: &str, b: &str) -> (r: bool)
    ensures
        r == eq_ignore_ascii_case(a@, b@),
{
    let n = a.unicode_len();
    if n != b.unicode_len() {
        return false;
    }
    let mut k: usize = 0;
    while k < n
        invariant
            n == a@.len(),
            n == b@.len(),
            k <= n,
            forall|t: int| 0 <= t < k ==> ascii_lower(a@[t]) == ascii_lower(b@[t]),
        decreases n - k,
    {
        if ascii_lower_char(a.get_char(k)) != ascii_lower_char(b.get_char(k)) {
            return false;
        }
        k = k + 1;
    }
    true
}


/// The decimal digit character for `d`, where `d < 10`.
pub open spec fn digit_char(d: nat) -> char {
    if d == 0 {
        '0'
    } else if d == 1 {
        '1'
    } else if d == 2 {
        '2'
    } else if d == 3 {
        '3'
    } else if d == 4 {
        '4'
    } else if d == 5 {
        '5'
    } else if d == 6 {
        '6'
    } else if d == 7 {
        '7'
    } else if d == 8 {
        '8'
    } else {
        '9'
    }
}

/// The decimal notation of `n`, without sign or leading zeros.
pub open spec fn decimal(n: nat) -> Seq<char>
    decreases n,
{
    if n < 10 {
        seq![digit_char(n)]
    } else {
        decimal(n / 10).push(digit_char(n % 10))
    }
}

fn digit_str(d: u64) -> (r: &'static str)
    requires
        d < 10,
    ensures
        r@ == seq![digit_char(d as nat)],
{
    match d {
        0 => {
            proof {
                reveal_strlit("0");
            }
            "0"
        }
        1 => {
            proof {
                reveal_strlit("1");
            }
            "1"
        }
        2 => {
            proof {
                reveal_strlit("2");
            }
            "2"
        }
        3 => {
            proof {
                reveal_strlit("3");
            }
            "3"
        }
        4 => {
            proof {
                reveal_strlit("4");
            }
            "4"
        }
        5 => {
            proof {
                reveal_strlit("5");
            }
            "5"
        }
        6 => {
            proof {
                reveal_strlit("6");
            }
            "6"
        }
        7 => {
            proof {
                reveal_strlit("7");
            }
            "7"
        }
        8 => {
            proof {
                reveal_strlit("8");
            }
            "8"
        }
        _ => {
            proof {
                reveal_strlit("9");
            }
            "9"
        },
    }
}

/// The decimal notation of `n`.
pub fn decimal_string(n: u64) -> (r: String)
    ensures
        r@ == decimal(n as nat),
    decreases n,
{
    if n < 10 {
        String::from_str(digit_str(n))
    } else {
        let mut s = decimal_string(n / 10);
        s.append(digit_str(n % 10));
        s
    }
}

/// Whether the path `p` is absolute: on Unix, whether it begins with `/`.
pub open spec fn is_absolute_path(p: Seq<char>) -> bool {
    p.len() > 0 && p[0] == '/'
}

/// `base` joined with `rest` as `Path::join` does on Unix: an absolute
/// `rest` replaces `base`; otherwise a separator is put between the two
/// unless `base` is empty or already ends with one.
pub open spec fn path_join(base: Seq<char>, rest: Seq<char>) -> Seq<char> {
    if is_absolute_path(rest) {
        rest
    } else if base.len() > 0 && base.last() != '/' {
        base + seq!['/'] + rest
    } else {
        base + rest
    }
}

/// Joining onto an absolute directory gives an absolute path.
pub proof fn lemma_join_onto_absolute(base: Seq<char>, rest: Seq<char>)
    requires
        is_absolute_path(base),
    ensures
        is_absolute_path(path_join(base, rest)),
{
    if !is_absolute_path(rest) {
        if base.last() != '/' {
            assert((base + seq!['/'] + rest)[0] == base[0]);
        } else {
            assert((base + rest)[0] == base[0]);
        }
    }
}

/// Whether the path `p` is absolute.
pub fn is_absolute_str(p: &str) -> (r: bool)
    ensures
        r == is_absolute_path(p@),
{
    let n = p.unicode_len();
    n > 0 && p.get_char(0) == '/'
}

/// `base` joined with `rest`, as `Path::join` does on Unix.
pub fn path_join_str(base: &str, rest: &str) -> (r: String)
    ensures
        r@ == path_join(base@, rest@),
{
    if is_absolute_str(rest) {
        return String::from_str(rest);
    }
    let n = base.unicode_len();
    let mut out = String::from_str(base);
    if n > 0 && base.get_char(n - 1) != '/' {
        proof {
            reveal_strlit("/");
        }
        out.append("/");
    }
    out.append(rest);
    out
}

} // verus!
