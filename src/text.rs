//! Small verified string helpers: decimal rendering and path joining.

use vstd::prelude::*;

verus! {

/// The ASCII digit for `d` (`d < 10`).
pub open spec fn digit_char(d: nat) -> char {
    if d == 0 { '0' }
    else if d == 1 { '1' }
    else if d == 2 { '2' }
    else if d == 3 { '3' }
    else if d == 4 { '4' }
    else if d == 5 { '5' }
    else if d == 6 { '6' }
    else if d == 7 { '7' }
    else if d == 8 { '8' }
    else { '9' }
}

/// The shortest decimal rendering of `n`.
pub open spec fn decimal(n: nat) -> Seq<char>
    decreases n,
{
    if n < 10 {
        seq![digit_char(n)]
    } else {
        decimal(n / 10).push(digit_char(n % 10))
    }
}

/// `n` rendered in decimal, padded with leading zeros to at least two digits.
pub open spec fn two_digits(n: nat) -> Seq<char> {
    if n < 10 { seq!['0', digit_char(n)] } else { decimal(n) }
}

/// `dir` joined with the relative or absolute path `name`: an empty
/// directory or an absolute name yields the name itself; otherwise exactly
/// one `/` separates the two parts.
pub open spec fn joined(dir: Seq<char>, name: Seq<char>) -> Seq<char> {
    if dir.len() == 0 || (name.len() > 0 && name[0] == '/') {
        name
    } else if dir.last() == '/' {
        dir + name
    } else {
        dir + seq!['/'] + name
    }
}

fn digit_str(d: u32) -> (r: &'static str)
    requires
        d < 10,
    ensures
        r@ == seq![digit_char(d as nat)],
{
    proof {
        reveal_strlit("0");
        reveal_strlit("1");
        reveal_strlit("2");
        reveal_strlit("3");
        reveal_strlit("4");
        reveal_strlit("5");
        reveal_strlit("6");
        reveal_strlit("7");
        reveal_strlit("8");
        reveal_strlit("9");
    }
    if d == 0 { "0" }
    else if d == 1 { "1" }
    else if d == 2 { "2" }
    else if d == 3 { "3" }
    else if d == 4 { "4" }
    else if d == 5 { "5" }
    else if d == 6 { "6" }
    else if d == 7 { "7" }
    else if d == 8 { "8" }
    else { "9" }
}

/// Renders `n` in decimal without leading zeros.
pub fn decimal_text(n: u64) -> (r: String)
    ensures
        r@ == decimal(n as nat),
    decreases n,
{
    let mut s = if n >= 10 {
        decimal_text(n / 10)
    } else {
        String::new()
    };
    s.append(digit_str((n % 10) as u32));
    s
}

/// Renders `n` in decimal with at least two digits.
pub fn two_digit_text(n: u32) -> (r: String)
    ensures
        r@ == two_digits(n as nat),
{
    if n < 10 {
        let mut s = String::from_str("0");
        proof {
            reveal_strlit("0");
        }
        s.append(digit_str(n));
        s
    } else {
        decimal_text(n as u64)
    }
}

/// The concatenation of `a` and `b`.
pub fn concat(a: &str, b: &str) -> (r: String)
    ensures
        r@ == a@ + b@,
{
    let s = String::from_str(a);
    s.concat(b)
}

/// Joins a directory and a file name as described by [`joined`].
pub fn join_path(dir: &str, name: &str) -> (r: String)
    ensures
        r@ == joined(dir@, name@),
{
    let dlen = dir.unicode_len();
    let nlen = name.unicode_len();
    if dlen == 0 || (nlen > 0 && name.get_char(0) == '/') {
        String::from_str(name)
    } else if dir.get_char(dlen - 1) == '/' {
        concat(dir, name)
    } else {
        let s = concat(dir, "/");
        proof {
            reveal_strlit("/");
        }
        s.concat(name)
    }
}


/// A path separator: `/`, or `\` as written on Windows.
pub open spec fn is_separator(c: char) -> bool {
    c == '/' || c == '\\'
}

/// Index just past the last separator among the first `k` characters of
/// `p`, or 0 when there is none.
pub open spec fn name_start(p: Seq<char>, k: int) -> int
    decreases k,
{
    if k <= 0 {
        0
    } else if is_separator(p[k - 1]) {
        k
    } else {
        name_start(p, k - 1)
    }
}

/// Index of the last `.` among positions `from..k` of `p`, or -1.
pub open spec fn last_dot(p: Seq<char>, from: int, k: int) -> int
    decreases k - from,
{
    if k <= from {
        -1
    } else if p[k - 1] == '.' {
        k - 1
    } else {
        last_dot(p, from, k - 1)
    }
}

/// The extension of the last component of `p`: the text after its last
/// `.`, when that dot is not the component's first character.
pub open spec fn extension(p: Seq<char>) -> Option<Seq<char>> {
    let start = name_start(p, p.len() as int);
    let dot = last_dot(p, start, p.len() as int);
    if dot > start {
        Some(p.subrange(dot + 1, p.len() as int))
    } else {
        None
    }
}

/// `c` with ASCII upper-case letters folded to lower case, as a code point.
pub open spec fn fold_ascii(c: char) -> u32 {
    if 'A' <= c && c <= 'Z' {
        (c as u32 + 32) as u32
    } else {
        c as u32
    }
}

/// `s` equals the lower-case ASCII text `lower`, ignoring ASCII case.
pub open spec fn matches_ignoring_case(s: Seq<char>, lower: Seq<char>) -> bool {
    s.len() == lower.len() && forall|i: int| 0 <= i < s.len() ==> fold_ascii(#[trigger] s[i]) == lower[i] as u32
}

/// The extension of `p`, as [`extension`] says.
pub fn path_extension(p: &str) -> (r: Option<String>)
    ensures
        opt_seq(r) == extension(p@),
{
    let n = p.unicode_len();
    let mut start: usize = n;
    while start > 0 && !(p.get_char(start - 1) == '/' || p.get_char(start - 1) == '\\')
        invariant
            start <= n,
            n == p@.len(),
            name_start(p@, n as int) == name_start(p@, start as int),
        decreases start,
    {
        start = start - 1;
    }
    let mut k: usize = n;
    while k > start && p.get_char(k - 1) != '.'
        invariant
            start <= k <= n,
            n == p@.len(),
            last_dot(p@, start as int, n as int) == last_dot(p@, start as int, k as int),
        decreases k,
    {
        k = k - 1;
    }
    if k > start && k - 1 > start {
        Some(String::from_str(p.substring_char(k, n)))
    } else {
        None
    }
}

/// The view of an optional string.
pub open spec fn opt_seq(o: Option<String>) -> Option<Seq<char>> {
    match o {
        Some(s) => Some(s@),
        None => None,
    }
}

fn fold_char(c: char) -> (r: u32)
    ensures
        r == fold_ascii(c),
{
    if 'A' <= c && c <= 'Z' {
        c as u32 + 32
    } else {
        c as u32
    }
}

/// Whether `s` equals the lower-case ASCII text `lower`, ignoring ASCII case.
pub fn eq_ignoring_case(s: &str, lower: &str) -> (r: bool)
    ensures
        r == matches_ignoring_case(s@, lower@),
{
    let n = s.unicode_len();
    if n != lower.unicode_len() {
        return false;
    }
    let mut i: usize = 0;
    while i < n
        invariant
            i <= n,
            n == s@.len(),
            n == lower@.len(),
            forall|j: int| 0 <= j < i ==> fold_ascii(#[trigger] s@[j]) == lower@[j] as u32,
        decreases n - i,
    {
        if fold_char(s.get_char(i)) != lower.get_char(i) as u32 {
            return false;
        }
        i = i + 1;
    }
    true
}

/// `n` zero-padded to at least four digits.
pub open spec fn four_digits(n: nat) -> Seq<char> {
    if n < 10 {
        "000"@ + decimal(n)
    } else if n < 100 {
        "00"@ + decimal(n)
    } else if n < 1000 {
        "0"@ + decimal(n)
    } else {
        decimal(n)
    }
}

/// `n` with a leading minus sign when it is negative.
pub open spec fn signed_decimal(n: int) -> Seq<char> {
    if n < 0 { "-"@ + decimal((-n) as nat) } else { decimal(n as nat) }
}

/// Renders `n` zero-padded to at least four digits.
pub fn four_digit_text(n: u32) -> (r: String)
    ensures
        r@ == four_digits(n as nat),
{
    let d = decimal_text(n as u64);
    if n < 10 {
        concat("000", d.as_str())
    } else if n < 100 {
        concat("00", d.as_str())
    } else if n < 1000 {
        concat("0", d.as_str())
    } else {
        d
    }
}

/// Renders `n` in decimal with its sign.
pub fn signed_decimal_text(n: i32) -> (r: String)
    ensures
        r@ == signed_decimal(n as int),
{
    if n < 0 {
        let m: u32 = if n == i32::MIN { 2147483648u32 } else { (-n) as u32 };
        concat("-", decimal_text(m as u64).as_str())
    } else {
        decimal_text(n as u64)
    }
}

/// Index just past the last character of the first `k` characters of `p`
/// that is not a separator, or 0.
pub open spec fn content_end(p: Seq<char>, k: int) -> int
    decreases k,
{
    if k > 0 && is_separator(p[k - 1]) {
        content_end(p, k - 1)
    } else {
        k
    }
}

/// The last component of `p`: the text after its last separator, trailing
/// separators ignored.
pub open spec fn base_name(p: Seq<char>) -> Seq<char> {
    let e = content_end(p, p.len() as int);
    p.subrange(name_start(p, e), e)
}

/// The last component of `p`, as [`base_name`] says.
pub fn base_name_of(p: &str) -> (r: String)
    ensures
        r@ == base_name(p@),
{
    let n = p.unicode_len();
    let mut e: usize = n;
    while e > 0 && (p.get_char(e - 1) == '/' || p.get_char(e - 1) == '\\')
        invariant
            e <= n,
            n == p@.len(),
            content_end(p@, n as int) == content_end(p@, e as int),
        decreases e,
    {
        e = e - 1;
    }
    let mut k: usize = e;
    while k > 0 && !(p.get_char(k - 1) == '/' || p.get_char(k - 1) == '\\')
        invariant
            k <= e <= n,
            n == p@.len(),
            e == content_end(p@, n as int),
            name_start(p@, e as int) == name_start(p@, k as int),
        decreases k,
    {
        k = k - 1;
    }
    String::from_str(p.substring_char(k, e))
}

/// `c` has the Unicode White_Space property.
pub open spec fn is_white_space(c: char) -> bool {
    let u = c as u32;
    (0x9 <= u && u <= 0xd) || u == 0x20 || u == 0x85 || u == 0xa0 || u == 0x1680 || (0x2000 <= u
        && u <= 0x200a) || u == 0x2028 || u == 0x2029 || u == 0x202f || u == 0x205f || u == 0x3000
}

/// Index just past the last character among the first `k` of `s` that is
/// not white space, or 0.
pub open spec fn text_end(s: Seq<char>, k: int) -> int
    decreases k,
{
    if k > 0 && is_white_space(s[k - 1]) {
        text_end(s, k - 1)
    } else {
        k
    }
}

/// Index of the first character from `k` on, before `e`, that is not white
/// space, or `e`.
pub open spec fn text_start(s: Seq<char>, k: int, e: int) -> int
    decreases e - k,
{
    if k < e && is_white_space(s[k]) {
        text_start(s, k + 1, e)
    } else {
        k
    }
}

/// The text `s` with leading and trailing white space removed.
pub open spec fn trimmed(s: Seq<char>) -> Seq<char> {
    let e = text_end(s, s.len() as int);
    s.subrange(text_start(s, 0, e), e)
}

fn white_space(c: char) -> (r: bool)
    ensures
        r == is_white_space(c),
{
    let u = c as u32;
    (0x9 <= u && u <= 0xd) || u == 0x20 || u == 0x85 || u == 0xa0 || u == 0x1680 || (0x2000 <= u
        && u <= 0x200a) || u == 0x2028 || u == 0x2029 || u == 0x202f || u == 0x205f || u == 0x3000
}

/// The text without leading and trailing white space, as [`trimmed`] says.
pub fn trim_text(s: &str) -> (r: String)
    ensures
        r@ == trimmed(s@),
{
    let n = s.unicode_len();
    let mut e: usize = n;
    while e > 0 && white_space(s.get_char(e - 1))
        invariant
            e <= n,
            n == s@.len(),
            text_end(s@, n as int) == text_end(s@, e as int),
        decreases e,
    {
        e = e - 1;
    }
    let mut b: usize = 0;
    while b < e && white_space(s.get_char(b))
        invariant
            b <= e <= n,
            n == s@.len(),
            e == text_end(s@, n as int),
            text_start(s@, 0, e as int) == text_start(s@, b as int, e as int),
        decreases e - b,
    {
        b = b + 1;
    }
    String::from_str(s.substring_char(b, e))
}

} // verus!
