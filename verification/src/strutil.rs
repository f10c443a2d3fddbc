//! Character-level string utilities: decimal rendering and parsing of
//! integers, substring search, and conversions between `String` and
//! `Vec<char>`. The workload codec and the policy engine build on these.

use vstd::prelude::*;

verus! {

/// The character for a single decimal digit.
pub open spec fn digit_char(d: nat) -> char {
    if d == 0 {
        '0'
    } else if d == 1 {
        '1'
    } else if d == 2 {
        '2'
    } else if d == 3 {
        '3'
    } else if d == 4 {
        '4'
    } else if d == 5 {
        '5'
    } else if d == 6 {
        '6'
    } else if d == 7 {
        '7'
    } else if d == 8 {
        '8'
    } else {
        '9'
    }
}

/// The decimal rendering of a natural number, most significant digit first.
pub open spec fn dec_chars(n: nat) -> Seq<char>
    decreases n,
{
    if n < 10 {
        seq![digit_char(n)]
    } else {
        dec_chars(n / 10).push(digit_char(n % 10))
    }
}

pub open spec fn is_dec_digit(c: char) -> bool {
    c == '0' || c == '1' || c == '2' || c == '3' || c == '4' || c == '5' || c == '6' || c == '7'
        || c == '8' || c == '9'
}

/// The numeric value of one decimal digit character.
pub open spec fn digit_val(c: char) -> nat {
    if c == '0' {
        0
    } else if c == '1' {
        1
    } else if c == '2' {
        2
    } else if c == '3' {
        3
    } else if c == '4' {
        4
    } else if c == '5' {
        5
    } else if c == '6' {
        6
    } else if c == '7' {
        7
    } else if c == '8' {
        8
    } else {
        9
    }
}

/// The value of a digit string, most significant digit first.
pub open spec fn val_of_digits(ds: Seq<char>) -> nat
    decreases ds.len(),
{
    if ds.len() == 0 {
        0
    } else {
        val_of_digits(ds.drop_last()) * 10 + digit_val(ds.last())
    }
}

/// Every character that `dec_chars` produces is a decimal digit.
pub proof fn lemma_dec_chars_are_digits(n: nat)
    ensures
        forall|i: int| 0 <= i < dec_chars(n).len() ==> is_dec_digit(#[trigger] dec_chars(n)[i]),
        dec_chars(n).len() >= 1,
    decreases n,
{
    if n >= 10 {
        lemma_dec_chars_are_digits(n / 10);
    }
}

/// Reading back the decimal rendering of `n` yields `n`.
pub proof fn lemma_val_of_dec_chars(n: nat)
    ensures
        val_of_digits(dec_chars(n)) == n,
    decreases n,
{
    if n < 10 {
        let ds = dec_chars(n);
        assert(ds.drop_last() =~= Seq::<char>::empty());
        assert(ds.len() == 1);
        assert(ds.last() == digit_char(n));
        assert(val_of_digits(Seq::<char>::empty()) == 0);
        assert(val_of_digits(ds) == digit_val(digit_char(n)));
        assert(digit_val(digit_char(n)) == n);
    } else {
        lemma_val_of_dec_chars(n / 10);
        let ds = dec_chars(n);
        assert(ds.drop_last() =~= dec_chars(n / 10));
        assert(ds.last() == digit_char(n % 10));
        assert(digit_val(digit_char(n % 10)) == n % 10);
        assert(val_of_digits(ds) == (n / 10) * 10 + n % 10);
    }
}

/// A longer digit string never has a smaller value.
pub proof fn lemma_val_of_digits_monotone(ds: Seq<char>, k: int)
    requires
        0 <= k <= ds.len(),
    ensures
        val_of_digits(ds.take(k)) <= val_of_digits(ds),
    decreases ds.len() - k,
{
    if k < ds.len() {
        assert(ds.take(k + 1).drop_last() =~= ds.take(k));
        assert(val_of_digits(ds.take(k)) <= val_of_digits(ds.take(k + 1)));
        lemma_val_of_digits_monotone(ds, k + 1);
    } else {
        assert(ds.take(k) =~= ds);
    }
}

/// The exec digit for `d`, matching `digit_char`.
pub fn digit_of(d: u64) -> (c: char)
    requires
        d < 10,
    ensures
        c == digit_char(d as nat),
{
    if d == 0 {
        '0'
    } else if d == 1 {
        '1'
    } else if d == 2 {
        '2'
    } else if d == 3 {
        '3'
    } else if d == 4 {
        '4'
    } else if d == 5 {
        '5'
    } else if d == 6 {
        '6'
    } else if d == 7 {
        '7'
    } else if d == 8 {
        '8'
    } else {
        '9'
    }
}

/// Appends the decimal rendering of `n` to `buf`.
pub fn push_dec(buf: &mut Vec<char>, n: u64)
    ensures
        final(buf)@ == old(buf)@ + dec_chars(n as nat),
    decreases n,
{
    if n < 10 {
        buf.push(digit_of(n));
        assert(buf@ =~= old(buf)@ + dec_chars(n as nat));
    } else {
        push_dec(buf, n / 10);
        buf.push(digit_of(n % 10));
        assert(buf@ =~= old(buf)@ + dec_chars(n as nat));
    }
}

/// The first position at or after `i` holding a character that is not a
/// decimal digit, or the end of the sequence.
pub open spec fn scan_digits(s: Seq<char>, i: int) -> int
    decreases s.len() - i,
{
    if i < 0 || i >= s.len() {
        i
    } else if !is_dec_digit(s[i]) {
        i
    } else {
        scan_digits(s, i + 1)
    }
}

pub proof fn lemma_scan_digits_fixpoint(s: Seq<char>, i: int, j: int)
    requires
        0 <= i <= j <= s.len(),
        forall|k: int| i <= k < j ==> is_dec_digit(#[trigger] s[k]),
        j == s.len() || !is_dec_digit(s[j]),
    ensures
        scan_digits(s, i) == j,
    decreases j - i,
{
    if i < j {
        lemma_scan_digits_fixpoint(s, i + 1, j);
    }
}

/// The result of reading a space-terminated decimal token at position `i`:
/// the value and the position just past the terminating space.
pub open spec fn sp_read_u64(s: Seq<char>, i: int) -> Option<(u64, int)> {
    let j = scan_digits(s, i);
    if i < j && j < s.len() && s[j] == ' ' && val_of_digits(s.subrange(i, j)) <= u64::MAX {
        Some((val_of_digits(s.subrange(i, j)) as u64, j + 1))
    } else {
        None
    }
}

/// Reads a space-terminated decimal token, exactly as `sp_read_u64` does.
pub fn read_u64(v: &Vec<char>, i: usize) -> (r: Option<(u64, usize)>)
    requires
        i <= v@.len(),
    ensures
        r matches Some(p) ==> sp_read_u64(v@, i as int) == Some((p.0, p.1 as int)) && p.1
            <= v@.len(),
        r is None ==> sp_read_u64(v@, i as int) is None,
{
    let len = v.len();
    let mut j: usize = i;
    while j < len && is_digit_char(v[j])
        invariant
            i <= j <= len,
            len == v@.len(),
            forall|k: int| i <= k < j ==> is_dec_digit(#[trigger] v@[k]),
        decreases len - j,
    {
        j += 1;
    }
    proof {
        lemma_scan_digits_fixpoint(v@, i as int, j as int);
    }
    if j == i || j == len || v[j] != ' ' {
        return None;
    }
    let mut acc: u64 = 0;
    let mut k: usize = i;
    while k < j
        invariant
            i < j < len,
            i <= k <= j,
            len == v@.len(),
            scan_digits(v@, i as int) == j as int,
            v@[j as int] == ' ',
            forall|t: int| i <= t < j ==> is_dec_digit(#[trigger] v@[t]),
            acc == val_of_digits(v@.subrange(i as int, k as int)),
        decreases j - k,
    {
        let d = digit_value(v[k]);
        proof {
            assert(v@.subrange(i as int, k as int + 1).drop_last() =~= v@.subrange(
                i as int,
                k as int,
            ));
            assert(v@.subrange(i as int, k as int + 1).last() == v@[k as int]);
        }
        if acc > (u64::MAX - d) / 10 {
            proof {
                let m = u64::MAX - d;
                assert((m / 10) * 10 + m % 10 == m) by (nonlinear_arith);
                assert(acc * 10 >= (m / 10) * 10 + 10) by (nonlinear_arith)
                    requires
                        acc > m / 10,
                ;
                assert(acc * 10 + d > u64::MAX);
                assert(val_of_digits(v@.subrange(i as int, k as int + 1)) == acc * 10 + digit_val(
                    v@[k as int],
                ));
                assert(val_of_digits(v@.subrange(i as int, k as int + 1)) > u64::MAX);
                lemma_val_of_digits_monotone_sub(v@, i as int, k as int + 1, j as int);
                assert(val_of_digits(v@.subrange(i as int, j as int)) > u64::MAX);
            }
            return None;
        }
        acc = acc * 10 + d;
        k += 1;
    }
    Some((acc, j + 1))
}

/// Monotonicity of `val_of_digits` under extending the digit range.
proof fn lemma_val_of_digits_monotone_sub(s: Seq<char>, i: int, m: int, j: int)
    requires
        0 <= i <= m <= j <= s.len(),
    ensures
        val_of_digits(s.subrange(i, m)) <= val_of_digits(s.subrange(i, j)),
{
    assert(s.subrange(i, j).take(m - i) =~= s.subrange(i, m));
    lemma_val_of_digits_monotone(s.subrange(i, j), m - i);
}

/// Exec test matching `is_dec_digit`.
pub fn is_digit_char(c: char) -> (r: bool)
    ensures
        r == is_dec_digit(c),
{
    c == '0' || c == '1' || c == '2' || c == '3' || c == '4' || c == '5' || c == '6' || c == '7'
        || c == '8' || c == '9'
}

/// Exec digit value matching `digit_val`.
pub fn digit_value(c: char) -> (d: u64)
    requires
        is_dec_digit(c),
    ensures
        d == digit_val(c),
        d < 10,
{
    if c == '0' {
        0
    } else if c == '1' {
        1
    } else if c == '2' {
        2
    } else if c == '3' {
        3
    } else if c == '4' {
        4
    } else if c == '5' {
        5
    } else if c == '6' {
        6
    } else if c == '7' {
        7
    } else if c == '8' {
        8
    } else {
        9
    }
}

/// True when `hay` contains `needle` as a contiguous substring.
pub open spec fn contains_seq(hay: Seq<char>, needle: Seq<char>) -> bool {
    exists|i: int|
        0 <= i && i + needle.len() <= hay.len() && #[trigger] hay.subrange(i, i + needle.len())
            == needle
}

/// Whether `hay` matches `needle` at position `at`.
fn matches_at(hay: &Vec<char>, needle: &Vec<char>, at: usize) -> (r: bool)
    requires
        at + needle@.len() <= hay@.len(),
    ensures
        r == (hay@.subrange(at as int, at as int + needle@.len()) == needle@),
{
    let n = needle.len();
    let hl = hay.len();
    let mut j: usize = 0;
    while j < n
        invariant
            n == needle@.len(),
            hl == hay@.len(),
            at + n <= hl,
            0 <= j <= n,
            forall|k: int| 0 <= k < j ==> hay@[at + k] == needle@[k],
        decreases n - j,
    {
        if hay[at + j] != needle[j] {
            assert(hay@.subrange(at as int, at as int + needle@.len())[j as int] != needle@[j as int]);
            return false;
        }
        j += 1;
    }
    assert(hay@.subrange(at as int, at as int + needle@.len()) =~= needle@);
    true
}

/// Substring search over character vectors.
pub fn contains_chars(hay: &Vec<char>, needle: &Vec<char>) -> (r: bool)
    ensures
        r == contains_seq(hay@, needle@),
{
    if needle.len() > hay.len() {
        assert(!contains_seq(hay@, needle@));
        return false;
    }
    let limit = hay.len() - needle.len();
    let mut i: usize = 0;
    loop
        invariant
            needle@.len() <= hay@.len(),
            limit == hay@.len() - needle@.len(),
            0 <= i <= limit,
            forall|k: int|
                0 <= k < i ==> #[trigger] hay@.subrange(k, k + needle@.len()) != needle@,
        decreases limit - i,
    {
        if matches_at(hay, needle, i) {
            return true;
        }
        if i == limit {
            assert(forall|k: int|
                0 <= k <= limit ==> #[trigger] hay@.subrange(k, k + needle@.len()) != needle@);
            return false;
        }
        i += 1;
    }
}

/// The characters of a string slice, as a vector.
pub fn chars_of_str(s: &str) -> (v: Vec<char>)
    ensures
        v@ == s@,
{
    let len = s.unicode_len();
    let mut v: Vec<char> = Vec::new();
    let mut i: usize = 0;
    while i < len
        invariant
            len == s@.len(),
            0 <= i <= len,
            v@ == s@.take(i as int),
        decreases len - i,
    {
        let c = s.get_char(i);
        v.push(c);
        assert(v@ =~= s@.take(i as int + 1));
        i += 1;
    }
    assert(v@ =~= s@);
    v
}

/// Collects a character vector back into a `String`.
///
/// Relies on `String::from_iter` over `char`: the resulting string consists
/// of exactly the characters yielded by the iterator, in order.
#[verifier::external_body]
pub(crate) fn chars_to_string(v: &Vec<char>) -> (s: String)
    ensures
        s@ == v@,
{
    v.iter().collect()
}

/// Character-for-character equality of two string slices.
pub fn str_eq(a: &str, b: &str) -> (r: bool)
    ensures
        r == (a@ == b@),
{
    let la = a.unicode_len();
    let lb = b.unicode_len();
    if la != lb {
        return false;
    }
    let mut i: usize = 0;
    while i < la
        invariant
            la == a@.len(),
            la == b@.len(),
            0 <= i <= la,
            forall|k: int| 0 <= k < i ==> a@[k] == b@[k],
        decreases la - i,
    {
        if a.get_char(i) != b.get_char(i) {
            return false;
        }
        i += 1;
    }
    proof {
        assert(a@ =~= b@);
    }
    true
}

/// `s` with every space replaced by `c`.
pub open spec fn replace_spaces(s: Seq<char>, c: char) -> Seq<char> {
    s.map_values(|x: char| if x == ' ' { c } else { x })
}

/// Replaces each space in `s` with `c`.
pub fn replace_spaces_str(s: &str, c: char) -> (r: String)
    ensures
        r@ == replace_spaces(s@, c),
{
    let chars = chars_of_str(s);
    let mut out: Vec<char> = Vec::new();
    let mut i: usize = 0;
    while i < chars.len()
        invariant
            chars@ == s@,
            0 <= i <= chars@.len(),
            out@ =~= replace_spaces(s@, c).take(i as int),
        decreases chars@.len() - i,
    {
        let x = chars[i];
        if x == ' ' {
            out.push(c);
        } else {
            out.push(x);
        }
        assert(out@ =~= replace_spaces(s@, c).take(i as int + 1));
        i += 1;
    }
    assert(out@ =~= replace_spaces(s@, c));
    chars_to_string(&out)
}

/// The decimal rendering of `n` as a `String`.
pub fn u64_string(n: u64) -> (s: String)
    ensures
        s@ == dec_chars(n as nat),
{
    let mut buf: Vec<char> = Vec::new();
    push_dec(&mut buf, n);
    chars_to_string(&buf)
}

/// Concatenates three string slices.
pub fn concat3(a: &str, b: &str, c: &str) -> (r: String)
    ensures
        r@ == a@ + b@ + c@,
{
    let mut s = a.to_owned();
    s.append(b);
    s.append(c);
    s
}

/// Concatenates two string slices.
pub fn concat2(a: &str, b: &str) -> (r: String)
    ensures
        r@ == a@ + b@,
{
    let mut s = a.to_owned();
    s.append(b);
    s
}

/// The Unicode lowercasing of a character sequence, as `str::to_lowercase`
/// computes it. The mapping depends on the characters alone.
pub uninterp spec fn lower_of(s: Seq<char>) -> Seq<char>;

/// Relies on `str::to_lowercase`: the result is a function of the input
/// characters alone, and an empty input yields an empty result.
#[verifier::external_body]
pub(crate) fn lowercase(s: &str) -> (r: String)
    ensures
        r@ == lower_of(s@),
        s@.len() == 0 ==> r@.len() == 0,
{
    s.to_lowercase()
}

/// True when the lowercased form of `name` contains `needle`.
pub open spec fn lower_contains(name: Seq<char>, needle: Seq<char>) -> bool {
    contains_seq(lower_of(name), needle)
}

/// Whether the lowercased form of `name` contains the substring `needle`.
pub fn name_contains(name: &str, needle: &str) -> (r: bool)
    ensures
        r == lower_contains(name@, needle@),
{
    let low = lowercase(name);
    let hay = chars_of_str(low.as_str());
    let pat = chars_of_str(needle);
    contains_chars(&hay, &pat)
}

} // verus!

verus! {

pub open spec fn is_ws(c: char) -> bool {
    c == ' ' || c == '\n' || c == '\t' || c == '\r'
}

/// The first position at or after `i` holding a non-whitespace character.
pub open spec fn scan_ws(s: Seq<char>, i: int) -> int
    decreases s.len() - i,
{
    if i < 0 || i >= s.len() {
        i
    } else if !is_ws(s[i]) {
        i
    } else {
        scan_ws(s, i + 1)
    }
}

/// The position after the last non-whitespace character before `i`.
pub open spec fn scan_ws_back(s: Seq<char>, i: int) -> int
    decreases i,
{
    if i <= 0 || i > s.len() {
        0
    } else if !is_ws(s[i - 1]) {
        i
    } else {
        scan_ws_back(s, i - 1)
    }
}

/// `s` without leading and trailing whitespace.
pub open spec fn spec_trim(s: Seq<char>) -> Seq<char> {
    let a = scan_ws(s, 0);
    let b = scan_ws_back(s, s.len() as int);
    if a >= b {
        Seq::empty()
    } else {
        s.subrange(a, b)
    }
}

proof fn lemma_scan_ws_fixpoint(s: Seq<char>, i: int, j: int)
    requires
        0 <= i <= j <= s.len(),
        forall|k: int| i <= k < j ==> is_ws(#[trigger] s[k]),
        j == s.len() || !is_ws(s[j]),
    ensures
        scan_ws(s, i) == j,
    decreases j - i,
{
    if i < j {
        lemma_scan_ws_fixpoint(s, i + 1, j);
    }
}

proof fn lemma_scan_ws_back_fixpoint(s: Seq<char>, i: int, j: int)
    requires
        0 <= j <= i <= s.len(),
        forall|k: int| j <= k < i ==> is_ws(#[trigger] s[k]),
        j == 0 || !is_ws(s[j - 1]),
    ensures
        scan_ws_back(s, i) == j,
    decreases i - j,
{
    if j < i {
        lemma_scan_ws_back_fixpoint(s, i - 1, j);
    }
}

/// Exec test matching `is_ws`.
pub fn is_ws_char(c: char) -> (r: bool)
    ensures
        r == is_ws(c),
{
    c == ' ' || c == '\n' || c == '\t' || c == '\r'
}

/// Strips leading and trailing whitespace.
pub fn trim_str(s: &str) -> (r: String)
    ensures
        r@ == spec_trim(s@),
{
    let v = chars_of_str(s);
    let n = v.len();
    let mut a: usize = 0;
    while a < n && is_ws_char(v[a])
        invariant
            n == v@.len(),
            v@ == s@,
            0 <= a <= n,
            forall|k: int| 0 <= k < a ==> is_ws(#[trigger] v@[k]),
        decreases n - a,
    {
        a += 1;
    }
    proof {
        lemma_scan_ws_fixpoint(s@, 0, a as int);
    }
    let mut b: usize = n;
    while b > a && is_ws_char(v[b - 1])
        invariant
            n == v@.len(),
            v@ == s@,
            0 <= a <= b <= n,
            forall|k: int| 0 <= k < a ==> is_ws(#[trigger] v@[k]),
            forall|k: int| b <= k < n ==> is_ws(#[trigger] v@[k]),
        decreases b,
    {
        b -= 1;
    }
    if a >= b {
        proof {
            if b > 0 && a < b {
                assert(false);
            }
            lemma_scan_ws_back_helper(s@, a as int, b as int, n as int);
        }
        return String::new();
    }
    proof {
        lemma_scan_ws_back_fixpoint(s@, n as int, b as int);
    }
    let mut out: Vec<char> = Vec::new();
    let mut i: usize = a;
    while i < b
        invariant
            v@ == s@,
            0 <= a <= i <= b <= v@.len(),
            out@ =~= s@.subrange(a as int, i as int),
        decreases b - i,
    {
        out.push(v[i]);
        assert(out@ =~= s@.subrange(a as int, i as int + 1));
        i += 1;
    }
    proof {
        assert(out@ =~= spec_trim(s@));
    }
    chars_to_string(&out)
}

/// When the scan bounds cross, the whole string is whitespace on both ends
/// and the trimmed form is empty.
proof fn lemma_scan_ws_back_helper(s: Seq<char>, a: int, b: int, n: int)
    requires
        n == s.len(),
        0 <= a <= n,
        a <= b <= n,
        a >= b,
        forall|k: int| 0 <= k < a ==> is_ws(#[trigger] s[k]),
        forall|k: int| b <= k < n ==> is_ws(#[trigger] s[k]),
        b == 0 || b > 0 && !(b > a) || !is_ws(s[b - 1]) || b == a,
    ensures
        spec_trim(s) =~= Seq::<char>::empty(),
{
    assert(a == b);
    assert(forall|k: int| 0 <= k < n ==> is_ws(#[trigger] s[k]));
    lemma_scan_ws_fixpoint(s, 0, n);
    lemma_scan_ws_back_fixpoint(s, n, 0);
    if n > 0 {
        assert(scan_ws(s, 0) == n);
        assert(scan_ws_back(s, n) == 0);
    }
}

/// The first position at or after `i` holding a newline, or the end.
pub open spec fn scan_nl(s: Seq<char>, i: int) -> int
    decreases s.len() - i,
{
    if i < 0 || i >= s.len() {
        i
    } else if s[i] == '\n' {
        i
    } else {
        scan_nl(s, i + 1)
    }
}

proof fn lemma_scan_nl_fixpoint(s: Seq<char>, i: int, j: int)
    requires
        0 <= i <= j <= s.len(),
        forall|k: int| i <= k < j ==> #[trigger] s[k] != '\n',
        j == s.len() || s[j] == '\n',
    ensures
        scan_nl(s, i) == j,
    decreases j - i,
{
    if i < j {
        lemma_scan_nl_fixpoint(s, i + 1, j);
    }
}

/// `scan_nl` stays within the bounds it is given.
pub proof fn lemma_scan_nl_range(s: Seq<char>, i: int)
    requires
        0 <= i <= s.len(),
    ensures
        i <= scan_nl(s, i) <= s.len(),
    decreases s.len() - i,
{
    if i < s.len() && s[i] != '\n' {
        lemma_scan_nl_range(s, i + 1);
    }
}

/// The bounds of the first line at or after `i` that contains `needle`.
pub open spec fn sp_find_line(s: Seq<char>, i: int, needle: Seq<char>) -> Option<(int, int)>
    decreases s.len() - i,
    via sp_find_line_decreases
{
    if i < 0 || i > s.len() {
        Option::None
    } else {
        let j = scan_nl(s, i);
        if contains_seq(s.subrange(i, j), needle) {
            Option::Some((i, j))
        } else if j >= s.len() {
            Option::None
        } else {
            sp_find_line(s, j + 1, needle)
        }
    }
}

#[via_fn]
proof fn sp_find_line_decreases(s: Seq<char>, i: int, needle: Seq<char>) {
    if 0 <= i <= s.len() {
        lemma_scan_nl_range(s, i);
    }
}

/// Finds the first line at or after `i` that contains `needle`, exactly as
/// `sp_find_line` does.
pub fn find_line(v: &Vec<char>, i: usize, needle: &Vec<char>) -> (r: Option<(usize, usize)>)
    requires
        i <= v@.len(),
    ensures
        r matches Some(p) ==> sp_find_line(v@, i as int, needle@) == Some((p.0 as int, p.1 as int))
            && i <= p.0 <= p.1 <= v@.len(),
        r is None ==> sp_find_line(v@, i as int, needle@) is None,
    decreases v@.len() - i,
{
    let n = v.len();
    let mut j: usize = i;
    while j < n && v[j] != '\n'
        invariant
            n == v@.len(),
            i <= j <= n,
            forall|k: int| i <= k < j ==> #[trigger] v@[k] != '\n',
        decreases n - j,
    {
        j += 1;
    }
    proof {
        lemma_scan_nl_fixpoint(v@, i as int, j as int);
    }
    let mut line: Vec<char> = Vec::new();
    let mut k: usize = i;
    while k < j
        invariant
            n == v@.len(),
            i <= k <= j <= n,
            line@ =~= v@.subrange(i as int, k as int),
        decreases j - k,
    {
        line.push(v[k]);
        assert(line@ =~= v@.subrange(i as int, k as int + 1));
        k += 1;
    }
    proof {
        assert(line@ =~= v@.subrange(i as int, j as int));
    }
    if contains_chars(&line, needle) {
        return Option::Some((i, j));
    }
    if j >= n {
        return Option::None;
    }
    find_line(v, j + 1, needle)
}

/// The substring of `s` between character positions `a` and `b`.
pub fn substring_chars(s: &Vec<char>, a: usize, b: usize) -> (r: String)
    requires
        a <= b <= s@.len(),
    ensures
        r@ == s@.subrange(a as int, b as int),
{
    let mut out: Vec<char> = Vec::new();
    let mut i: usize = a;
    while i < b
        invariant
            a <= i <= b <= s@.len(),
            out@ =~= s@.subrange(a as int, i as int),
        decreases b - i,
    {
        out.push(s[i]);
        assert(out@ =~= s@.subrange(a as int, i as int + 1));
        i += 1;
    }
    proof {
        assert(out@ =~= s@.subrange(a as int, b as int));
    }
    chars_to_string(&out)
}

} // verus!

verus! {

/// The first position at or after `i` holding the character `c`, or the
/// end of the sequence.
pub open spec fn scan_char(s: Seq<char>, i: int, c: char) -> int
    decreases s.len() - i,
{
    if i < 0 || i >= s.len() {
        i
    } else if s[i] == c {
        i
    } else {
        scan_char(s, i + 1, c)
    }
}

proof fn lemma_scan_char_fixpoint(s: Seq<char>, i: int, j: int, c: char)
    requires
        0 <= i <= j <= s.len(),
        forall|k: int| i <= k < j ==> #[trigger] s[k] != c,
        j == s.len() || s[j] == c,
    ensures
        scan_char(s, i, c) == j,
    decreases j - i,
{
    if i < j {
        lemma_scan_char_fixpoint(s, i + 1, j, c);
    }
}

/// Finds the first occurrence of `c` at or after `i`, exactly as
/// `scan_char` does.
pub fn find_char(v: &Vec<char>, i: usize, c: char) -> (r: usize)
    requires
        i <= v@.len(),
    ensures
        r as int == scan_char(v@, i as int, c),
        i <= r <= v@.len(),
        r < v@.len() ==> v@[r as int] == c,
{
    let n = v.len();
    let mut j: usize = i;
    while j < n && v[j] != c
        invariant
            n == v@.len(),
            i <= j <= n,
            forall|k: int| i <= k < j ==> #[trigger] v@[k] != c,
        decreases n - j,
    {
        j += 1;
    }
    proof {
        lemma_scan_char_fixpoint(v@, i as int, j as int, c);
    }
    j
}

} // verus!
