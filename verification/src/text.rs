//! Character-level helpers shared by the parsers and the path heuristics.
//!
//! Text is handled as `Vec<char>`, whose view is the `Seq<char>` that the
//! contracts speak of.

use vstd::prelude::*;
use vstd::string::*;

verus! {

/// The characters that carry the Unicode `White_Space` property.
pub open spec fn is_space(c: char) -> bool {
    let n = c as u32;
    (0x09 <= n <= 0x0D) || n == 0x20 || n == 0x85 || n == 0xA0 || n == 0x1680 || (0x2000 <= n
        <= 0x200A) || n == 0x2028 || n == 0x2029 || n == 0x202F || n == 0x205F || n == 0x3000
}

/// A class of characters: one given character, or all white space.
pub open spec fn in_class(c: char, class: Option<char>) -> bool {
    match class {
        Some(x) => c == x,
        None => is_space(c),
    }
}

/// The first index at or after `i` whose character is outside the class.
pub open spec fn skip_fwd(s: Seq<char>, i: int, class: Option<char>) -> int
    decreases s.len() - i,
{
    if 0 <= i < s.len() && in_class(s[i], class) {
        skip_fwd(s, i + 1, class)
    } else {
        i
    }
}

/// The end of the text after the class's characters were dropped from its
/// tail, never going below `lo`.
pub open spec fn skip_back(s: Seq<char>, j: int, lo: int, class: Option<char>) -> int
    decreases j,
{
    if 0 <= lo < j <= s.len() && in_class(s[j - 1], class) {
        skip_back(s, j - 1, lo, class)
    } else {
        j
    }
}

/// The text without the leading and trailing characters of the class.
pub open spec fn trim_of(s: Seq<char>, class: Option<char>) -> Seq<char> {
    let a = skip_fwd(s, 0, class);
    let b = skip_back(s, s.len() as int, a, class);
    s.subrange(a, b)
}

/// `p` stands in `s` at index `i`.
pub open spec fn occurs_at(s: Seq<char>, p: Seq<char>, i: int) -> bool {
    0 <= i && i + p.len() <= s.len() && s.subrange(i, i + p.len()) == p
}

/// `p` stands somewhere in `s`.
pub open spec fn contains_seq(s: Seq<char>, p: Seq<char>) -> bool {
    exists|i: int| occurs_at(s, p, i)
}

/// `s` begins with `p`.
pub open spec fn has_prefix(s: Seq<char>, p: Seq<char>) -> bool {
    occurs_at(s, p, 0)
}

/// `s` ends with `p`.
pub open spec fn has_suffix(s: Seq<char>, p: Seq<char>) -> bool {
    occurs_at(s, p, s.len() - p.len())
}

/// The index of the first `c` at or after `i`, or the length where there is none.
pub open spec fn index_from(s: Seq<char>, c: char, i: int) -> int
    decreases s.len() - i,
{
    if 0 <= i < s.len() && s[i] != c {
        index_from(s, c, i + 1)
    } else {
        i
    }
}

/// One past the index of the last `c` before `j`, or 0 where there is none.
pub open spec fn index_back(s: Seq<char>, c: char, j: int) -> int
    decreases j,
{
    if 0 < j <= s.len() && s[j - 1] != c {
        index_back(s, c, j - 1)
    } else {
        j
    }
}

/// How often `c` occurs in `s`.
pub open spec fn count_of(s: Seq<char>, c: char) -> nat
    decreases s.len(),
{
    if s.len() == 0 {
        0
    } else {
        count_of(s.drop_last(), c) + if s.last() == c {
            1nat
        } else {
            0nat
        }
    }
}

/// The pieces of `s` between the occurrences of `c`, from the piece that
/// began at `start` and has been read up to `i`.
pub open spec fn split_acc(s: Seq<char>, c: char, start: int, i: int) -> Seq<Seq<char>>
    decreases s.len() - i,
{
    if !(0 <= start <= i) {
        seq![]
    } else if i >= s.len() {
        seq![s.subrange(start, s.len() as int)]
    } else if s[i] == c {
        seq![s.subrange(start, i)] + split_acc(s, c, i + 1, i + 1)
    } else {
        split_acc(s, c, start, i + 1)
    }
}

/// The pieces of `s` between the occurrences of `c`; one more than there are
/// occurrences.
pub open spec fn split_of(s: Seq<char>, c: char) -> Seq<Seq<char>> {
    split_acc(s, c, 0, 0)
}

/// The views of a sequence of strings.
pub open spec fn string_views(v: Seq<String>) -> Seq<Seq<char>> {
    Seq::new(v.len(), |i: int| v[i]@)
}

/// The views of a vector of texts.
pub open spec fn views_of(v: Seq<Vec<char>>) -> Seq<Seq<char>> {
    Seq::new(v.len(), |i: int| v[i]@)
}

/// Skipping forward stays between where it started and the end of the text.
pub proof fn lemma_skip_fwd_bounds(s: Seq<char>, i: int, class: Option<char>)
    requires
        0 <= i <= s.len(),
    ensures
        i <= skip_fwd(s, i, class) <= s.len(),
    decreases s.len() - i,
{
    if i < s.len() && in_class(s[i], class) {
        lemma_skip_fwd_bounds(s, i + 1, class);
    }
}

/// Skipping backward stays between its lower bound and where it started.
pub proof fn lemma_skip_back_bounds(s: Seq<char>, j: int, lo: int, class: Option<char>)
    requires
        0 <= lo <= j <= s.len(),
    ensures
        lo <= skip_back(s, j, lo, class) <= j,
    decreases j,
{
    if lo < j && in_class(s[j - 1], class) {
        lemma_skip_back_bounds(s, j - 1, lo, class);
    }
}

/// A trimmed text is a part of the text it was cut from.
pub proof fn lemma_trim_bounds(s: Seq<char>, class: Option<char>)
    ensures
        trim_of(s, class).len() <= s.len(),
        0 <= skip_fwd(s, 0, class) <= skip_back(
            s,
            s.len() as int,
            skip_fwd(s, 0, class),
            class,
        ) <= s.len(),
{
    lemma_skip_fwd_bounds(s, 0, class);
    lemma_skip_back_bounds(s, s.len() as int, skip_fwd(s, 0, class), class);
}

/// Whether a character is white space.
pub fn is_space_char(c: char) -> (b: bool)
    ensures
        b == is_space(c),
{
    let n: u32 = c as u32;
    (0x09 <= n && n <= 0x0D) || n == 0x20 || n == 0x85 || n == 0xA0 || n == 0x1680 || (0x2000 <= n
        && n <= 0x200A) || n == 0x2028 || n == 0x2029 || n == 0x202F || n == 0x205F || n == 0x3000
}

/// Whether a character belongs to a class.
pub fn char_in_class(c: char, class: Option<char>) -> (b: bool)
    ensures
        b == in_class(c, class),
{
    match class {
        Some(x) => c == x,
        None => is_space_char(c),
    }
}

/// The characters of a string slice, in order.
pub fn chars_of(s: &str) -> (v: Vec<char>)
    ensures
        v@ == s@,
{
    let n = s.unicode_len();
    let mut v: Vec<char> = Vec::new();
    let mut i: usize = 0;
    while i < n
        invariant
            i <= n,
            n == s@.len(),
            v@ == s@.subrange(0, i as int),
        decreases n - i,
    {
        v.push(s.get_char(i));
        i += 1;
        assert(v@ =~= s@.subrange(0, i as int));
    }
    assert(v@ =~= s@);
    v
}

/// Collects characters into a `String` with `String::from_iter`: the string
/// holds exactly the given characters, in order.
#[verifier::external_body]
pub(crate) fn string_of(v: &Vec<char>) -> (s: String)
    ensures
        s@ == v@,
{
    String::from_iter(v.iter())
}

/// The lower-case form of a text, as `str::to_lowercase` gives it.
pub uninterp spec fn lowercase_of(s: Seq<char>) -> Seq<char>;

/// Lower-cases a text with `str::to_lowercase`. The result is a function of
/// the text alone; nothing more is claimed of it.
#[verifier::external_body]
pub(crate) fn lowercase(s: &str) -> (r: String)
    ensures
        r@ == lowercase_of(s@),
{
    s.to_lowercase()
}

/// The lower-case form of a text.
pub fn lowercase_chars(v: &Vec<char>) -> (r: Vec<char>)
    ensures
        r@ == lowercase_of(v@),
{
    let s = string_of(v);
    let low = lowercase(s.as_str());
    chars_of(low.as_str())
}

/// A copy of the characters from index `a` up to `b`.
pub fn copy_range(v: &Vec<char>, a: usize, b: usize) -> (r: Vec<char>)
    requires
        a <= b <= v@.len(),
    ensures
        r@ == v@.subrange(a as int, b as int),
{
    let mut r: Vec<char> = Vec::new();
    let mut i: usize = a;
    while i < b
        invariant
            a <= i <= b <= v@.len(),
            r@ == v@.subrange(a as int, i as int),
        decreases b - i,
    {
        r.push(v[i]);
        i += 1;
        assert(r@ =~= v@.subrange(a as int, i as int));
    }
    r
}

/// Drops the leading and trailing characters of a class.
pub fn trim_class(v: &Vec<char>, class: Option<char>) -> (r: Vec<char>)
    ensures
        r@ == trim_of(v@, class),
{
    let n = v.len();
    let mut a: usize = 0;
    while a < n && char_in_class(v[a], class)
        invariant
            a <= n,
            n == v@.len(),
            skip_fwd(v@, a as int, class) == skip_fwd(v@, 0, class),
        decreases n - a,
    {
        a += 1;
    }
    let mut b: usize = n;
    while b > a && char_in_class(v[b - 1], class)
        invariant
            a <= b <= n,
            n == v@.len(),
            skip_back(v@, b as int, a as int, class) == skip_back(v@, n as int, a as int, class),
        decreases b,
    {
        b -= 1;
    }
    copy_range(v, a, b)
}

/// Drops leading and trailing white space.
pub fn trim(v: &Vec<char>) -> (r: Vec<char>)
    ensures
        r@ == trim_of(v@, None),
{
    trim_class(v, None)
}

/// Whether `p` stands in `v` at index `i`.
pub fn matches_at(v: &Vec<char>, p: &Vec<char>, i: usize) -> (b: bool)
    ensures
        b == occurs_at(v@, p@, i as int),
{
    let n = v.len();
    let m = p.len();
    if i > n || m > n - i {
        return false;
    }
    let mut k: usize = 0;
    while k < m
        invariant
            k <= m,
            m == p@.len(),
            n == v@.len(),
            i + m <= n,
            forall|j: int| 0 <= j < k ==> v@[i + j] == p@[j],
        decreases m - k,
    {
        if v[i + k] != p[k] {
            proof {
                assert(v@.subrange(i as int, i + m)[k as int] == v@[i + k]);
            }
            return false;
        }
        k += 1;
    }
    assert(v@.subrange(i as int, i + m) =~= p@);
    true
}

/// Whether `v` begins with `p`.
pub fn starts_with(v: &Vec<char>, p: &Vec<char>) -> (b: bool)
    ensures
        b == has_prefix(v@, p@),
{
    matches_at(v, p, 0)
}

/// Whether `v` ends with `p`.
pub fn ends_with(v: &Vec<char>, p: &Vec<char>) -> (b: bool)
    ensures
        b == has_suffix(v@, p@),
{
    if p.len() > v.len() {
        return false;
    }
    matches_at(v, p, v.len() - p.len())
}

/// Whether the two texts are the same.
pub fn same_text(a: &Vec<char>, b: &Vec<char>) -> (r: bool)
    ensures
        r == (a@ == b@),
{
    if a.len() != b.len() {
        return false;
    }
    let r = matches_at(a, b, 0);
    assert(a@.subrange(0, a@.len() as int) =~= a@);
    r
}

/// Whether `p` stands somewhere in `v`.
pub fn contains(v: &Vec<char>, p: &Vec<char>) -> (b: bool)
    ensures
        b == contains_seq(v@, p@),
{
    let n = v.len();
    let m = p.len();
    if m > n {
        return false;
    }
    let last: usize = n - m;
    let mut i: usize = 0;
    loop
        invariant
            m <= n,
            n == v@.len(),
            m == p@.len(),
            last == n - m,
            i <= last,
            forall|k: int| 0 <= k < i ==> !occurs_at(v@, p@, k),
        decreases last - i,
    {
        if matches_at(v, p, i) {
            return true;
        }
        if i == last {
            return false;
        }
        i += 1;
    }
}

/// The index of the first `c`, or the length where `c` does not occur.
pub fn find_char(v: &Vec<char>, c: char) -> (i: usize)
    ensures
        i == index_from(v@, c, 0),
        i <= v@.len(),
        i < v@.len() ==> v@[i as int] == c,
        forall|k: int| 0 <= k < i ==> v@[k] != c,
{
    let n = v.len();
    let mut i: usize = 0;
    while i < n && v[i] != c
        invariant
            i <= n,
            n == v@.len(),
            index_from(v@, c, i as int) == index_from(v@, c, 0),
            forall|k: int| 0 <= k < i ==> v@[k] != c,
        decreases n - i,
    {
        i += 1;
    }
    i
}

/// One past the index of the last `c`, or 0 where `c` does not occur.
pub fn rfind_char(v: &Vec<char>, c: char) -> (j: usize)
    ensures
        j == index_back(v@, c, v@.len() as int),
        j <= v@.len(),
        j > 0 ==> v@[j - 1] == c,
        forall|k: int| j <= k < v@.len() ==> v@[k] != c,
{
    let n = v.len();
    let mut j: usize = n;
    while j > 0 && v[j - 1] != c
        invariant
            j <= n,
            n == v@.len(),
            index_back(v@, c, j as int) == index_back(v@, c, n as int),
            forall|k: int| j <= k < n ==> v@[k] != c,
        decreases j,
    {
        j -= 1;
    }
    j
}

/// How often `c` occurs in `v`.
pub fn count_char(v: &Vec<char>, c: char) -> (r: usize)
    ensures
        r == count_of(v@, c),
        r <= v@.len(),
{
    let n = v.len();
    let mut r: usize = 0;
    let mut i: usize = 0;
    while i < n
        invariant
            i <= n,
            n == v@.len(),
            r <= i,
            r == count_of(v@.subrange(0, i as int), c),
        decreases n - i,
    {
        proof {
            let t = v@.subrange(0, i + 1);
            assert(t.drop_last() =~= v@.subrange(0, i as int));
        }
        if v[i] == c {
            r += 1;
        }
        i += 1;
    }
    assert(v@.subrange(0, n as int) =~= v@);
    r
}

/// Cuts `v` at each occurrence of `c`.
pub fn split_char(v: &Vec<char>, c: char) -> (r: Vec<Vec<char>>)
    ensures
        views_of(r@) == split_of(v@, c),
{
    let n = v.len();
    let mut r: Vec<Vec<char>> = Vec::new();
    let mut start: usize = 0;
    let mut i: usize = 0;
    while i < n
        invariant
            start <= i <= n,
            n == v@.len(),
            views_of(r@) + split_acc(v@, c, start as int, i as int) == split_of(v@, c),
        decreases n - i,
    {
        if v[i] == c {
            let piece = copy_range(v, start, i);
            proof {
                let before = views_of(r@);
                assert(views_of(r@.push(piece)) =~= before + seq![piece@]);
                assert((before + seq![piece@]) + split_acc(v@, c, i + 1, i + 1) =~= before + (
                seq![piece@] + split_acc(v@, c, i + 1, i + 1)));
            }
            r.push(piece);
            start = i + 1;
        }
        i += 1;
    }
    let piece = copy_range(v, start, n);
    proof {
        let before = views_of(r@);
        assert(views_of(r@.push(piece)) =~= before + seq![piece@]);
    }
    r.push(piece);
    r
}

/// Whether two string slices hold the same characters.
pub fn str_eq(a: &str, b: &str) -> (r: bool)
    ensures
        r == (a@ == b@),
{
    let x = chars_of(a);
    let y = chars_of(b);
    same_text(&x, &y)
}

/// The decimal digits of `n`, most significant first, for `n` above zero;
/// nothing for zero.
pub open spec fn digits_of(n: nat) -> Seq<char>
    decreases n,
{
    if n == 0 {
        seq![]
    } else {
        digits_of(n / 10).push(digit_char(n % 10))
    }
}

/// The character of one decimal digit.
pub open spec fn digit_char(d: nat) -> char {
    if d == 0 {
        '0'
    } else if d == 1 {
        '1'
    } else if d == 2 {
        '2'
    } else if d == 3 {
        '3'
    } else if d == 4 {
        '4'
    } else if d == 5 {
        '5'
    } else if d == 6 {
        '6'
    } else if d == 7 {
        '7'
    } else if d == 8 {
        '8'
    } else {
        '9'
    }
}

/// A number as it is written in decimal: `0` for zero, otherwise its digits
/// without leading zeros.
pub open spec fn decimal_of(n: nat) -> Seq<char> {
    if n == 0 {
        seq!['0']
    } else {
        digits_of(n)
    }
}

fn digit(d: u64) -> (c: char)
    requires
        d < 10,
    ensures
        c == digit_char(d as nat),
{
    if d == 0 {
        '0'
    } else if d == 1 {
        '1'
    } else if d == 2 {
        '2'
    } else if d == 3 {
        '3'
    } else if d == 4 {
        '4'
    } else if d == 5 {
        '5'
    } else if d == 6 {
        '6'
    } else if d == 7 {
        '7'
    } else if d == 8 {
        '8'
    } else {
        '9'
    }
}

/// Writes a number in decimal.
pub fn decimal(n: u64) -> (r: Vec<char>)
    ensures
        r@ == decimal_of(n as nat),
{
    if n == 0 {
        let mut z: Vec<char> = Vec::new();
        z.push('0');
        assert(z@ =~= seq!['0']);
        return z;
    }
    // The digits come out least significant first and are then reversed.
    let mut rev: Vec<char> = Vec::new();
    let mut m: u64 = n;
    while m > 0
        invariant
            digits_of(m as nat) + rev@.reverse() == digits_of(n as nat),
        decreases m,
    {
        let c = digit(m % 10);
        proof {
            let before = rev@;
            assert(before.push(c).reverse() =~= seq![c] + before.reverse());
            assert(digits_of(m as nat) == digits_of((m / 10) as nat).push(c));
            assert(digits_of((m / 10) as nat).push(c) + before.reverse() =~= digits_of(
                (m / 10) as nat,
            ) + (seq![c] + before.reverse()));
        }
        rev.push(c);
        m = m / 10;
    }
    let mut r: Vec<char> = Vec::new();
    let mut i: usize = rev.len();
    while i > 0
        invariant
            i <= rev@.len(),
            r@ == rev@.reverse().subrange(0, rev@.len() - i),
        decreases i,
    {
        i -= 1;
        r.push(rev[i]);
        assert(r@ =~= rev@.reverse().subrange(0, rev@.len() - i));
    }
    assert(r@ =~= rev@.reverse());
    assert(digits_of(0) + rev@.reverse() =~= rev@.reverse());
    r
}

/// Appends the characters of `tail` to `head`.
pub fn append_chars(head: &mut Vec<char>, tail: &Vec<char>)
    ensures
        final(head)@ == old(head)@ + tail@,
{
    let mut i: usize = 0;
    while i < tail.len()
        invariant
            i <= tail@.len(),
            head@ == old(head)@ + tail@.subrange(0, i as int),
        decreases tail@.len() - i,
    {
        head.push(tail[i]);
        i += 1;
        assert(head@ =~= old(head)@ + tail@.subrange(0, i as int));
    }
    assert(tail@.subrange(0, tail@.len() as int) =~= tail@);
}

} // verus!
