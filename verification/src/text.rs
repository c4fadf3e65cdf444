//! Character-level operations on input lines and the decimal form of integers.

use vstd::prelude::*;
use vstd::string::*;

verus! {

/// The characters that separate words on an input line: the code points that
/// Unicode gives the property `White_Space`.
pub open spec fn is_space(c: char) -> bool {
    let n = c as u32;
    ||| 0x09 <= n <= 0x0D
    ||| n == 0x20
    ||| n == 0x85
    ||| n == 0xA0
    ||| n == 0x1680
    ||| 0x2000 <= n <= 0x200A
    ||| n == 0x2028
    ||| n == 0x2029
    ||| n == 0x202F
    ||| n == 0x205F
    ||| n == 0x3000
}

/// The first index at or after `i` that holds no space, or the length of `s`.
pub open spec fn skip_spaces(s: Seq<char>, i: int) -> int
    decreases s.len() - i,
{
    if 0 <= i < s.len() && is_space(s[i]) {
        skip_spaces(s, i + 1)
    } else {
        i
    }
}

/// The first index at or after `i` that holds a space, or the length of `s`.
pub open spec fn skip_word(s: Seq<char>, i: int) -> int
    decreases s.len() - i,
{
    if 0 <= i < s.len() && !is_space(s[i]) {
        skip_word(s, i + 1)
    } else {
        i
    }
}

/// The least index `k` with `lo <= k <= j` such that `s[k..j]` holds only spaces.
pub open spec fn back_spaces(s: Seq<char>, lo: int, j: int) -> int
    decreases j,
{
    if lo < j <= s.len() && 0 < j && is_space(s[j - 1]) {
        back_spaces(s, lo, j - 1)
    } else {
        j
    }
}

/// The least index `k <= j` such that `s[k..j]` holds no space: where the word
/// that ends at `j` begins.
pub open spec fn word_start(s: Seq<char>, j: int) -> int
    decreases j,
{
    if 0 < j <= s.len() && !is_space(s[j - 1]) {
        word_start(s, j - 1)
    } else {
        j
    }
}

/// `s` without its leading and trailing spaces.
pub open spec fn trimmed(s: Seq<char>) -> Seq<char> {
    let a = skip_spaces(s, 0);
    let b = back_spaces(s, a, s.len() as int);
    s.subrange(a, b)
}

/// The first word of a trimmed line: everything before its first space.
pub open spec fn first_word(s: Seq<char>) -> Seq<char> {
    s.subrange(0, skip_word(s, 0))
}

/// What follows the first word of a line, without the spaces around it.
pub open spec fn after_first_word(s: Seq<char>) -> Seq<char> {
    trimmed(s.subrange(skip_word(s, 0), s.len() as int))
}

/// `s` begins with `p`.
pub open spec fn has_prefix(s: Seq<char>, p: Seq<char>) -> bool {
    p.len() <= s.len() && s.subrange(0, p.len() as int) == p
}

/// The character that stands for the digit `d`.
pub open spec fn digit_char(d: int) -> char {
    if d == 0 {
        '0'
    } else if d == 1 {
        '1'
    } else if d == 2 {
        '2'
    } else if d == 3 {
        '3'
    } else if d == 4 {
        '4'
    } else if d == 5 {
        '5'
    } else if d == 6 {
        '6'
    } else if d == 7 {
        '7'
    } else if d == 8 {
        '8'
    } else {
        '9'
    }
}

/// The decimal digits of `n`, most significant first, without leading zeros.
pub open spec fn nat_digits(n: nat) -> Seq<char>
    decreases n,
{
    if n < 10 {
        seq![digit_char(n as int)]
    } else {
        nat_digits(n / 10).push(digit_char((n % 10) as int))
    }
}

/// The decimal form of `v`, with a leading minus sign where `v` is negative.
pub open spec fn decimal_text(v: int) -> Seq<char> {
    if v < 0 {
        seq!['-'] + nat_digits((-v) as nat)
    } else {
        nat_digits(v as nat)
    }
}

/// The character is a decimal digit.
pub open spec fn is_digit(c: char) -> bool {
    0x30 <= c as u32 <= 0x39
}

/// The text is a whole number in decimal form: digits, at least one, behind
/// an optional minus sign.
pub open spec fn is_whole_number(s: Seq<char>) -> bool {
    let start: int = if s.len() > 0 && s[0] == '-' {
        1
    } else {
        0
    };
    s.len() > start && forall|k: int| start <= k < s.len() ==> is_digit(s[k])
}

/// What `str::to_lowercase` makes of a string.
pub uninterp spec fn lowercase_of(s: Seq<char>) -> Seq<char>;

/// What `str::to_uppercase` makes of a string.
pub uninterp spec fn uppercase_of(s: Seq<char>) -> Seq<char>;

/// `str::to_lowercase` maps each character of its argument to lower case as
/// Unicode defines it; the contract only names that result.
pub assume_specification[ str::to_lowercase ](s: &str) -> (r: String)
    ensures
        r@ == lowercase_of(s@),
;

/// `str::to_uppercase` maps each character of its argument to upper case as
/// Unicode defines it; the contract only names that result.
pub assume_specification[ str::to_uppercase ](s: &str) -> (r: String)
    ensures
        r@ == uppercase_of(s@),
;

/// From `i` on, a text without spaces is one word up to its end.
pub proof fn lemma_skip_word_to_end(s: Seq<char>, i: int)
    requires
        0 <= i <= s.len(),
        forall|k: int| i <= k < s.len() ==> !is_space(#[trigger] s[k]),
    ensures
        skip_word(s, i) == s.len(),
    decreases s.len() - i,
{
    if i < s.len() {
        lemma_skip_word_to_end(s, i + 1);
    }
}

/// A text without spaces is its own first word, and nothing follows it.
pub proof fn lemma_word_without_space(s: Seq<char>)
    requires
        forall|k: int| 0 <= k < s.len() ==> !is_space(#[trigger] s[k]),
    ensures
        first_word(s) == s,
        after_first_word(s) == Seq::<char>::empty(),
{
    lemma_skip_word_to_end(s, 0);
    assert(s.subrange(0, s.len() as int) =~= s);
    let rest = s.subrange(s.len() as int, s.len() as int);
    assert(rest.len() == 0);
    assert(skip_spaces(rest, 0) == 0);
    assert(back_spaces(rest, 0, 0) == 0);
    assert(trimmed(rest) =~= Seq::<char>::empty());
}

/// Tells whether `c` separates words.
pub fn is_whitespace(c: char) -> (b: bool)
    ensures
        b == is_space(c),
{
    let n: u32 = c as u32;
    (0x09 <= n && n <= 0x0D) || n == 0x20 || n == 0x85 || n == 0xA0 || n == 0x1680 || (0x2000 <= n
        && n <= 0x200A) || n == 0x2028 || n == 0x2029 || n == 0x202F || n == 0x205F || n == 0x3000
}

/// The characters of `s`, one element each.
pub fn to_chars(s: &str) -> (v: Vec<char>)
    ensures
        v@ == s@,
{
    let mut v: Vec<char> = Vec::new();
    for c in it: s.chars()
        invariant
            v@ == it.seq().take(it.index() as int),
    {
        v.push(c);
    }
    v
}

/// The index in `v` of the first character at or after `from` that is no space.
pub fn scan_spaces(v: &Vec<char>, from: usize) -> (i: usize)
    requires
        from <= v.len(),
    ensures
        i == skip_spaces(v@, from as int),
        from <= i <= v.len(),
{
    let mut i: usize = from;
    while i < v.len() && is_whitespace(v[i])
        invariant
            from <= i <= v.len(),
            skip_spaces(v@, i as int) == skip_spaces(v@, from as int),
        decreases v.len() - i,
    {
        i += 1;
    }
    i
}

/// The index in `v` of the first space at or after `from`.
pub fn scan_word(v: &Vec<char>, from: usize) -> (i: usize)
    requires
        from <= v.len(),
    ensures
        i == skip_word(v@, from as int),
        from <= i <= v.len(),
{
    let mut i: usize = from;
    while i < v.len() && !is_whitespace(v[i])
        invariant
            from <= i <= v.len(),
            skip_word(v@, i as int) == skip_word(v@, from as int),
        decreases v.len() - i,
    {
        i += 1;
    }
    i
}

/// Steps back from `to` over spaces, not beyond `lo`.
pub fn scan_spaces_back(v: &Vec<char>, lo: usize, to: usize) -> (j: usize)
    requires
        lo <= to <= v.len(),
    ensures
        j == back_spaces(v@, lo as int, to as int),
        lo <= j <= to,
{
    let mut j: usize = to;
    while j > lo && is_whitespace(v[j - 1])
        invariant
            lo <= j <= to,
            to <= v.len(),
            back_spaces(v@, lo as int, j as int) == back_spaces(v@, lo as int, to as int),
        decreases j,
    {
        j -= 1;
    }
    j
}

/// Steps back from `to` to the start of the word that ends there.
pub fn scan_word_back(v: &Vec<char>, to: usize) -> (j: usize)
    requires
        to <= v.len(),
    ensures
        j == word_start(v@, to as int),
        j <= to,
{
    let mut j: usize = to;
    while j > 0 && !is_whitespace(v[j - 1])
        invariant
            j <= to,
            to <= v.len(),
            word_start(v@, j as int) == word_start(v@, to as int),
        decreases j,
    {
        j -= 1;
    }
    j
}

/// Removes the spaces at both ends of `s`.
pub fn trim(s: &str) -> (r: &str)
    ensures
        r@ == trimmed(s@),
{
    let v = to_chars(s);
    let a = scan_spaces(&v, 0);
    let b = scan_spaces_back(&v, a, v.len());
    s.substring_char(a, b)
}

/// Splits a line at the end of its first word: the word itself, and the rest
/// without the spaces around it.
pub fn split_first_word(s: &str) -> (r: (&str, &str))
    ensures
        r.0@ == first_word(s@),
        r.1@ == after_first_word(s@),
{
    let v = to_chars(s);
    let e = scan_word(&v, 0);
    let head = s.substring_char(0, e);
    let tail = s.substring_char(e, v.len());
    (head, trim(tail))
}

/// Compares two strings character by character.
pub fn str_eq(a: &str, b: &str) -> (r: bool)
    ensures
        r == (a@ == b@),
{
    let x = to_chars(a);
    let y = to_chars(b);
    if x.len() != y.len() {
        return false;
    }
    let mut i: usize = 0;
    while i < x.len()
        invariant
            i <= x.len(),
            x.len() == y.len(),
            x@ == a@,
            y@ == b@,
            forall|k: int| 0 <= k < i ==> x@[k] == y@[k],
        decreases x.len() - i,
    {
        if x[i] != y[i] {
            return false;
        }
        i += 1;
    }
    assert(x@ =~= y@);
    true
}

/// Tells whether `s` begins with `prefix`.
pub fn starts_with(s: &str, prefix: &str) -> (r: bool)
    ensures
        r == has_prefix(s@, prefix@),
{
    let x = to_chars(s);
    let p = to_chars(prefix);
    if p.len() > x.len() {
        return false;
    }
    let mut i: usize = 0;
    while i < p.len()
        invariant
            i <= p.len() <= x.len(),
            x@ == s@,
            p@ == prefix@,
            forall|k: int| 0 <= k < i ==> x@[k] == p@[k],
        decreases p.len() - i,
    {
        if x[i] != p[i] {
            assert(x@.subrange(0, p.len() as int)[i as int] != p@[i as int]);
            return false;
        }
        i += 1;
    }
    assert(x@.subrange(0, p.len() as int) =~= p@);
    true
}

/// Tells whether a text is a whole number in decimal form.
pub fn is_whole(s: &str) -> (r: bool)
    ensures
        r == is_whole_number(s@),
{
    let v = to_chars(s);
    let start: usize = if v.len() > 0 && v[0] == '-' {
        1
    } else {
        0
    };
    if v.len() <= start {
        return false;
    }
    let mut i: usize = start;
    while i < v.len()
        invariant
            start <= i <= v.len(),
            v@ == s@,
            start == (if s@.len() > 0 && s@[0] == '-' {
                1int
            } else {
                0int
            }),
            forall|k: int| start <= k < i ==> is_digit(v@[k]),
        decreases v.len() - i,
    {
        let code: u32 = v[i] as u32;
        if code < 0x30 || code > 0x39 {
            assert(!is_digit(s@[i as int]));
            return false;
        }
        i += 1;
    }
    true
}

/// Joins three texts.
pub fn concat3(a: &str, b: &str, c: &str) -> (r: String)
    ensures
        r@ == a@ + b@ + c@,
{
    let mut r = String::from_str(a);
    r.append(b);
    r.append(c);
    r
}

/// The one-character string of a decimal digit.
fn digit_str(d: u64) -> (r: &'static str)
    requires
        d < 10,
    ensures
        r@ == seq![digit_char(d as int)],
{
    proof {
        reveal_strlit("0");
        reveal_strlit("1");
        reveal_strlit("2");
        reveal_strlit("3");
        reveal_strlit("4");
        reveal_strlit("5");
        reveal_strlit("6");
        reveal_strlit("7");
        reveal_strlit("8");
        reveal_strlit("9");
    }
    let r = if d == 0 {
        "0"
    } else if d == 1 {
        "1"
    } else if d == 2 {
        "2"
    } else if d == 3 {
        "3"
    } else if d == 4 {
        "4"
    } else if d == 5 {
        "5"
    } else if d == 6 {
        "6"
    } else if d == 7 {
        "7"
    } else if d == 8 {
        "8"
    } else {
        "9"
    };
    assert(r@ =~= seq![digit_char(d as int)]);
    r
}

/// Appends the decimal digits of `n` to `out`.
pub fn push_decimal(out: &mut String, n: u64)
    ensures
        final(out)@ == old(out)@ + nat_digits(n as nat),
    decreases n,
{
    if n >= 10 {
        push_decimal(out, n / 10);
    }
    out.append(digit_str(n % 10));
    assert(final(out)@ =~= old(out)@ + nat_digits(n as nat));
}

/// The decimal form of a 32-bit integer.
pub fn i32_text(v: i32) -> (r: String)
    ensures
        r@ == decimal_text(v as int),
{
    let mut out = String::new();
    if v < 0 {
        proof {
            reveal_strlit("-");
        }
        out.append("-");
        let m: u64 = (-(v as i64)) as u64;
        push_decimal(&mut out, m);
        assert(out@ =~= decimal_text(v as int));
    } else {
        push_decimal(&mut out, v as u64);
        assert(out@ =~= decimal_text(v as int));
    }
    out
}

} // verus!
