//! Texts: comparison, search, numbers read and written, fields of a header.

use vstd::prelude::*;
use vstd::string::{axiom_spec_iter, StringExecFns};

verus! {

/// Compares two string slices character by character.
pub fn str_eq(a: &str, b: &str) -> (same: bool)
    ensures
        same == (a@ == b@),
{
    let x: String = a.to_owned();
    let y: String = b.to_owned();
    x == y
}

/// The characters of a string, in order.
pub fn chars_of(s: &str) -> (v: Vec<char>)
    ensures
        v@ == s@,
{
    broadcast use axiom_spec_iter;

    let mut v: Vec<char> = Vec::new();
    for c in iter: s.chars()
        invariant
            iter.seq() == s@,
            v@ == s@.take(iter.index() as int),
    {
        v.push(c);
        assert(s@.take(iter.index() + 1) =~= s@.take(iter.index() as int).push(c));
    }
    assert(s@.take(s@.len() as int) =~= s@);
    v
}

/// `needle` stands in `hay` at position `at`.
pub open spec fn occurs_at(hay: Seq<char>, needle: Seq<char>, at: int) -> bool {
    &&& 0 <= at
    &&& at + needle.len() <= hay.len()
    &&& hay.subrange(at, at + needle.len()) == needle
}

/// `needle` stands somewhere in `hay`.
pub open spec fn has_infix(hay: Seq<char>, needle: Seq<char>) -> bool {
    exists|at: int| occurs_at(hay, needle, at)
}

/// Tests whether `needle` stands in `hay` at position `at`.
pub fn matches_at(hay: &Vec<char>, needle: &Vec<char>, at: usize) -> (found: bool)
    requires
        at + needle.len() <= hay.len(),
    ensures
        found == occurs_at(hay@, needle@, at as int),
{
    let mut k: usize = 0;
    while k < needle.len()
        invariant
            k <= needle.len(),
            at + needle.len() <= hay.len(),
            forall|j: int| 0 <= j < k ==> hay@[at + j] == needle@[j],
        decreases needle.len() - k,
    {
        if hay[at + k] != needle[k] {
            proof {
                let piece = hay@.subrange(at as int, at + needle.len());
                assert(piece[k as int] == hay@[at + k]);
            }
            return false;
        }
        k += 1;
    }
    assert(hay@.subrange(at as int, at + needle.len()) =~= needle@);
    true
}

/// Tests whether `needle` occurs anywhere in `hay`. The empty needle occurs
/// in every text.
pub fn contains_chars(hay: &Vec<char>, needle: &Vec<char>) -> (found: bool)
    ensures
        found == has_infix(hay@, needle@),
{
    if needle.len() > hay.len() {
        return false;
    }
    let last: usize = hay.len() - needle.len();
    let mut at: usize = 0;
    loop
        invariant
            at <= last,
            last + needle.len() == hay.len(),
            forall|j: int| 0 <= j < at ==> !occurs_at(hay@, needle@, j),
        decreases last - at,
    {
        if matches_at(hay, needle, at) {
            return true;
        }
        if at == last {
            return false;
        }
        at += 1;
    }
}

/// Tests whether the text `hay` contains the text `needle`.
pub fn contains_text(hay: &str, needle: &str) -> (found: bool)
    ensures
        found == has_infix(hay@, needle@),
{
    let h: Vec<char> = chars_of(hay);
    let n: Vec<char> = chars_of(needle);
    contains_chars(&h, &n)
}

/// The first place at or after `from` where `sep` stands in `s`, or the
/// length of `s` where it does not.
pub open spec fn field_end(s: Seq<char>, from: int, sep: char) -> int
    decreases s.len() - from,
{
    if from >= s.len() || s[from] == sep {
        if from >= s.len() {
            s.len() as int
        } else {
            from
        }
    } else {
        field_end(s, from + 1, sep)
    }
}

/// Finds the end of the field that starts at `from`.
pub fn find_field_end(v: &Vec<char>, from: usize, sep: char) -> (end: usize)
    requires
        from <= v.len(),
    ensures
        end == field_end(v@, from as int, sep),
        from <= end <= v.len(),
{
    let mut i: usize = from;
    while i < v.len() && v[i] != sep
        invariant
            from <= i <= v.len(),
            field_end(v@, from as int, sep) == field_end(v@, i as int, sep),
        decreases v.len() - i,
    {
        i += 1;
    }
    i
}

/// Copies the characters from `from` up to `to`.
pub fn sub_chars(v: &Vec<char>, from: usize, to: usize) -> (piece: Vec<char>)
    requires
        from <= to <= v.len(),
    ensures
        piece@ == v@.subrange(from as int, to as int),
{
    let mut piece: Vec<char> = Vec::new();
    let mut i: usize = from;
    while i < to
        invariant
            from <= i <= to <= v.len(),
            piece@ == v@.subrange(from as int, i as int),
        decreases to - i,
    {
        piece.push(v[i]);
        assert(piece@ =~= v@.subrange(from as int, i + 1));
        i += 1;
    }
    piece
}

/// Compares two character vectors.
pub fn chars_eq(a: &Vec<char>, b: &Vec<char>) -> (same: bool)
    ensures
        same == (a@ == b@),
{
    if a.len() != b.len() {
        return false;
    }
    let mut i: usize = 0;
    while i < a.len()
        invariant
            i <= a.len(),
            a.len() == b.len(),
            forall|j: int| 0 <= j < i ==> a@[j] == b@[j],
        decreases a.len() - i,
    {
        if a[i] != b[i] {
            return false;
        }
        i += 1;
    }
    assert(a@ =~= b@);
    true
}

/// The lowercase form of a text, as the standard library computes it.
pub uninterp spec fn lowercase_of(s: Seq<char>) -> Seq<char>;

/// `str::to_lowercase` of the standard library: the result is the lowercase
/// equivalent of the argument and depends on nothing else.
#[verifier::external_body]
fn to_lowercase(s: &str) -> (low: String)
    ensures
        low@ == lowercase_of(s@),
{
    s.to_lowercase()
}

/// `hay` contains `needle` when letter case is ignored.
pub open spec fn matches_ignoring_case(hay: Seq<char>, needle: Seq<char>) -> bool {
    has_infix(lowercase_of(hay), lowercase_of(needle))
}

/// Tests whether `hay` contains `needle` when both are read in lowercase.
pub fn contains_ignoring_case(hay: &str, needle: &str) -> (found: bool)
    ensures
        found == matches_ignoring_case(hay@, needle@),
{
    let h: String = to_lowercase(hay);
    let n: String = to_lowercase(needle);
    contains_text(h.as_str(), n.as_str())
}

/// The lowercase form of a text, as characters.
pub fn lowercase_chars(s: &str) -> (low: Vec<char>)
    ensures
        low@ == lowercase_of(s@),
{
    let l: String = to_lowercase(s);
    chars_of(l.as_str())
}

/// Tests whether the lowercase form of `hay` contains `needle`.
pub fn lowered_contains(hay: &str, needle: &Vec<char>) -> (found: bool)
    ensures
        found == has_infix(lowercase_of(hay@), needle@),
{
    let h: Vec<char> = lowercase_chars(hay);
    contains_chars(&h, needle)
}

/// A decimal digit.
pub open spec fn is_digit(c: char) -> bool {
    '0' <= c && c <= '9'
}

/// The number a decimal digit stands for.
pub open spec fn digit_value(c: char) -> int {
    c as int - '0' as int
}

/// The number that a string of decimal digits denotes.
pub open spec fn digits_value(s: Seq<char>) -> int
    decreases s.len(),
{
    if s.len() == 0 {
        0
    } else {
        digits_value(s.drop_last()) * 10 + digit_value(s.last())
    }
}

/// Every character is a decimal digit, and there is at least one.
pub open spec fn is_number(s: Seq<char>) -> bool {
    s.len() > 0 && forall|i: int| 0 <= i < s.len() ==> is_digit(#[trigger] s[i])
}

/// The integer that a text denotes: digits, with one optional sign in front.
/// Anything else, the empty text and a lone sign included, denotes nothing.
pub open spec fn parsed_int(s: Seq<char>) -> Option<int> {
    if s.len() > 0 && s[0] == '-' {
        if is_number(s.skip(1)) {
            Some(-digits_value(s.skip(1)))
        } else {
            None
        }
    } else if s.len() > 0 && s[0] == '+' {
        if is_number(s.skip(1)) {
            Some(digits_value(s.skip(1)))
        } else {
            None
        }
    } else if is_number(s) {
        Some(digits_value(s))
    } else {
        None
    }
}

/// The value of `parsed_int` where it lies between `lo` and `hi`.
pub open spec fn parsed_within(s: Seq<char>, lo: int, hi: int) -> Option<int> {
    match parsed_int(s) {
        Some(v) => if lo <= v <= hi {
            Some(v)
        } else {
            None
        },
        None => None,
    }
}

/// A value held at a cap just beyond the range of 32-bit numbers.
pub open spec fn capped(v: int) -> int {
    if v > 0x8000_0001 {
        0x8000_0001
    } else {
        v
    }
}

proof fn lemma_digits_nonnegative(s: Seq<char>)
    requires
        forall|i: int| 0 <= i < s.len() ==> is_digit(#[trigger] s[i]),
    ensures
        digits_value(s) >= 0,
    decreases s.len(),
{
    if s.len() > 0 {
        lemma_digits_nonnegative(s.drop_last());
    }
}

/// Reads the digits of `v` from position `from` on. Returns nothing where a
/// character is no digit or there is none; otherwise the value, held at a
/// cap just beyond the 32-bit range.
fn read_digits(v: &Vec<char>, from: usize) -> (r: Option<i64>)
    requires
        from <= v.len(),
    ensures
        r is Some == is_number(v@.skip(from as int)),
        r matches Some(n) ==> n == capped(digits_value(v@.skip(from as int))) && n >= 0,
{
    let ghost tail = v@.skip(from as int);
    if from == v.len() {
        return None;
    }
    let mut acc: i64 = 0;
    let mut i: usize = from;
    while i < v.len()
        invariant
            from <= i <= v.len(),
            tail == v@.skip(from as int),
            forall|j: int| 0 <= j < i - from ==> is_digit(#[trigger] tail[j]),
            acc == capped(digits_value(tail.take(i - from))),
            0 <= acc <= 0x8000_0001,
        decreases v.len() - i,
    {
        let c: char = v[i];
        assert(tail[i - from] == c);
        if !(c >= '0' && c <= '9') {
            return None;
        }
        let d: i64 = (c as u32 - '0' as u32) as i64;
        proof {
            let next = tail.take(i - from + 1);
            assert(next.drop_last() =~= tail.take(i - from));
            assert(next.last() == c);
            lemma_digits_nonnegative(tail.take(i - from));
        }
        acc = acc * 10 + d;
        if acc > 0x8000_0001 {
            acc = 0x8000_0001;
        }
        i += 1;
    }
    assert(tail.take(i - from) =~= tail);
    Some(acc)
}

/// Parses a 32-bit integer from its characters: an optional sign and at
/// least one digit.
pub fn parse_i32_chars(v: &Vec<char>) -> (r: Option<i32>)
    ensures
        match parsed_within(v@, i32::MIN as int, i32::MAX as int) {
            Some(n) => r == Some(n as i32),
            None => r is None,
        },
{
    if v.len() == 0 {
        return None;
    }
    let first: char = v[0];
    if first == '-' {
        match read_digits(v, 1) {
            Some(n) => if n <= 0x8000_0000 {
                Some((0 - n) as i32)
            } else {
                None
            },
            None => None,
        }
    } else if first == '+' {
        match read_digits(v, 1) {
            Some(n) => if n <= 0x7fff_ffff {
                Some(n as i32)
            } else {
                None
            },
            None => None,
        }
    } else {
        assert(v@.skip(0) =~= v@);
        match read_digits(v, 0) {
            Some(n) => if n <= 0x7fff_ffff {
                Some(n as i32)
            } else {
                None
            },
            None => None,
        }
    }
}

/// Parses a 32-bit integer written in decimal, as `str::parse::<i32>` reads
/// it: an optional sign and at least one digit.
pub fn parse_i32(s: &str) -> (r: Option<i32>)
    ensures
        match parsed_within(s@, i32::MIN as int, i32::MAX as int) {
            Some(v) => r == Some(v as i32),
            None => r is None,
        },
{
    let v: Vec<char> = chars_of(s);
    parse_i32_chars(&v)
}

/// Parses a 16-bit integer written in decimal.
pub fn parse_i16(s: &str) -> (r: Option<i16>)
    ensures
        match parsed_within(s@, i16::MIN as int, i16::MAX as int) {
            Some(v) => r == Some(v as i16),
            None => r is None,
        },
{
    match parse_i32(s) {
        Some(n) => if -0x8000 <= n && n <= 0x7fff {
            Some(n as i16)
        } else {
            None
        },
        None => None,
    }
}

/// The character that writes a digit.
pub open spec fn digit_char(d: int) -> char {
    if d == 0 {
        '0'
    } else if d == 1 {
        '1'
    } else if d == 2 {
        '2'
    } else if d == 3 {
        '3'
    } else if d == 4 {
        '4'
    } else if d == 5 {
        '5'
    } else if d == 6 {
        '6'
    } else if d == 7 {
        '7'
    } else if d == 8 {
        '8'
    } else {
        '9'
    }
}

/// A natural number written in decimal, without leading zeros.
pub open spec fn natural_text(n: nat) -> Seq<char>
    decreases n,
{
    if n < 10 {
        seq![digit_char(n as int)]
    } else {
        natural_text(n / 10).push(digit_char((n % 10) as int))
    }
}

/// An integer written in decimal, with a minus sign where it is negative.
pub open spec fn decimal_text(n: int) -> Seq<char> {
    if n < 0 {
        seq!['-'] + natural_text((-n) as nat)
    } else {
        natural_text(n as nat)
    }
}

fn digit_str(d: u32) -> (s: &'static str)
    requires
        d < 10,
    ensures
        s@ == seq![digit_char(d as int)],
{
    proof {
        reveal_strlit("0");
        reveal_strlit("1");
        reveal_strlit("2");
        reveal_strlit("3");
        reveal_strlit("4");
        reveal_strlit("5");
        reveal_strlit("6");
        reveal_strlit("7");
        reveal_strlit("8");
        reveal_strlit("9");
    }
    let s: &'static str = if d == 0 {
        "0"
    } else if d == 1 {
        "1"
    } else if d == 2 {
        "2"
    } else if d == 3 {
        "3"
    } else if d == 4 {
        "4"
    } else if d == 5 {
        "5"
    } else if d == 6 {
        "6"
    } else if d == 7 {
        "7"
    } else if d == 8 {
        "8"
    } else {
        "9"
    };
    assert(s@ =~= seq![digit_char(d as int)]);
    s
}

fn natural_to_string(n: u32) -> (s: String)
    ensures
        s@ == natural_text(n as nat),
    decreases n,
{
    if n < 10 {
        String::from_str(digit_str(n))
    } else {
        let mut s: String = natural_to_string(n / 10);
        s.append(digit_str(n % 10));
        assert(s@ =~= natural_text(n as nat));
        s
    }
}

/// Writes a 16-bit integer in decimal.
pub fn count_to_string(n: i16) -> (s: String)
    ensures
        s@ == decimal_text(n as int),
{
    if n < 0 {
        let m: u32 = (0 - (n as i32)) as u32;
        let digits: String = natural_to_string(m);
        proof {
            reveal_strlit("-");
        }
        let s: String = String::from_str("-").concat(digits.as_str());
        assert(s@ =~= decimal_text(n as int));
        s
    } else {
        natural_to_string(n as u32)
    }
}

} // verus!
