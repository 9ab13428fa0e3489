//! Text helpers: file extensions, decimal numerals and their parsing.

use vstd::prelude::*;
use vstd::string::*;

verus! {

/// The view of an optional text.
pub open spec fn text_of(t: Option<&str>) -> Option<Seq<char>> {
    match t {
        Some(s) => Some(s@),
        None => None,
    }
}

/// The index just behind the last `'.'` of `s`, or 0 where `s` holds none.
pub open spec fn extension_start(s: Seq<char>) -> int
    decreases s.len(),
{
    if s.len() == 0 {
        0
    } else if s.last() == '.' {
        s.len() as int
    } else {
        extension_start(s.drop_last())
    }
}

/// The text behind the last `'.'` of `s`; all of `s` where it holds none.
pub open spec fn extension_of(s: Seq<char>) -> Seq<char> {
    s.subrange(extension_start(s), s.len() as int)
}

/// `extension_start` is the one index with a dot before it (or the start of
/// the text) and no dot from it on.
pub proof fn lemma_extension_start(s: Seq<char>, i: int)
    requires
        0 <= i <= s.len(),
        i == 0 || s[i - 1] == '.',
        forall|j: int| i <= j < s.len() ==> s[j] != '.',
    ensures
        extension_start(s) == i,
    decreases s.len(),
{
    if s.len() > 0 && s.last() != '.' {
        lemma_extension_start(s.drop_last(), i);
    }
}

/// The extension holds no dot, and is preceded by one unless it is the whole
/// text.
pub proof fn lemma_extension_of(s: Seq<char>)
    ensures
        0 <= extension_start(s) <= s.len(),
        extension_start(s) == 0 || s[extension_start(s) - 1] == '.',
        forall|j: int| 0 <= j < extension_of(s).len() ==> extension_of(s)[j] != '.',
    decreases s.len(),
{
    if s.len() > 0 && s.last() != '.' {
        let t = s.drop_last();
        lemma_extension_of(t);
        assert forall|j: int| 0 <= j < extension_of(s).len() implies extension_of(s)[j] != '.' by {
            if j < extension_of(t).len() {
                assert(extension_of(s)[j] == extension_of(t)[j]);
            }
        }
    }
}

/// The character at index `i`, read in one step where the text is known to
/// be ASCII.
fn char_at(s: &str, ascii: bool, i: usize) -> (c: char)
    requires
        ascii ==> s.is_ascii(),
        i < s@.len(),
    ensures
        c == s@[i as int],
{
    if ascii {
        let b: u8 = s.get_ascii(i);
        b as char
    } else {
        s.get_char(i)
    }
}

/// Whether two texts hold the same characters.
pub fn same_text(a: &str, b: &str) -> (same: bool)
    ensures
        same == (a@ == b@),
{
    let x = String::from_str(a);
    let y = String::from_str(b);
    x == y
}

/// Whether `s` begins with `prefix`.
pub fn starts_with(s: &str, prefix: &str) -> (yes: bool)
    ensures
        yes == prefix@.is_prefix_of(s@),
{
    let n: usize = s.unicode_len();
    let m: usize = prefix.unicode_len();
    if m > n {
        return false;
    }
    let head = s.substring_char(0, m);
    let yes = same_text(head, prefix);
    proof {
        if yes {
            assert(prefix@ =~= s@.subrange(0, m as int));
        }
    }
    yes
}

/// The text behind the last `'.'` of `s`.
pub fn extension(s: &str) -> (ext: &str)
    ensures
        ext@ == extension_of(s@),
{
    let n: usize = s.unicode_len();
    let ascii = s.is_ascii();
    let mut i: usize = n;
    let mut found = false;
    while i > 0 && !found
        invariant
            i <= n,
            n == s@.len(),
            ascii ==> s.is_ascii(),
            forall|j: int| i <= j < n ==> s@[j] != '.',
            found ==> i > 0 && s@[i - 1] == '.',
        decreases i - (if found { 1int } else { 0int }),
    {
        if char_at(s, ascii, i - 1) == '.' {
            found = true;
        } else {
            i -= 1;
        }
    }
    proof {
        lemma_extension_start(s@, i as int);
    }
    s.substring_char(i, n)
}

/// Whether `c` is an ASCII decimal digit.
pub open spec fn is_digit(c: char) -> bool {
    '0' <= c <= '9'
}

/// The number that the digit `c` stands for.
pub open spec fn digit_value(c: char) -> int {
    c as int - '0' as int
}

/// Whether `s` holds decimal digits only.
pub open spec fn all_digits(s: Seq<char>) -> bool {
    forall|i: int| 0 <= i < s.len() ==> is_digit(#[trigger] s[i])
}

/// The number that a run of decimal digits denotes, leading zeros allowed.
pub open spec fn digits_value(s: Seq<char>) -> int
    decreases s.len(),
{
    if s.len() == 0 {
        0
    } else {
        digits_value(s.drop_last()) * 10 + digit_value(s.last())
    }
}

/// The integer that a text denotes, however large: an optional sign, then
/// one digit or more.
pub open spec fn signed_numeral(s: Seq<char>) -> Option<int> {
    if s.len() == 0 {
        None
    } else {
        let signed = s[0] == '-' || s[0] == '+';
        let digits = if signed { s.subrange(1, s.len() as int) } else { s };
        if digits.len() == 0 || !all_digits(digits) {
            None
        } else if s[0] == '-' {
            Some(-digits_value(digits))
        } else {
            Some(digits_value(digits))
        }
    }
}

/// A run of digits denotes no negative number.
pub proof fn lemma_digits_value_nonnegative(s: Seq<char>)
    requires
        all_digits(s),
    ensures
        digits_value(s) >= 0,
    decreases s.len(),
{
    if s.len() > 0 {
        assert(is_digit(s.last()));
        assert forall|i: int| 0 <= i < s.drop_last().len() implies is_digit(
            #[trigger] s.drop_last()[i],
        ) by {
            assert(s.drop_last()[i] == s[i]);
        }
        lemma_digits_value_nonnegative(s.drop_last());
    }
}

/// The number that a run of digits denotes, where there is a digit, nothing
/// but digits, and the number is at most `limit`.
pub open spec fn bounded_digits(digits: Seq<char>, limit: int) -> Option<int> {
    if digits.len() > 0 && all_digits(digits) && digits_value(digits) <= limit {
        Some(digits_value(digits))
    } else {
        None
    }
}

/// What a text denotes as an unsigned 32-bit decimal integer: an optional
/// `+`, then one digit or more, the value within the type's range.
pub open spec fn parse_u32_spec(s: Seq<char>) -> Option<int> {
    if s.len() == 0 {
        None
    } else if s[0] == '+' {
        bounded_digits(s.subrange(1, s.len() as int), 0xffff_ffff)
    } else {
        bounded_digits(s, 0xffff_ffff)
    }
}

/// What a run of digits amounts to when read against a limit.
#[derive(Clone, Copy, Debug, PartialEq, Eq, Structural)]
pub enum Digits {
    /// No digit, or something that is no digit.
    Invalid,
    /// Digits only, denoting more than the limit.
    TooLarge,
    /// Digits only, denoting this number.
    Value(u64),
}

/// Reads the characters of `s` from `start` on as a run of digits that
/// denotes a number up to `limit`.
pub fn read_digits(s: &str, start: usize, limit: u64) -> (read: Digits)
    requires
        start <= s@.len(),
        limit <= 0xffff_ffff,
    ensures
        ({
            let digits = s@.subrange(start as int, s@.len() as int);
            match read {
                Digits::Invalid => digits.len() == 0 || !all_digits(digits),
                Digits::TooLarge => digits.len() > 0 && all_digits(digits) && digits_value(digits)
                    > limit,
                Digits::Value(v) => digits.len() > 0 && all_digits(digits) && digits_value(digits)
                    == v && v <= limit,
            }
        }),
{
    let n: usize = s.unicode_len();
    if start == n {
        return Digits::Invalid;
    }
    let ascii = s.is_ascii();
    let ghost digits = s@.subrange(start as int, n as int);
    let mut acc: u64 = 0;
    let mut too_large = false;
    let mut i: usize = start;
    while i < n
        invariant
            start <= i <= n,
            n == s@.len(),
            ascii ==> s.is_ascii(),
            limit <= 0xffff_ffff,
            digits == s@.subrange(start as int, n as int),
            all_digits(digits.subrange(0, i - start)),
            !too_large ==> acc == digits_value(digits.subrange(0, i - start)) && acc <= limit,
            too_large ==> digits_value(digits.subrange(0, i - start)) > limit,
        decreases n - i,
    {
        let c = char_at(s, ascii, i);
        if !('0' <= c && c <= '9') {
            proof {
                assert(digits[i - start] == c);
                assert(!is_digit(digits[i - start]));
            }
            return Digits::Invalid;
        }
        let d: u64 = (c as u64) - ('0' as u64);
        proof {
            let k = i - start;
            let next = digits.subrange(0, k + 1);
            assert(digits[k] == c);
            assert forall|j: int| 0 <= j < next.len() implies is_digit(#[trigger] next[j]) by {
                if j < k {
                    assert(next[j] == digits.subrange(0, k)[j]);
                }
            }
            assert(next.drop_last() =~= digits.subrange(0, k));
            assert(digits_value(next) == digits_value(digits.subrange(0, k)) * 10 + d);
        }
        if !too_large {
            acc = acc * 10 + d;
            if acc > limit {
                too_large = true;
            }
        }
        i += 1;
    }
    proof {
        assert(digits.subrange(0, n - start) =~= digits);
    }
    if too_large {
        Digits::TooLarge
    } else {
        Digits::Value(acc)
    }
}

/// Reads `s` as an unsigned 32-bit decimal integer.
pub fn parse_u32(s: &str) -> (value: Option<u32>)
    ensures
        match value {
            Some(v) => parse_u32_spec(s@) == Some(v as int),
            None => parse_u32_spec(s@) is None,
        },
{
    let n: usize = s.unicode_len();
    if n == 0 {
        return None;
    }
    let start: usize = if s.get_char(0) == '+' { 1 } else { 0 };
    proof {
        if start == 0 {
            assert(s@.subrange(0, n as int) =~= s@);
        }
    }
    match read_digits(s, start, 0xffff_ffff) {
        Digits::Value(v) => Some(v as u32),
        _ => None,
    }
}

/// The pieces of `s` between the occurrences of `sep`: one more piece than
/// there are separators, empty pieces included.
pub open spec fn split_spec(s: Seq<char>, sep: char) -> Seq<Seq<char>>
    decreases s.len(),
{
    if s.len() == 0 {
        seq![Seq::empty()]
    } else {
        let before = split_spec(s.drop_last(), sep);
        if s.last() == sep {
            before.push(Seq::empty())
        } else {
            before.drop_last().push(before.last().push(s.last()))
        }
    }
}

/// The texts of a list as plain values.
pub open spec fn texts_of(list: Seq<String>) -> Seq<Seq<char>> {
    Seq::new(list.len(), |i: int| list[i]@)
}

/// Cuts `s` at every occurrence of `sep`.
pub fn split(s: &str, sep: char) -> (pieces: Vec<String>)
    ensures
        texts_of(pieces@) == split_spec(s@, sep),
{
    let n: usize = s.unicode_len();
    let ascii = s.is_ascii();
    let mut pieces: Vec<String> = Vec::new();
    let mut start: usize = 0;
    let mut i: usize = 0;
    proof {
        assert(s@.subrange(0, 0) =~= Seq::<char>::empty());
    }
    while i < n
        invariant
            start <= i <= n,
            n == s@.len(),
            ascii ==> s.is_ascii(),
            split_spec(s@.subrange(0, i as int), sep) == texts_of(pieces@).push(
                s@.subrange(start as int, i as int),
            ),
        decreases n - i,
    {
        let c = char_at(s, ascii, i);
        let ghost before = s@.subrange(0, i as int);
        let ghost next = s@.subrange(0, i + 1);
        let ghost listed = texts_of(pieces@);
        proof {
            assert(next.drop_last() =~= before);
            assert(next.last() == c);
        }
        if c == sep {
            pieces.push(String::from_str(s.substring_char(start, i)));
            proof {
                assert(texts_of(pieces@) =~= listed.push(s@.subrange(start as int, i as int)));
                assert(s@.subrange(i + 1, i + 1) =~= Seq::<char>::empty());
            }
            start = i + 1;
        } else {
            proof {
                let piece = s@.subrange(start as int, i as int);
                assert(listed.push(piece).drop_last() =~= listed);
                assert(piece.push(c) =~= s@.subrange(start as int, i + 1));
            }
        }
        i += 1;
    }
    let ghost listed = texts_of(pieces@);
    pieces.push(String::from_str(s.substring_char(start, n)));
    proof {
        assert(s@.subrange(0, n as int) =~= s@);
        assert(texts_of(pieces@) =~= listed.push(s@.subrange(start as int, n as int)));
    }
    pieces
}

/// The character of a single decimal digit.
pub open spec fn digit_char(d: int) -> char {
    if d == 0 {
        '0'
    } else if d == 1 {
        '1'
    } else if d == 2 {
        '2'
    } else if d == 3 {
        '3'
    } else if d == 4 {
        '4'
    } else if d == 5 {
        '5'
    } else if d == 6 {
        '6'
    } else if d == 7 {
        '7'
    } else if d == 8 {
        '8'
    } else {
        '9'
    }
}

/// The decimal numeral of `n`, without sign or leading zeros.
pub open spec fn decimal_digits(n: nat) -> Seq<char>
    decreases n,
{
    if n < 10 {
        seq![digit_char(n as int)]
    } else {
        decimal_digits(n / 10).push(digit_char((n % 10) as int))
    }
}

fn digit_text(d: u32) -> (t: &'static str)
    requires
        d < 10,
    ensures
        t@ == seq![digit_char(d as int)],
{
    proof {
        reveal_strlit("0");
        reveal_strlit("1");
        reveal_strlit("2");
        reveal_strlit("3");
        reveal_strlit("4");
        reveal_strlit("5");
        reveal_strlit("6");
        reveal_strlit("7");
        reveal_strlit("8");
        reveal_strlit("9");
    }
    let t = if d == 0 {
        "0"
    } else if d == 1 {
        "1"
    } else if d == 2 {
        "2"
    } else if d == 3 {
        "3"
    } else if d == 4 {
        "4"
    } else if d == 5 {
        "5"
    } else if d == 6 {
        "6"
    } else if d == 7 {
        "7"
    } else if d == 8 {
        "8"
    } else {
        "9"
    };
    assert(t@ =~= seq![digit_char(d as int)]);
    t
}

/// Writes `n` as a decimal numeral.
pub fn decimal(n: u32) -> (s: String)
    ensures
        s@ == decimal_digits(n as nat),
    decreases n,
{
    let mut s = if n < 10 {
        String::new()
    } else {
        decimal(n / 10)
    };
    s.append(digit_text(n % 10));
    proof {
        assert(s@ =~= decimal_digits(n as nat));
    }
    s
}

/// A numeral holds digits only, at least one, and denotes its number.
pub proof fn lemma_decimal_digits(n: nat)
    ensures
        decimal_digits(n).len() > 0,
        all_digits(decimal_digits(n)),
        digits_value(decimal_digits(n)) == n,
    decreases n,
{
    if n < 10 {
        let s = decimal_digits(n);
        assert(s.drop_last() =~= Seq::<char>::empty());
        assert(digits_value(s.drop_last()) == 0);
    } else {
        lemma_decimal_digits(n / 10);
        let t = decimal_digits(n / 10);
        let s = decimal_digits(n);
        assert(s.drop_last() =~= t);
        assert(s.last() == digit_char((n % 10) as int));
        assert forall|i: int| 0 <= i < s.len() implies is_digit(#[trigger] s[i]) by {
            if i < t.len() {
                assert(s[i] == t[i]);
            }
        }
    }
}

/// Reading the numeral of a number gives the number back.
pub proof fn lemma_numeral_of_decimal(n: nat)
    ensures
        signed_numeral(decimal_digits(n)) == Some(n as int),
{
    lemma_decimal_digits(n);
    let s = decimal_digits(n);
    assert(is_digit(s[0]));
}

} // verus!
