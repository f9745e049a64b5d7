//! Comparing and parsing header text.
//!
//! Header names and values are strings, seen in contracts as sequences of
//! characters. Names are compared without regard to ASCII letter case;
//! counts are plain decimal numbers.

use vstd::prelude::*;
use vstd::string::StringSliceAdditionalSpecFns;

verus! {

/// Code of a character, with the ASCII upper-case letters taken to their
/// lower-case codes.
pub open spec fn folded(c: char) -> int {
    if 'A' <= c <= 'Z' {
        c as int + 32
    } else {
        c as int
    }
}

/// Two characters count as the same: equal, or, where `fold` is set, equal
/// up to ASCII letter case.
pub open spec fn same_char(x: char, y: char, fold: bool) -> bool {
    if fold {
        folded(x) == folded(y)
    } else {
        x == y
    }
}

/// Two texts have the same length and the same character at each place.
pub open spec fn same_text(a: Seq<char>, b: Seq<char>, fold: bool) -> bool {
    &&& a.len() == b.len()
    &&& forall|i: int| 0 <= i < a.len() ==> same_char(#[trigger] a[i], b[i], fold)
}

/// Two header names are the same name: equal up to ASCII letter case.
pub open spec fn same_name(a: Seq<char>, b: Seq<char>) -> bool {
    same_text(a, b, true)
}

/// Without folding, texts that agree at each place are equal.
pub proof fn lemma_same_text_exact(a: Seq<char>, b: Seq<char>)
    ensures
        same_text(a, b, false) <==> a == b,
{
    if same_text(a, b, false) {
        assert(a =~= b);
    }
}

/// Being the same name is reflexive, symmetric and transitive.
pub proof fn lemma_same_name_equivalence(a: Seq<char>, b: Seq<char>, c: Seq<char>)
    ensures
        same_name(a, a),
        same_name(a, b) ==> same_name(b, a),
        same_name(a, b) && same_name(b, c) ==> same_name(a, c),
{
    if same_name(a, b) {
        assert forall|i: int| 0 <= i < b.len() implies same_char(#[trigger] b[i], a[i], true) by {
            assert(same_char(a[i], b[i], true));
        }
        if same_name(b, c) {
            assert forall|i: int| 0 <= i < a.len() implies same_char(#[trigger] a[i], c[i], true) by {
                assert(same_char(a[i], b[i], true));
                assert(same_char(b[i], c[i], true));
            }
        }
    }
}

/// Code of an ASCII byte with upper-case letters taken to lower case.
fn fold_byte(b: u8, fold: bool) -> (r: u8)
    requires
        b < 128,
    ensures
        fold ==> r == folded(b as char),
        !fold ==> r == b,
        r < 128,
{
    if fold && 65 <= b && b <= 90 {
        b + 32
    } else {
        b
    }
}

/// Code of a character with ASCII upper-case letters taken to lower case.
fn fold_char(c: char, fold: bool) -> (r: u32)
    ensures
        fold ==> r == folded(c),
        !fold ==> r == c as int,
{
    let code: u32 = c as u32;
    if fold && 65 <= code && code <= 90 {
        code + 32
    } else {
        code
    }
}

/// A text with a character beyond ASCII differs from every ASCII text, with
/// or without folding.
proof fn lemma_ascii_differs(a: Seq<char>, b: Seq<char>, fold: bool)
    requires
        vstd::utf8::is_ascii_chars(a),
        !vstd::utf8::is_ascii_chars(b),
    ensures
        !same_text(a, b, fold),
        !same_text(b, a, fold),
{
    let k = choose|k: int| 0 <= k < b.len() && !('\0' <= #[trigger] b[k] <= '\u{7f}');
    if a.len() == b.len() {
        assert('\0' <= a[k] <= '\u{7f}');
        assert(!same_char(a[k], b[k], fold));
        assert(!same_char(b[k], a[k], fold));
    }
}

/// Whether two texts are the same, character by character; with `fold`
/// set, ASCII letters are compared without regard to case.
pub fn text_matches(a: &str, b: &str, fold: bool) -> (r: bool)
    ensures
        r == same_text(a@, b@, fold),
{
    let a_ascii = a.is_ascii();
    let b_ascii = b.is_ascii();
    if a_ascii && b_ascii {
        proof {
            vstd::string::is_ascii_spec_bytes(a);
            vstd::string::is_ascii_spec_bytes(b);
        }
        let a_bytes = a.as_bytes();
        let b_bytes = b.as_bytes();
        let n: usize = a_bytes.len();
        if b_bytes.len() != n {
            return false;
        }
        let mut i: usize = 0;
        while i < n
            invariant
                a.is_ascii(),
                b.is_ascii(),
                a_bytes@ == a.spec_bytes(),
                b_bytes@ == b.spec_bytes(),
                n == a@.len(),
                n == b@.len(),
                0 <= i <= n,
                forall|j: int| 0 <= j < i ==> same_char(#[trigger] a@[j], b@[j], fold),
            decreases n - i,
        {
            proof {
                vstd::string::is_ascii_spec_bytes(a);
                vstd::string::is_ascii_spec_bytes(b);
            }
            let x = a_bytes[i];
            let y = b_bytes[i];
            assert('\0' <= a@[i as int] <= '\u{7f}');
            assert('\0' <= b@[i as int] <= '\u{7f}');
            if fold_byte(x, fold) != fold_byte(y, fold) {
                assert(!same_char(a@[i as int], b@[i as int], fold));
                return false;
            }
            i = i + 1;
        }
        true
    } else if a_ascii {
        proof {
            lemma_ascii_differs(a@, b@, fold);
        }
        false
    } else if b_ascii {
        proof {
            lemma_ascii_differs(b@, a@, fold);
        }
        false
    } else {
        let n: usize = a.unicode_len();
        if b.unicode_len() != n {
            return false;
        }
        let mut i: usize = 0;
        while i < n
            invariant
                n == a@.len(),
                n == b@.len(),
                0 <= i <= n,
                forall|j: int| 0 <= j < i ==> same_char(#[trigger] a@[j], b@[j], fold),
            decreases n - i,
        {
            let x = a.get_char(i);
            let y = b.get_char(i);
            if fold_char(x, fold) != fold_char(y, fold) {
                assert(!same_char(a@[i as int], b@[i as int], fold));
                return false;
            }
            i = i + 1;
        }
        true
    }
}

/// Whether two texts are equal.
pub fn text_eq(a: &str, b: &str) -> (r: bool)
    ensures
        r == (a@ == b@),
{
    proof {
        lemma_same_text_exact(a@, b@);
    }
    text_matches(a, b, false)
}

/// Whether two header names are the same name.
pub fn name_matches(a: &str, b: &str) -> (r: bool)
    ensures
        r == same_name(a@, b@),
{
    text_matches(a, b, true)
}

/// The character is one of the ten decimal digits.
pub open spec fn is_digit(c: char) -> bool {
    '0' <= c <= '9'
}

/// Every character of the text is a decimal digit.
pub open spec fn all_digits(s: Seq<char>) -> bool {
    forall|i: int| 0 <= i < s.len() ==> is_digit(#[trigger] s[i])
}

/// The number that a text of decimal digits writes, most significant digit
/// first.
pub open spec fn decimal_value(s: Seq<char>) -> int
    decreases s.len(),
{
    if s.len() == 0 {
        0
    } else {
        10 * decimal_value(s.drop_last()) + (s.last() as int - '0' as int)
    }
}

/// The text is a count: one or more decimal digits, with no sign and no
/// blanks, that write a number within the range of `usize`.
pub open spec fn is_count(s: Seq<char>) -> bool {
    &&& 0 < s.len()
    &&& all_digits(s)
    &&& decimal_value(s) <= usize::MAX
}

/// The number written by a prefix of a digit text is at most the number
/// written by the whole.
pub proof fn lemma_decimal_value_prefix(s: Seq<char>, k: int)
    requires
        all_digits(s),
        0 <= k <= s.len(),
    ensures
        0 <= decimal_value(s.take(k)) <= decimal_value(s),
    decreases s.len() - k,
{
    if k == s.len() {
        assert(s.take(k) =~= s);
        lemma_decimal_value_nonnegative(s);
    } else {
        lemma_decimal_value_prefix(s, k + 1);
        let longer = s.take(k + 1);
        assert(longer.drop_last() =~= s.take(k));
        assert(is_digit(s[k]));
        assert(longer.last() == s[k]);
        assert(all_digits(s.take(k))) by {
            assert forall|i: int| 0 <= i < s.take(k).len() implies is_digit(
                #[trigger] s.take(k)[i],
            ) by {
                assert(is_digit(s[i]));
            }
        }
        lemma_decimal_value_nonnegative(s.take(k));
    }
}

/// A digit text writes no negative number.
pub proof fn lemma_decimal_value_nonnegative(s: Seq<char>)
    requires
        all_digits(s),
    ensures
        0 <= decimal_value(s),
    decreases s.len(),
{
    if s.len() > 0 {
        assert(is_digit(s[s.len() - 1]));
        assert(all_digits(s.drop_last())) by {
            assert forall|i: int| 0 <= i < s.drop_last().len() implies is_digit(
                #[trigger] s.drop_last()[i],
            ) by {
                assert(is_digit(s[i]));
            }
        }
        lemma_decimal_value_nonnegative(s.drop_last());
    }
}

/// Reads a count: `Some` of the number where the text is a count, `None`
/// for every other text.
pub fn parse_count(s: &str) -> (r: Option<usize>)
    ensures
        r is Some <==> is_count(s@),
        r is Some ==> r->Some_0 == decimal_value(s@),
{
    if !s.is_ascii() {
        proof {
            let k = choose|k: int| 0 <= k < s@.len() && !('\0' <= #[trigger] s@[k] <= '\u{7f}');
            assert(!is_digit(s@[k]));
        }
        return None;
    }
    proof {
        vstd::string::is_ascii_spec_bytes(s);
    }
    let bytes = s.as_bytes();
    let n: usize = bytes.len();
    if n == 0 {
        return None;
    }
    let mut value: usize = 0;
    let mut i: usize = 0;
    while i < n
        invariant
            s.is_ascii(),
            bytes@ == s.spec_bytes(),
            n == s@.len(),
            0 <= i <= n,
            all_digits(s@.take(i as int)),
            value == decimal_value(s@.take(i as int)),
        decreases n - i,
    {
        proof {
            vstd::string::is_ascii_spec_bytes(s);
        }
        let b: u8 = bytes[i];
        assert('\0' <= s@[i as int] <= '\u{7f}');
        if b < 48 || b > 57 {
            assert(!is_digit(s@[i as int]));
            return None;
        }
        let digit: usize = (b - 48) as usize;
        let ghost longer = s@.take(i as int + 1);
        proof {
            assert(longer.drop_last() =~= s@.take(i as int));
            assert(longer.last() == s@[i as int]);
            assert(all_digits(longer)) by {
                assert forall|j: int| 0 <= j < longer.len() implies is_digit(#[trigger] longer[j]) by {
                    if j < i {
                        assert(is_digit(s@.take(i as int)[j]));
                    }
                }
            }
            assert(decimal_value(longer) == 10 * value + digit);
            if all_digits(s@) {
                lemma_decimal_value_prefix(s@, i as int + 1);
            }
        }
        let scaled = match value.checked_mul(10) {
            Some(v) => v,
            None => {
                return None;
            },
        };
        value = match scaled.checked_add(digit) {
            Some(v) => v,
            None => {
                return None;
            },
        };
        i = i + 1;
    }
    assert(s@.take(n as int) =~= s@);
    Some(value)
}

} // verus!
