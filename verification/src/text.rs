//! Text helpers shared by the wire protocol: ASCII case folding, comparison
//! of texts and decimal numerals.

use vstd::prelude::*;
use vstd::string::*;
use vstd::utf8::*;

verus! {

/// The upper-case form of an ASCII lower-case letter; any other character is
/// left as it is.
pub open spec fn upper_char(c: char) -> char {
    if 'a' <= c && c <= 'z' {
        ((c as u8) - 32) as char
    } else {
        c
    }
}

/// A text with every ASCII lower-case letter replaced by its upper-case form.
pub open spec fn ascii_upper(s: Seq<char>) -> Seq<char> {
    Seq::new(s.len(), |i: int| upper_char(s[i]))
}

/// The lower-case form of an ASCII upper-case letter; any other character is
/// left as it is.
pub open spec fn lower_char(c: char) -> char {
    if 'A' <= c && c <= 'Z' {
        ((c as u8) + 32) as char
    } else {
        c
    }
}

/// A text with every ASCII upper-case letter replaced by its lower-case form.
pub open spec fn ascii_lower(s: Seq<char>) -> Seq<char> {
    Seq::new(s.len(), |i: int| lower_char(s[i]))
}

/// A wire token: ASCII text without lower-case letters.
pub open spec fn is_token(s: Seq<char>) -> bool {
    is_ascii_chars(s) && ascii_upper(s) == s
}

/// Folding to upper case undoes folding a token to lower case.
pub proof fn lemma_upper_of_lower(token: Seq<char>)
    requires
        is_token(token),
    ensures
        ascii_upper(ascii_lower(token)) == token,
{
    assert forall|i: int| 0 <= i < token.len() implies upper_char(lower_char(token[i]))
        == token[i] by {
        assert(ascii_upper(token)[i] == token[i]);
    }
    assert(ascii_upper(ascii_lower(token)) =~= token);
}

/// Whether `s` is `token` up to the case of its ASCII letters.
pub fn matches_token(s: &str, token: &str) -> (r: bool)
    requires
        is_token(token@),
    ensures
        r == (ascii_upper(s@) == token@),
{
    if !s.is_ascii() {
        proof {
            let i = choose|i: int| 0 <= i < s@.len() && !('\0' <= #[trigger] s@[i] <= '\u{7f}');
            assert(ascii_upper(s@)[i] == s@[i]);
            if ascii_upper(s@) == token@ {
                assert('\0' <= token@[i] <= '\u{7f}');
            }
        }
        return false;
    }
    proof {
        is_ascii_chars_encode_utf8(s@);
        is_ascii_chars_encode_utf8(token@);
    }
    let left = s.as_bytes();
    let right = token.as_bytes();
    let n: usize = left.len();
    if n != right.len() {
        return false;
    }
    let mut i: usize = 0;
    while i < n
        invariant
            i <= n,
            n == s@.len(),
            n == token@.len(),
            n == left@.len(),
            n == right@.len(),
            left@ == encode_utf8(s@),
            right@ == encode_utf8(token@),
            is_ascii_chars(s@),
            is_ascii_chars(token@),
            forall|j: int| 0 <= j < i ==> upper_char(s@[j]) == token@[j],
        decreases n - i,
    {
        let a: u8 = left[i];
        let b: u8 = right[i];
        let folded: u8 = if 97 <= a && a <= 122 {
            a - 32
        } else {
            a
        };
        proof {
            is_ascii_chars_encode_utf8(s@);
            is_ascii_chars_encode_utf8(token@);
            assert('\0' <= s@[i as int] <= '\u{7f}');
            assert('\0' <= token@[i as int] <= '\u{7f}');
            assert(s@[i as int] as u8 == a);
            assert(token@[i as int] as u8 == b);
            assert(upper_char(s@[i as int]) as u8 == folded);
        }
        if folded != b {
            return false;
        }
        i = i + 1;
    }
    assert(ascii_upper(s@) =~= token@);
    true
}

/// Whether two texts are the same.
pub fn same_text(a: &str, b: &str) -> (r: bool)
    ensures
        r == (a@ == b@),
{
    let left = a.as_bytes();
    let right = b.as_bytes();
    proof {
        encode_utf8_decode_utf8(a@);
        encode_utf8_decode_utf8(b@);
    }
    let n: usize = left.len();
    if n != right.len() {
        return false;
    }
    let mut i: usize = 0;
    while i < n
        invariant
            i <= n,
            n == left@.len(),
            n == right@.len(),
            left@ == encode_utf8(a@),
            right@ == encode_utf8(b@),
            forall|j: int| 0 <= j < i ==> left@[j] == right@[j],
        decreases n - i,
    {
        if left[i] != right[i] {
            return false;
        }
        i = i + 1;
    }
    assert(left@ =~= right@);
    true
}

/// The character of a decimal digit.
pub open spec fn digit_char(d: nat) -> char
    recommends
        d < 10,
{
    ((48 + d) as u8) as char
}

/// The decimal numeral of a natural number, without sign and without leading
/// zeros.
pub open spec fn decimal(n: nat) -> Seq<char>
    decreases n,
{
    if n < 10 {
        seq![digit_char(n)]
    } else {
        decimal(n / 10).push(digit_char(n % 10))
    }
}

/// A decimal numeral is never empty and holds digits only.
pub proof fn lemma_decimal_digits(n: nat)
    ensures
        decimal(n).len() >= 1,
        forall|i: int| 0 <= i < decimal(n).len() ==> '0' <= #[trigger] decimal(n)[i] <= '9',
    decreases n,
{
    if n >= 10 {
        lemma_decimal_digits(n / 10);
    }
}

/// The one-character text of a decimal digit.
fn digit_str(d: u8) -> (s: &'static str)
    requires
        d < 10,
    ensures
        s@ == seq![digit_char(d as nat)],
{
    proof {
        reveal_strlit("0");
        reveal_strlit("1");
        reveal_strlit("2");
        reveal_strlit("3");
        reveal_strlit("4");
        reveal_strlit("5");
        reveal_strlit("6");
        reveal_strlit("7");
        reveal_strlit("8");
        reveal_strlit("9");
    }
    let s: &'static str = match d {
        0 => "0",
        1 => "1",
        2 => "2",
        3 => "3",
        4 => "4",
        5 => "5",
        6 => "6",
        7 => "7",
        8 => "8",
        _ => "9",
    };
    s
}

/// Appends the decimal numeral of `n` to `out`.
pub fn push_decimal(out: &mut String, n: u64)
    ensures
        final(out)@ == old(out)@ + decimal(n as nat),
    decreases n,
{
    if n >= 10 {
        push_decimal(out, n / 10);
    }
    let d: u8 = (n % 10) as u8;
    out.append(digit_str(d));
}

/// The decimal numeral of `n`.
pub fn decimal_string(n: u64) -> (s: String)
    ensures
        s@ == decimal(n as nat),
{
    let mut s = String::new();
    push_decimal(&mut s, n);
    s
}

} // verus!
