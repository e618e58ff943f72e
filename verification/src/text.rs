//! Character-level text helpers: ASCII case mapping, decimal rendering of
//! unsigned integers, and stripping of base32 `=` padding.

use vstd::prelude::*;

verus! {

/// The ASCII lower-case image of one character: `'A'..='Z'` shift to
/// `'a'..='z'`, every other character is unchanged.
pub open spec fn lower_char(c: char) -> char {
    if 65 <= c as int && c as int <= 90 {
        ((c as int) + 32) as char
    } else {
        c
    }
}

/// The ASCII upper-case image of one character: `'a'..='z'` shift to
/// `'A'..='Z'`, every other character is unchanged.
pub open spec fn upper_char(c: char) -> char {
    if 97 <= c as int && c as int <= 122 {
        ((c as int) - 32) as char
    } else {
        c
    }
}

/// A string mapped character by character to ASCII lower case.
pub open spec fn spec_lower(s: Seq<char>) -> Seq<char> {
    s.map_values(|c: char| lower_char(c))
}

/// A string mapped character by character to ASCII upper case.
pub open spec fn spec_upper(s: Seq<char>) -> Seq<char> {
    s.map_values(|c: char| upper_char(c))
}

/// Lower-cases one character per ASCII, proved against `lower_char`.
fn char_to_lower(c: char) -> (r: char)
    ensures
        r == lower_char(c),
{
    match c {
        'A' => 'a',
        'B' => 'b',
        'C' => 'c',
        'D' => 'd',
        'E' => 'e',
        'F' => 'f',
        'G' => 'g',
        'H' => 'h',
        'I' => 'i',
        'J' => 'j',
        'K' => 'k',
        'L' => 'l',
        'M' => 'm',
        'N' => 'n',
        'O' => 'o',
        'P' => 'p',
        'Q' => 'q',
        'R' => 'r',
        'S' => 's',
        'T' => 't',
        'U' => 'u',
        'V' => 'v',
        'W' => 'w',
        'X' => 'x',
        'Y' => 'y',
        'Z' => 'z',
        _ => c,
    }
}

/// Upper-cases one character per ASCII, proved against `upper_char`.
fn char_to_upper(c: char) -> (r: char)
    ensures
        r == upper_char(c),
{
    match c {
        'a' => 'A',
        'b' => 'B',
        'c' => 'C',
        'd' => 'D',
        'e' => 'E',
        'f' => 'F',
        'g' => 'G',
        'h' => 'H',
        'i' => 'I',
        'j' => 'J',
        'k' => 'K',
        'l' => 'L',
        'm' => 'M',
        'n' => 'N',
        'o' => 'O',
        'p' => 'P',
        'q' => 'Q',
        'r' => 'R',
        's' => 'S',
        't' => 'T',
        'u' => 'U',
        'v' => 'V',
        'w' => 'W',
        'x' => 'X',
        'y' => 'Y',
        'z' => 'Z',
        _ => c,
    }
}

/// Relies on String::push: appends the given character to the end of the
/// string.
#[verifier::external_body]
fn push_char(s: &mut String, c: char)
    ensures
        final(s)@ == old(s)@ + seq![c],
{
    s.push(c)
}

/// Lower-cases a string, character by character, per ASCII.
pub fn ascii_lowercase(s: &str) -> (r: String)
    ensures
        r@ == spec_lower(s@),
{
    let n: usize = s.unicode_len();
    let mut r = String::new();
    let mut i: usize = 0;
    while i < n
        invariant
            n == s@.len(),
            i <= n,
            r@.len() == i,
            forall|j: int| 0 <= j < i ==> r@[j] == lower_char(s@[j]),
        decreases n - i,
    {
        let c = s.get_char(i);
        push_char(&mut r, char_to_lower(c));
        i = i + 1;
    }
    assert(r@ =~= spec_lower(s@));
    r
}

/// Upper-cases a string, character by character, per ASCII.
pub fn ascii_uppercase(s: &str) -> (r: String)
    ensures
        r@ == spec_upper(s@),
{
    let n: usize = s.unicode_len();
    let mut r = String::new();
    let mut i: usize = 0;
    while i < n
        invariant
            n == s@.len(),
            i <= n,
            r@.len() == i,
            forall|j: int| 0 <= j < i ==> r@[j] == upper_char(s@[j]),
        decreases n - i,
    {
        let c = s.get_char(i);
        push_char(&mut r, char_to_upper(c));
        i = i + 1;
    }
    assert(r@ =~= spec_upper(s@));
    r
}

/// Upper-casing leaves no lower-case ASCII letter behind, whatever case
/// the input letters hold.
pub proof fn lemma_spec_upper_no_lowercase(s: Seq<char>)
    ensures
        forall|i: int|
            0 <= i < spec_upper(s).len() ==> !(97 <= #[trigger] spec_upper(s)[i] as int <= 122),
{
    assert forall|i: int| 0 <= i < spec_upper(s).len() implies !(97
        <= #[trigger] spec_upper(s)[i] as int <= 122) by {
        let c = s[i];
        assert(spec_upper(s)[i] == upper_char(c));
        if 97 <= c as int && c as int <= 122 {
            assert(upper_char(c) as int == c as int - 32);
        }
    }
}

/// Case mapping of one character is consistent: two characters with the
/// same lower-case image have the same upper-case image.
pub proof fn lemma_char_case_consistent(a: char, b: char)
    requires
        lower_char(a) == lower_char(b),
    ensures
        upper_char(a) == upper_char(b),
{
    let la = lower_char(a);
    let lb = lower_char(b);
    if 65 <= a as int && a as int <= 90 {
        assert(la as int == a as int + 32);
    }
    if 65 <= b as int && b as int <= 90 {
        assert(lb as int == b as int + 32);
    }
    if 97 <= a as int && a as int <= 122 {
        assert(upper_char(a) as int == a as int - 32);
    }
    if 97 <= b as int && b as int <= 122 {
        assert(upper_char(b) as int == b as int - 32);
    }
}

/// Upper-case emission does not depend on the stored case: two strings
/// that agree up to ASCII case upper-case to the same string.
pub proof fn lemma_upper_case_insensitive(s: Seq<char>, t: Seq<char>)
    requires
        spec_lower(s) == spec_lower(t),
    ensures
        spec_upper(s) == spec_upper(t),
{
    assert(s.len() == t.len()) by {
        assert(spec_lower(s).len() == s.len());
        assert(spec_lower(t).len() == t.len());
    }
    assert forall|i: int| 0 <= i < s.len() implies spec_upper(s)[i] == spec_upper(t)[i] by {
        assert(spec_lower(s)[i] == lower_char(s[i]));
        assert(spec_lower(t)[i] == lower_char(t[i]));
        assert(spec_lower(s)[i] == spec_lower(t)[i]);
        lemma_char_case_consistent(s[i], t[i]);
        assert(spec_upper(s)[i] == upper_char(s[i]));
        assert(spec_upper(t)[i] == upper_char(t[i]));
    }
    assert(spec_upper(s) =~= spec_upper(t));
}

/// A string with every `=` character removed; the order of the remaining
/// characters is kept.
pub open spec fn strip_pad(s: Seq<char>) -> Seq<char>
    decreases s.len(),
{
    if s.len() == 0 {
        Seq::empty()
    } else {
        strip_pad(s.drop_last()) + (if s.last() == '=' {
            Seq::<char>::empty()
        } else {
            seq![s.last()]
        })
    }
}

/// No `=` character survives the strip, whatever the input holds.
pub proof fn lemma_strip_pad_no_padding(s: Seq<char>)
    ensures
        forall|i: int| 0 <= i < strip_pad(s).len() ==> strip_pad(s)[i] != '=',
    decreases s.len(),
{
    if s.len() > 0 {
        lemma_strip_pad_no_padding(s.drop_last());
        let pre = strip_pad(s.drop_last());
        assert forall|i: int| 0 <= i < strip_pad(s).len() implies strip_pad(s)[i] != '=' by {
            if i < pre.len() {
                assert(strip_pad(s)[i] == pre[i]);
            } else {
                assert(s.last() != '=');
                assert(strip_pad(s)[i] == s.last());
            }
        }
    }
}

/// Copies a string, leaving every `=` character out.
pub fn strip_padding(s: &str) -> (r: String)
    ensures
        r@ == strip_pad(s@),
{
    let n: usize = s.unicode_len();
    let mut r = String::new();
    let mut i: usize = 0;
    while i < n
        invariant
            n == s@.len(),
            i <= n,
            r@ == strip_pad(s@.take(i as int)),
        decreases n - i,
    {
        let c = s.get_char(i);
        if c != '=' {
            push_char(&mut r, c);
        }
        proof {
            assert(s@.take(i + 1).drop_last() =~= s@.take(i as int));
            assert(s@.take(i + 1).last() == s@[i as int]);
        }
        i = i + 1;
    }
    proof {
        assert(s@.take(n as int) =~= s@);
    }
    r
}

/// The decimal digit character for `d`, which must lie in `0..=9`.
pub open spec fn digit_char(d: int) -> char {
    if d == 0 {
        '0'
    } else if d == 1 {
        '1'
    } else if d == 2 {
        '2'
    } else if d == 3 {
        '3'
    } else if d == 4 {
        '4'
    } else if d == 5 {
        '5'
    } else if d == 6 {
        '6'
    } else if d == 7 {
        '7'
    } else if d == 8 {
        '8'
    } else {
        '9'
    }
}

/// The usual decimal rendering of `n`, without leading zeros (a single
/// `'0'` for zero itself).
pub open spec fn dec_digits(n: nat) -> Seq<char>
    decreases n,
{
    if n < 10 {
        seq![digit_char(n as int)]
    } else {
        dec_digits(n / 10) + seq![digit_char((n % 10) as int)]
    }
}

fn digit_to_char(d: u64) -> (r: char)
    requires
        d < 10,
    ensures
        r == digit_char(d as int),
{
    if d == 0 {
        '0'
    } else if d == 1 {
        '1'
    } else if d == 2 {
        '2'
    } else if d == 3 {
        '3'
    } else if d == 4 {
        '4'
    } else if d == 5 {
        '5'
    } else if d == 6 {
        '6'
    } else if d == 7 {
        '7'
    } else if d == 8 {
        '8'
    } else {
        '9'
    }
}

/// Appends the decimal rendering of `n` to `s`.
pub fn push_decimal(s: &mut String, n: u64)
    ensures
        final(s)@ == old(s)@ + dec_digits(n as nat),
    decreases n,
{
    if n >= 10 {
        push_decimal(s, n / 10);
    }
    push_char(s, digit_to_char(n % 10));
    proof {
        if n >= 10 {
            assert(old(s)@ + dec_digits((n / 10) as nat) + seq![digit_char((n % 10) as int)]
                =~= old(s)@ + dec_digits(n as nat));
        } else {
            assert(old(s)@ + seq![digit_char((n % 10) as int)] =~= old(s)@ + dec_digits(n as nat));
        }
    }
}

} // verus!
