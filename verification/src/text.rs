//! Small operations on text, stated over its characters.

use vstd::prelude::*;
use vstd::string::*;
use vstd::utf8::*;

verus! {

/// An ASCII lowercase letter or an ASCII digit.
pub open spec fn is_lower_alphanumeric(c: char) -> bool {
    ('a' <= c && c <= 'z') || ('0' <= c && c <= '9')
}

/// What a Kubernetes DNS label is: 1 to 63 characters, each a lowercase letter,
/// a digit or a hyphen, with no hyphen at either end.
pub open spec fn dns_label(value: Seq<char>) -> bool {
    &&& 1 <= value.len() <= 63
    &&& forall|i: int| 0 <= i < value.len() ==> is_lower_alphanumeric(#[trigger] value[i]) || value[i] == '-'
    &&& value[0] != '-'
    &&& value[value.len() - 1] != '-'
}

/// Whether the text is a Kubernetes DNS label.
pub fn is_dns_label(value: &str) -> (valid: bool)
    ensures
        valid == dns_label(value@),
{
    if !value.is_ascii() {
        return false;
    }
    proof {
        is_ascii_chars_encode_utf8(value@);
    }
    let bytes = value.as_bytes();
    let len: usize = bytes.len();
    if len == 0 || len > 63 {
        return false;
    }
    let mut i: usize = 0;
    while i < len
        invariant
            i <= len,
            len == bytes@.len(),
            len == value@.len(),
            forall|j: int| 0 <= j < len ==> value@[j] as u8 == #[trigger] bytes@[j],
            is_ascii_chars(value@),
            forall|j: int|
                0 <= j < i ==> is_lower_alphanumeric(#[trigger] value@[j]) || value@[j] == '-',
        decreases len - i,
    {
        let byte: u8 = bytes[i];
        assert(value@[i as int] as u8 == byte);
        assert('\0' <= value@[i as int] <= '\u{7f}');
        if !((0x61 <= byte && byte <= 0x7a) || (0x30 <= byte && byte <= 0x39) || byte == 0x2d) {
            return false;
        }
        i += 1;
    }
    assert(value@[0] as u8 == bytes@[0]);
    assert('\0' <= value@[0] <= '\u{7f}');
    assert(value@[len - 1] as u8 == bytes@[len - 1]);
    assert('\0' <= value@[len - 1] <= '\u{7f}');
    bytes[0] != 0x2d && bytes[len - 1] != 0x2d
}

/// `String::from_utf8`: the text that the bytes encode, or nothing if they are
/// not valid UTF-8.
#[verifier::external_body]
pub(crate) fn text_from_utf8(bytes: Vec<u8>) -> (text: Option<String>)
    ensures
        text is Some == valid_utf8(bytes@),
        text matches Some(t) ==> t@ == decode_utf8(bytes@),
{
    String::from_utf8(bytes).ok()
}

/// `String::push`: puts one character at the end of the text.
pub assume_specification[ String::push ](text: &mut String, c: char)
    ensures
        final(text)@ == old(text)@.push(c),
;

/// The characters of a text.
pub fn characters(text: &str) -> (chars: Vec<char>)
    ensures
        chars@ == text@,
{
    let mut chars: Vec<char> = Vec::new();
    for c in iter: text.chars()
        invariant
            iter.seq() == text@,
            chars@ == iter.seq().take(iter.index() as int),
    {
        chars.push(c);
        assert(iter.seq().take(iter.index() + 1) =~= iter.seq().take(iter.index() as int).push(c));
    }
    assert(text@.take(text@.len() as int) =~= text@);
    chars
}

/// The text of a range of characters.
pub fn text_of(chars: &Vec<char>, from: usize, to: usize) -> (text: String)
    requires
        from <= to <= chars@.len(),
    ensures
        text@ == chars@.subrange(from as int, to as int),
{
    let mut text = String::new();
    let mut i: usize = from;
    while i < to
        invariant
            from <= i <= to <= chars@.len(),
            text@ == chars@.subrange(from as int, i as int),
        decreases to - i,
    {
        text.push(chars[i]);
        assert(chars@.subrange(from as int, i + 1) =~= chars@.subrange(from as int, i as int).push(
            chars@[i as int],
        ));
        i += 1;
    }
    text
}

/// Whether a character occurs among others.
pub fn contains_char(chars: &Vec<char>, c: char) -> (found: bool)
    ensures
        found == chars@.contains(c),
{
    let mut i: usize = 0;
    while i < chars.len()
        invariant
            i <= chars@.len(),
            forall|j: int| 0 <= j < i ==> chars@[j] != c,
        decreases chars@.len() - i,
    {
        if chars[i] == c {
            assert(chars@[i as int] == c);
            return true;
        }
        i += 1;
    }
    false
}

/// The place of the last occurrence of a character.
pub open spec fn is_last_index(chars: Seq<char>, c: char, at: int) -> bool {
    0 <= at < chars.len() && chars[at] == c && forall|j: int| at < j < chars.len() ==> chars[j] != c
}

/// Finds the last occurrence of a character.
pub fn last_index(chars: &Vec<char>, c: char) -> (at: Option<usize>)
    ensures
        at matches Some(i) ==> is_last_index(chars@, c, i as int),
        at is None ==> !chars@.contains(c),
{
    let mut i: usize = chars.len();
    while i > 0
        invariant
            i <= chars@.len(),
            forall|j: int| i <= j < chars@.len() ==> chars@[j] != c,
        decreases i,
    {
        i -= 1;
        if chars[i] == c {
            return Some(i);
        }
    }
    None
}

/// The lowercase form of an ASCII letter; any other character is its own.
pub open spec fn ascii_lower(c: char) -> char {
    if 'A' <= c && c <= 'Z' {
        ((c as u8) + 32) as u8 as char
    } else {
        c
    }
}

/// Each ASCII letter of a text in lowercase.
pub open spec fn ascii_lowercase(text: Seq<char>) -> Seq<char> {
    text.map_values(|c: char| ascii_lower(c))
}

/// The lowercase form of a range of characters.
pub fn lowercase_of(chars: &Vec<char>, from: usize, to: usize) -> (lower: Vec<char>)
    requires
        from <= to <= chars@.len(),
    ensures
        lower@ == ascii_lowercase(chars@.subrange(from as int, to as int)),
{
    let mut lower: Vec<char> = Vec::new();
    let mut i: usize = from;
    while i < to
        invariant
            from <= i <= to <= chars@.len(),
            lower@.len() == i - from,
            forall|j: int| 0 <= j < i - from ==> lower@[j] == ascii_lower(chars@[from + j]),
        decreases to - i,
    {
        let c: char = chars[i];
        if 'A' <= c && c <= 'Z' {
            let byte: u8 = c as u8;
            lower.push((byte + 32) as char);
        } else {
            lower.push(c);
        }
        i += 1;
    }
    assert(lower@ =~= ascii_lowercase(chars@.subrange(from as int, to as int)));
    lower
}

/// The character of a decimal digit.
pub open spec fn digit(d: nat) -> char {
    (d + 48) as u8 as char
}

/// A number in decimal, without leading zeros.
pub open spec fn decimal(n: nat) -> Seq<char>
    decreases n,
{
    if n < 10 {
        seq![digit(n)]
    } else {
        decimal(n / 10).push(digit(n % 10))
    }
}

/// Puts a number at the end of a text, in decimal.
pub fn push_decimal(text: &mut String, n: u64)
    ensures
        final(text)@ == old(text)@ + decimal(n as nat),
    decreases n,
{
    if n >= 10 {
        push_decimal(text, n / 10);
    }
    let d: u8 = (n % 10) as u8;
    text.push((d + 48) as char);
    assert(text@ =~= old(text)@ + decimal(n as nat));
}

/// The value of a sequence of decimal digits.
pub open spec fn digits_value(digits: Seq<char>) -> nat
    decreases digits.len(),
{
    if digits.len() == 0 {
        0
    } else {
        digits_value(digits.drop_last()) * 10 + (digits.last() as nat - 48) as nat
    }
}

/// Every character is a decimal digit.
pub open spec fn all_digits(chars: Seq<char>) -> bool {
    forall|i: int| 0 <= i < chars.len() ==> '0' <= #[trigger] chars[i] && chars[i] <= '9'
}

/// A number in decimal is made of digits that have its value.
pub proof fn lemma_decimal(n: nat)
    ensures
        decimal(n).len() > 0,
        all_digits(decimal(n)),
        digits_value(decimal(n)) == n,
    decreases n,
{
    if n < 10 {
        let d = decimal(n);
        assert(d.drop_last() =~= Seq::<char>::empty());
        assert(digits_value(d.drop_last()) == 0);
        assert(d.last() as nat == n + 48);
    } else {
        lemma_decimal(n / 10);
        let d = decimal(n);
        assert(d.drop_last() =~= decimal(n / 10));
        assert(d.last() as nat == n % 10 + 48);
    }
}

/// The decimal form of a positive number has no leading zero.
pub proof fn lemma_no_leading_zero(n: nat)
    requires
        n > 0,
    ensures
        decimal(n).len() > 0,
        decimal(n)[0] != '0',
    decreases n,
{
    if n < 10 {
        assert(decimal(n)[0] as nat == n + 48);
    } else {
        lemma_no_leading_zero(n / 10);
        assert(decimal(n)[0] == decimal(n / 10)[0]);
    }
}

/// The port that a text names: at least one decimal digit, after a plus sign at
/// most, with a value that fits.
pub open spec fn port_of(text: Seq<char>) -> Option<u16> {
    let digits = if text.len() > 0 && text[0] == '+' {
        text.drop_first()
    } else {
        text
    };
    if digits.len() > 0 && all_digits(digits) && digits_value(digits) <= u16::MAX {
        Some(digits_value(digits) as u16)
    } else {
        None
    }
}

proof fn lemma_digits_grow(digits: Seq<char>, n: int)
    requires
        0 <= n <= digits.len(),
    ensures
        digits_value(digits.take(n)) <= digits_value(digits),
    decreases digits.len() - n,
{
    if n < digits.len() {
        lemma_digits_grow(digits, n + 1);
        assert(digits.take(n + 1).drop_last() =~= digits.take(n));
        let v = digits_value(digits.take(n));
        assert(v <= v * 10) by (nonlinear_arith);
    } else {
        assert(digits.take(n) =~= digits);
    }
}

/// Reads the port that a range of characters names.
pub fn parse_port(chars: &Vec<char>, from: usize) -> (port: Option<u16>)
    requires
        from <= chars@.len(),
    ensures
        port == port_of(chars@.subrange(from as int, chars@.len() as int)),
{
    let ghost text = chars@.subrange(from as int, chars@.len() as int);
    let start: usize = if from < chars.len() && chars[from] == '+' {
        from + 1
    } else {
        from
    };
    let ghost digits = chars@.subrange(start as int, chars@.len() as int);
    proof {
        if start > from {
            assert(text.drop_first() =~= digits);
        } else {
            assert(text =~= digits);
        }
    }
    if start == chars.len() {
        return None;
    }
    let mut value: u32 = 0;
    let mut i: usize = start;
    while i < chars.len()
        invariant
            start <= i <= chars@.len(),
            digits == chars@.subrange(start as int, chars@.len() as int),
            value <= u16::MAX,
            value == digits_value(digits.take(i - start)),
            forall|j: int| 0 <= j < i - start ==> '0' <= #[trigger] digits[j] && digits[j] <= '9',
            text == chars@.subrange(from as int, chars@.len() as int),
            port_of(text) == (if digits.len() > 0 && all_digits(digits) && digits_value(digits)
                <= u16::MAX {
                Some(digits_value(digits) as u16)
            } else {
                None
            }),
        decreases chars@.len() - i,
    {
        let c: char = chars[i];
        assert(c == digits[i - start]);
        if !('0' <= c && c <= '9') {
            return None;
        }
        let d: u32 = (c as u8 - 48) as u32;
        value = value * 10 + d;
        proof {
            assert(digits.take(i - start + 1).drop_last() =~= digits.take(i - start));
            lemma_digits_grow(digits, i - start + 1);
        }
        if value > 65_535 {
            return None;
        }
        i += 1;
    }
    assert(digits.take(digits.len() as int) =~= digits);
    Some(value as u16)
}

/// One text comes before another or is equal to it, by the order of their
/// characters.
pub open spec fn text_le(a: Seq<char>, b: Seq<char>) -> bool
    decreases a.len(),
{
    if a.len() == 0 {
        true
    } else if b.len() == 0 {
        false
    } else if a[0] != b[0] {
        a[0] < b[0]
    } else {
        text_le(a.drop_first(), b.drop_first())
    }
}

/// The order of texts is total.
pub proof fn lemma_text_le_total(a: Seq<char>, b: Seq<char>)
    ensures
        text_le(a, b) || text_le(b, a),
        text_le(a, b) && text_le(b, a) ==> a == b,
    decreases a.len(),
{
    if a.len() > 0 && b.len() > 0 {
        if a[0] == b[0] {
            lemma_text_le_total(a.drop_first(), b.drop_first());
            if text_le(a, b) && text_le(b, a) {
                assert(a =~= seq![a[0]] + a.drop_first());
                assert(b =~= seq![b[0]] + b.drop_first());
            }
        }
    } else {
        if a.len() == 0 && b.len() == 0 {
            assert(a =~= b);
        }
    }
}

/// The order of texts is transitive.
pub proof fn lemma_text_le_trans(a: Seq<char>, b: Seq<char>, c: Seq<char>)
    requires
        text_le(a, b),
        text_le(b, c),
    ensures
        text_le(a, c),
    decreases a.len(),
{
    if a.len() > 0 {
        if a[0] == b[0] && b[0] == c[0] {
            lemma_text_le_trans(a.drop_first(), b.drop_first(), c.drop_first());
        }
    }
}

/// Whether one text comes before another or is equal to it.
pub fn is_text_le(a: &str, b: &str) -> (le: bool)
    ensures
        le == text_le(a@, b@),
{
    let left = characters(a);
    let right = characters(b);
    let mut i: usize = 0;
    assert(a@.subrange(0, a@.len() as int) =~= a@);
    assert(b@.subrange(0, b@.len() as int) =~= b@);
    while i < left.len() && i < right.len()
        invariant
            left@ == a@,
            right@ == b@,
            i <= left@.len(),
            i <= right@.len(),
            text_le(a@, b@) == text_le(
                a@.subrange(i as int, a@.len() as int),
                b@.subrange(i as int, b@.len() as int),
            ),
        decreases left@.len() - i,
    {
        let ghost x = a@.subrange(i as int, a@.len() as int);
        let ghost y = b@.subrange(i as int, b@.len() as int);
        assert(x[0] == left@[i as int] && y[0] == right@[i as int]);
        if left[i] != right[i] {
            return left[i] < right[i];
        }
        assert(x.drop_first() =~= a@.subrange(i + 1, a@.len() as int));
        assert(y.drop_first() =~= b@.subrange(i + 1, b@.len() as int));
        i += 1;
    }
    i == left.len()
}

/// A piece of text occurs at a place.
pub open spec fn occurs_at(text: Seq<char>, piece: Seq<char>, at: int) -> bool {
    0 <= at && at + piece.len() <= text.len() && text.subrange(at, at + piece.len()) == piece
}

/// A piece of text occurs somewhere.
pub open spec fn contains_text(text: Seq<char>, piece: Seq<char>) -> bool {
    exists|at: int| occurs_at(text, piece, at)
}

/// Whether a piece of text occurs at a place.
pub fn matches_at(text: &Vec<char>, piece: &Vec<char>, at: usize) -> (matches: bool)
    ensures
        matches == occurs_at(text@, piece@, at as int),
{
    if piece.len() > text.len() || at > text.len() - piece.len() {
        return false;
    }
    let mut i: usize = 0;
    while i < piece.len()
        invariant
            i <= piece@.len(),
            at + piece@.len() <= text@.len() <= usize::MAX,
            forall|j: int| 0 <= j < i ==> text@[at + j] == piece@[j],
        decreases piece@.len() - i,
    {
        if text[at + i] != piece[i] {
            assert(text@.subrange(at as int, at + piece@.len())[i as int] != piece@[i as int]);
            return false;
        }
        i += 1;
    }
    assert(text@.subrange(at as int, at + piece@.len()) =~= piece@);
    true
}

/// Whether a piece of text occurs somewhere.
pub fn is_contained(text: &str, piece: &str) -> (found: bool)
    ensures
        found == contains_text(text@, piece@),
{
    let haystack = characters(text);
    let needle = characters(piece);
    let mut at: usize = 0;
    while at < haystack.len()
        invariant
            haystack@ == text@,
            needle@ == piece@,
            at <= haystack@.len(),
            forall|j: int| 0 <= j < at ==> !occurs_at(text@, piece@, j),
        decreases haystack@.len() - at,
    {
        if matches_at(&haystack, &needle, at) {
            return true;
        }
        at += 1;
    }
    matches_at(&haystack, &needle, at)
}

/// A character with the Unicode property White_Space.
pub open spec fn white_space(c: char) -> bool {
    ||| '\u{9}' <= c && c <= '\u{d}'
    ||| c == ' '
    ||| c == '\u{85}'
    ||| c == '\u{a0}'
    ||| c == '\u{1680}'
    ||| '\u{2000}' <= c && c <= '\u{200a}'
    ||| c == '\u{2028}'
    ||| c == '\u{2029}'
    ||| c == '\u{202f}'
    ||| c == '\u{205f}'
    ||| c == '\u{3000}'
}

/// A text in which nothing is left once white space is trimmed.
pub open spec fn blank(text: Seq<char>) -> bool {
    forall|i: int| 0 <= i < text.len() ==> white_space(#[trigger] text[i])
}

/// Whether nothing is left of a text once white space is trimmed.
pub fn is_blank(text: &str) -> (is_blank: bool)
    ensures
        is_blank == blank(text@),
{
    let chars = characters(text);
    let mut i: usize = 0;
    while i < chars.len()
        invariant
            chars@ == text@,
            i <= chars@.len(),
            forall|j: int| 0 <= j < i ==> white_space(#[trigger] text@[j]),
        decreases chars@.len() - i,
    {
        let c: char = chars[i];
        if !(('\u{9}' <= c && c <= '\u{d}') || c == ' ' || c == '\u{85}' || c == '\u{a0}' || c
            == '\u{1680}' || ('\u{2000}' <= c && c <= '\u{200a}') || c == '\u{2028}' || c
            == '\u{2029}' || c == '\u{202f}' || c == '\u{205f}' || c == '\u{3000}') {
            assert(!white_space(text@[i as int]));
            return false;
        }
        i += 1;
    }
    true
}

/// A text is a DNS label exactly if it has 1 to 63 characters out of `a` to `z`, `0`
/// to `9` and the hyphen, of which the first and the last are no hyphens. It may
/// begin with a digit as well as with a letter.
pub proof fn law_dns_labels(value: Seq<char>)
    ensures
        dns_label(value) <==> {
            &&& value.len() >= 1 && value.len() < 64
            &&& forall|i: int|
                0 <= i < value.len() ==> ({
                    let c = #[trigger] value[i] as int;
                    (97 <= c && c <= 122) || (48 <= c && c <= 57) || (c == 45 && i != 0 && i
                        != value.len() - 1)
                })
        },
{
    let well_made = forall|i: int|
        0 <= i < value.len() ==> ({
            let c = #[trigger] value[i] as int;
            (97 <= c && c <= 122) || (48 <= c && c <= 57) || (c == 45 && i != 0 && i != value.len()
                - 1)
        });
    if value.len() >= 1 && value.len() < 64 {
        let first = value[0];
        let last = value[value.len() - 1];
        if dns_label(value) {
            assert forall|i: int| 0 <= i < value.len() implies ({
                let c = #[trigger] value[i] as int;
                (97 <= c && c <= 122) || (48 <= c && c <= 57) || (c == 45 && i != 0 && i
                    != value.len() - 1)
            }) by {
                assert(is_lower_alphanumeric(value[i]) || value[i] == '-');
            }
        }
        if well_made {
            assert forall|i: int| 0 <= i < value.len() implies is_lower_alphanumeric(
                #[trigger] value[i],
            ) || value[i] == '-' by {
                let c = value[i] as int;
            }
            assert(is_lower_alphanumeric(first) && is_lower_alphanumeric(last));
        }
    }
}

/// Two labels joined by a hyphen are a label, as long as there is room, and so is
/// each of their characters that is no hyphen.
pub proof fn law_labels_join(left: Seq<char>, right: Seq<char>, i: int)
    requires
        dns_label(left),
        dns_label(right),
        left.len() + right.len() < 63,
        0 <= i < left.len(),
    ensures
        dns_label(left + seq!['-'] + right),
        dns_label(left + right),
        left[i] != '-' ==> dns_label(seq![left[i]]),
        !dns_label(left + seq!['-']),
        !dns_label(seq!['-'] + right),
        !dns_label(left + seq!['.'] + right),
{
    assert((left + seq!['-'] + right)[0] == left[0]);
    let dotted = left + seq!['.'] + right;
    assert(dotted[left.len() as int] == '.');
    let open = left + seq!['-'];
    assert(open[open.len() - 1] == '-');
    assert((seq!['-'] + right)[0] == '-');
}

/// A number in decimal is a label, as long as it has no more than 63 digits.
pub proof fn law_numbers_are_labels(n: nat)
    requires
        decimal(n).len() <= 63,
    ensures
        dns_label(decimal(n)),
{
    lemma_decimal(n);
}

/// The lowercase form of a text has its length; a letter from `A` to `Z` becomes
/// the one 32 places on, and every other character stays.
pub proof fn law_lowercase(text: Seq<char>, i: int)
    requires
        0 <= i < text.len(),
    ensures
        ascii_lowercase(text).len() == text.len(),
        65 <= text[i] as int <= 90 ==> ascii_lowercase(text)[i] as int == text[i] as int + 32,
        !(65 <= text[i] as int <= 90) ==> ascii_lowercase(text)[i] == text[i],
{
}

/// A port is read back from its decimal form, with or without a plus sign; a text
/// with anything else in it names no port.
pub proof fn law_ports_are_read_back(port: u16, text: Seq<char>, i: int)
    requires
        1 <= i < text.len(),
        !('0' <= text[i] <= '9'),
    ensures
        port_of(decimal(port as nat)) == Some(port),
        port_of(seq!['+'] + decimal(port as nat)) == Some(port),
        port_of(text) is None,
        port_of(Seq::<char>::empty()) is None,
{
    let number = decimal(port as nat);
    lemma_decimal(port as nat);
    assert('0' <= number[0] <= '9');
    assert((seq!['+'] + number).drop_first() =~= number);
    if text[0] == '+' {
        assert(text.drop_first()[i - 1] == text[i]);
    }
}

/// The value of a number in decimal is the number, and a decimal digit more makes it
/// ten times as much and the digit.
pub proof fn law_decimal_is_positional(n: nat, d: nat)
    requires
        d < 10,
        n > 0,
    ensures
        decimal(10 * n + d).len() == decimal(n).len() + 1,
        decimal(10 * n + d).drop_last() == decimal(n),
        decimal(10 * n + d).last() as int == 48 + d,
        decimal(d).len() == 1 && decimal(d)[0] as int == 48 + d,
{
    assert((10 * n + d) / 10 == n && (10 * n + d) % 10 == d);
    assert(decimal(10 * n + d).drop_last() =~= decimal(n));
}

/// Texts are ordered by the first character in which they differ; a text comes
/// before one that it begins.
pub proof fn law_texts_are_ordered_by_their_first_difference(
    common: Seq<char>,
    left: Seq<char>,
    right: Seq<char>,
)
    ensures
        text_le(common, common + right),
        left.len() > 0 && right.len() > 0 && left[0] < right[0] ==> text_le(
            common + left,
            common + right,
        ) && !text_le(common + right, common + left),
        right.len() > 0 ==> !text_le(common + right, common),
    decreases common.len(),
{
    if common.len() == 0 {
        assert(common + left =~= left);
        assert(common + right =~= right);
    } else {
        let rest = common.drop_first();
        law_texts_are_ordered_by_their_first_difference(rest, left, right);
        assert((common + left).drop_first() =~= rest + left);
        assert((common + right).drop_first() =~= rest + right);
    }
}

/// A piece occurs in a text exactly if the text is the piece with something before
/// and something after it.
pub proof fn law_pieces_occur(before: Seq<char>, piece: Seq<char>, after: Seq<char>, at: int)
    ensures
        contains_text(before + piece + after, piece),
        occurs_at(before, piece, at) ==> 0 <= at <= before.len() - piece.len() && forall|k: int|
            0 <= k < piece.len() ==> before[at + k] == #[trigger] piece[k],
        contains_text(before, piece) ==> piece.len() <= before.len(),
{
    let text = before + piece + after;
    let start = before.len() as int;
    assert(text.subrange(start, start + piece.len()) =~= piece);
    assert(occurs_at(text, piece, start));
    if occurs_at(before, piece, at) {
        assert forall|k: int| 0 <= k < piece.len() implies before[at + k] == #[trigger] piece[k] by {
            assert(before.subrange(at, at + piece.len())[k] == piece[k]);
        }
    }
}

/// A text with a visible ASCII character in it is not blank; one of spaces, tabs and
/// line ends is, and so is the empty one.
pub proof fn law_visible_texts_are_not_blank(text: Seq<char>, i: int, spaces: Seq<char>)
    requires
        0 <= i < text.len(),
        33 <= text[i] as int <= 126,
        forall|k: int|
            0 <= k < spaces.len() ==> ({
                let c = #[trigger] spaces[k] as int;
                c == 32 || c == 9 || c == 10 || c == 13
            }),
    ensures
        !blank(text),
        blank(spaces),
        blank(Seq::<char>::empty()),
{
    assert(!white_space(text[i]));
}

/// White space is what Unicode counts as such: twenty-five characters, by their numbers. A
/// text of one character is blank exactly if the character is one of them, and two texts in a
/// row are blank exactly if both are.
pub proof fn law_white_space(c: char, left: Seq<char>, right: Seq<char>)
    ensures
        blank(seq![c]) <==> ({
            let code = c as int;
            (9 <= code <= 13) || code == 32 || code == 133 || code == 160 || code == 5760 || (8192
                <= code <= 8202) || code == 8232 || code == 8233 || code == 8239 || code == 8287
                || code == 12288
        }),
        blank(left + right) <==> blank(left) && blank(right),
{
    assert(seq![c][0] == c);
    if blank(left + right) {
        assert forall|i: int| 0 <= i < left.len() implies white_space(#[trigger] left[i]) by {
            assert((left + right)[i] == left[i]);
        }
        assert forall|i: int| 0 <= i < right.len() implies white_space(#[trigger] right[i]) by {
            assert((left + right)[i + left.len()] == right[i]);
        }
    }
}

} // verus!
