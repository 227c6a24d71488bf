//! Small operations on text, over the characters of a string.

use vstd::prelude::*;

verus! {

/// `String::push`: appends one character.
pub assume_specification[ String::push ](text: &mut String, c: char)
    ensures
        final(text)@ == old(text)@.push(c),
;

/// `str::parse` at `u64`: accepts a decimal number with an optional leading
/// `+` that fits in 64 bits, and nothing else; what a rejected text is told is
/// the `Display` form of the error.
#[verifier::external_body]
pub(crate) fn parse_u64(text: &str) -> (parsed: Result<u64, String>)
    ensures
        match parsed {
            Ok(value) => is_decimal(text@) && value == decimal_value(unsigned_part(text@)),
            Err(message) => {
                &&& !is_decimal(text@) || decimal_value(unsigned_part(text@)) > u64::MAX
                &&& message@ == parse_u64_error(text@)
            },
        },
{
    text.parse::<u64>().map_err(|e| e.to_string())
}

/// What `str::parse` at `u64` says of a text that it rejects.
pub uninterp spec fn parse_u64_error(text: Seq<char>) -> Seq<char>;

/// `format!` with `{:?}` on a list of strings.
#[verifier::external_body]
pub(crate) fn debug_list(values: &Vec<String>) -> (shown: String)
    ensures
        shown@ == debug_list_text(texts(values@)),
{
    format!("{values:?}")
}

/// The debug form of a list of strings.
pub uninterp spec fn debug_list_text(values: Seq<Seq<char>>) -> Seq<char>;

/// The characters of each string.
pub open spec fn texts(values: Seq<String>) -> Seq<Seq<char>> {
    Seq::new(values.len(), |i: int| values[i]@)
}

pub open spec fn is_digit(c: char) -> bool {
    '0' <= c <= '9'
}

/// A text without its leading `+`, if it has one.
pub open spec fn unsigned_part(text: Seq<char>) -> Seq<char> {
    if text.len() > 0 && text[0] == '+' {
        text.drop_first()
    } else {
        text
    }
}

/// Digits, at least one, after an optional `+`.
pub open spec fn is_decimal(text: Seq<char>) -> bool {
    &&& unsigned_part(text).len() > 0
    &&& forall|i: int| 0 <= i < unsigned_part(text).len() ==> is_digit(#[trigger] unsigned_part(text)[i])
}

/// The number that a run of digits stands for.
pub open spec fn decimal_value(digits: Seq<char>) -> nat
    decreases digits.len(),
{
    if digits.len() == 0 {
        0
    } else {
        10 * decimal_value(digits.drop_last()) + (digits.last() as nat - '0' as nat) as nat
    }
}

/// The shortest run of digits that stands for a number.
pub open spec fn decimal_text(n: nat) -> Seq<char>
    decreases n,
{
    if n < 10 {
        seq![('0' as nat + n) as char]
    } else {
        decimal_text(n / 10).push(('0' as nat + n % 10) as char)
    }
}

/// Writing a number in decimal and reading it back gives the number.
pub proof fn decimal_round_trip(n: nat)
    ensures
        is_decimal(decimal_text(n)),
        unsigned_part(decimal_text(n)) == decimal_text(n),
        decimal_value(decimal_text(n)) == n,
    decreases n,
{
    let digits = decimal_text(n);
    if n < 10 {
        assert(digits.drop_last() =~= Seq::<char>::empty());
        assert(decimal_value(digits.drop_last()) == 0);
    } else {
        decimal_round_trip(n / 10);
        assert(digits.drop_last() =~= decimal_text(n / 10));
        assert(digits[0] == decimal_text(n / 10)[0]);
    }
    assert(is_digit(digits[0]));
    assert(unsigned_part(digits) == digits);
}

/// The character of a decimal digit.
fn digit(d: u8) -> (c: char)
    requires
        d < 10,
    ensures
        c as nat == '0' as nat + d,
{
    (48u8 + d) as char
}

/// Writes a number in decimal.
pub fn decimal(n: u64) -> (text: String)
    ensures
        text@ == decimal_text(n as nat),
    decreases n,
{
    if n < 10 {
        let mut text = String::new();
        text.push(digit(n as u8));
        proof {
            assert(text@ =~= decimal_text(n as nat));
        }
        text
    } else {
        let mut text = decimal(n / 10);
        text.push(digit((n % 10) as u8));
        text
    }
}

/// The characters of a string, as a vector.
pub fn chars_of(text: &str) -> (chars: Vec<char>)
    ensures
        chars@ == text@,
{
    let mut chars: Vec<char> = Vec::new();
    for c in it: text.chars()
        invariant
            it.seq() == text@,
            chars@ == text@.take(it.index() as int),
    {
        proof {
            assert(text@.take(it.index() as int).push(c) =~= text@.take(it.index() as int + 1));
        }
        chars.push(c);
    }
    proof {
        assert(text@.take(text@.len() as int) =~= text@);
    }
    chars
}

/// Whether two texts are the same.
pub fn same(a: &str, b: &str) -> (equal: bool)
    ensures
        equal == (a@ == b@),
{
    a.to_owned() == b.to_owned()
}

/// Two texts in a row.
pub fn cat(a: &str, b: &str) -> (text: String)
    ensures
        text@ == a@ + b@,
{
    let mut text = String::new();
    text.append(a);
    text.append(b);
    proof {
        assert(text@ =~= a@ + b@);
    }
    text
}

/// `pattern` stands in `text` at position `i`.
pub open spec fn occurs_at(text: Seq<char>, pattern: Seq<char>, i: int) -> bool {
    0 <= i && i + pattern.len() <= text.len() && text.subrange(i, i + pattern.len()) == pattern
}

/// `pattern` stands somewhere in `text`.
pub open spec fn occurs(text: Seq<char>, pattern: Seq<char>) -> bool {
    exists|i: int| occurs_at(text, pattern, i)
}

/// Whether `pattern` stands somewhere in `text`.
pub fn contains(text: &str, pattern: &str) -> (found: bool)
    ensures
        found == occurs(text@, pattern@),
{
    let hay = chars_of(text);
    let needle = chars_of(pattern);
    let mut i: usize = 0;
    while i <= hay.len() && needle.len() <= hay.len() - i
        invariant
            hay@ == text@,
            needle@ == pattern@,
            i <= hay.len() + 1,
            forall|k: int| 0 <= k < i ==> !occurs_at(text@, pattern@, k),
        decreases hay.len() + 1 - i,
    {
        let mut j: usize = 0;
        while j < needle.len() && hay[i + j] == needle[j]
            invariant
                hay@ == text@,
                needle@ == pattern@,
                i + needle.len() <= hay.len(),
                j <= needle.len(),
                forall|k: int| 0 <= k < j ==> hay@[i + k] == needle@[k],
            decreases needle.len() - j,
        {
            j = j + 1;
        }
        if j == needle.len() {
            proof {
                assert(text@.subrange(i as int, i + pattern@.len()) =~= pattern@);
                assert(occurs_at(text@, pattern@, i as int));
            }
            return true;
        }
        proof {
            assert(text@.subrange(i as int, i + pattern@.len())[j as int] == text@[i + j]);
            assert(!occurs_at(text@, pattern@, i as int));
        }
        i = i + 1;
    }
    proof {
        assert forall|k: int| !occurs_at(text@, pattern@, k) by {}
    }
    false
}

/// What stands for a character when `from` is replaced by `to`.
pub open spec fn replacement(from: char, to: Seq<char>) -> spec_fn(char) -> Seq<char> {
    |c: char| if c == from { to } else { seq![c] }
}

/// `text` with each `from` replaced by `to`.
pub open spec fn replaced(text: Seq<char>, from: char, to: Seq<char>) -> Seq<char> {
    text.flat_map(replacement(from, to))
}

/// Replaces each `from` by `to`.
pub fn replace(text: &str, from: char, to: &str) -> (result: String)
    ensures
        result@ == replaced(text@, from, to@),
{
    let chars = chars_of(text);
    let mut result = String::new();
    let ghost f = replacement(from, to@);
    let mut i: usize = 0;
    proof {
        assert(text@.take(0).flat_map(f) =~= Seq::<char>::empty());
    }
    while i < chars.len()
        invariant
            chars@ == text@,
            i <= chars.len(),
            f == replacement(from, to@),
            result@ == text@.take(i as int).flat_map(f),
        decreases chars.len() - i,
    {
        proof {
            text@.lemma_flat_map_take_append(f, i as int);
        }
        if chars[i] == from {
            result.append(to);
        } else {
            result.push(chars[i]);
        }
        i = i + 1;
        proof {
            assert(result@ =~= text@.take(i as int).flat_map(f));
        }
    }
    proof {
        assert(text@.take(text@.len() as int) =~= text@);
    }
    result
}

/// The model of a list of strings holds each string, in its place.
pub proof fn texts_hold_every_string(values: Seq<String>)
    ensures
        texts(values).len() == values.len(),
        forall|i: int| 0 <= i < values.len() ==> #[trigger] texts(values)[i] == values[i]@,
{
}

/// Numbers are written digit by digit: those below ten with their own digit,
/// and one that is ten times another and a digit with that digit behind the
/// other.
pub proof fn numbers_are_written_digit_by_digit(n: nat, digit: nat)
    requires
        digit < 10,
    ensures
        decimal_text(digit).len() == 1,
        decimal_text(digit)[0] as nat == 48 + digit,
        n > 0 ==> decimal_text(10 * n + digit).len() == decimal_text(n).len() + 1,
        n > 0 ==> decimal_text(10 * n + digit).drop_last() == decimal_text(n),
        n > 0 ==> decimal_text(10 * n + digit).last() as nat == 48 + digit,
{
    if n > 0 {
        let longer = decimal_text(10 * n + digit);
        assert((10 * n + digit) / 10 == n);
        assert((10 * n + digit) % 10 == digit);
        assert(longer.drop_last() =~= decimal_text(n));
    }
}

/// Numbers are read digit by digit: a digit behind others adds itself to ten
/// times their number.
pub proof fn numbers_are_read_digit_by_digit(digits: Seq<char>, last: char)
    requires
        48 <= last as int <= 57,
    ensures
        decimal_value(Seq::<char>::empty()) == 0,
        decimal_value(digits.push(last)) == 10 * decimal_value(digits) + (last as int - 48),
{
    assert(digits.push(last).drop_last() =~= digits);
}

/// A decimal number is at least one digit, with a plus before them or not, and
/// nothing else; the plus changes nothing.
pub proof fn decimal_numbers_are_digits(text: Seq<char>)
    requires
        text.len() > 0,
        text[0] != '+',
    ensures
        is_decimal(text) <==> forall|i: int|
            0 <= i < text.len() ==> 48 <= #[trigger] text[i] as int <= 57,
        is_decimal(seq!['+'] + text) <==> is_decimal(text),
        unsigned_part(text) == text,
        unsigned_part(seq!['+'] + text) == text,
        !is_decimal(Seq::<char>::empty()),
        !is_decimal(seq!['+']),
{
    assert((seq!['+'] + text).drop_first() =~= text);
    assert(seq!['+'].drop_first() =~= Seq::<char>::empty());
}

/// A pattern stands in a text exactly when the text is something, the pattern,
/// and something.
pub proof fn a_pattern_occurs_between_two_texts(
    text: Seq<char>,
    before: Seq<char>,
    pattern: Seq<char>,
    after: Seq<char>,
)
    ensures
        occurs(before + pattern + after, pattern),
        occurs(text, pattern) ==> exists|a: Seq<char>, b: Seq<char>| text == #[trigger] (a + pattern + b),
{
    let whole = before + pattern + after;
    assert(whole.subrange(before.len() as int, (before.len() + pattern.len()) as int) =~= pattern);
    assert(occurs_at(whole, pattern, before.len() as int));
    if occurs(text, pattern) {
        let i = choose|i: int| occurs_at(text, pattern, i);
        let a = text.take(i);
        let b = text.skip(i + pattern.len());
        assert(text =~= a + pattern + b);
    }
}

/// Replacing goes character by character: the replaced one gives the
/// replacement, any other one itself, and each part of a text is replaced on
/// its own.
pub proof fn replacing_goes_character_by_character(
    a: Seq<char>,
    b: Seq<char>,
    c: char,
    from: char,
    to: Seq<char>,
)
    ensures
        replaced(Seq::<char>::empty(), from, to) == Seq::<char>::empty(),
        replaced(seq![from], from, to) == to,
        c != from ==> replaced(seq![c], from, to) == seq![c],
        replaced(a + b, from, to) == replaced(a, from, to) + replaced(b, from, to),
{
    let f = replacement(from, to);
    assert(Seq::<char>::empty().map_values(f) =~= Seq::<Seq<char>>::empty());
    assert(seq![from].map_values(f) =~= seq![to]);
    assert(seq![c].map_values(f) =~= seq![f(c)]);
    seq![to].lemma_flatten_one_element();
    seq![f(c)].lemma_flatten_one_element();
    assert((a + b).map_values(f) =~= a.map_values(f) + b.map_values(f));
    vstd::seq_lib::lemma_flatten_concat(a.map_values(f), b.map_values(f));
}

} // verus!
