//! Characters, words and numbers: the lexical layer under the expression
//! grammar.

use vstd::prelude::*;

verus! {

/// The characters that separate the words of an expression.
pub open spec fn is_space(c: char) -> bool {
    c == ' ' || c == '\t' || c == '\n' || c == '\r'
}

/// The words of `text` when `current` holds the characters of the word that
/// is being read.
pub open spec fn words_from(text: Seq<char>, current: Seq<char>) -> Seq<Seq<char>>
    decreases text.len(),
{
    if text.len() == 0 {
        if current.len() == 0 {
            Seq::empty()
        } else {
            seq![current]
        }
    } else if is_space(text[0]) {
        if current.len() == 0 {
            words_from(text.skip(1), Seq::empty())
        } else {
            seq![current] + words_from(text.skip(1), Seq::empty())
        }
    } else {
        words_from(text.skip(1), current.push(text[0]))
    }
}

/// The words of `text`: its maximal runs of characters that are not spaces,
/// in order.
pub open spec fn words(text: Seq<char>) -> Seq<Seq<char>> {
    words_from(text, Seq::empty())
}

/// The character sequences that a list of strings stands for.
pub open spec fn texts(strings: Seq<String>) -> Seq<Seq<char>> {
    strings.map_values(|s: String| s@)
}

/// Whether `c` is a digit in the given radix (at most ten).
pub open spec fn is_digit(c: char, radix: nat) -> bool {
    '0' <= c && (c as nat) < ('0' as nat) + radix
}

/// Whether every character of `s` is a digit in the given radix.
pub open spec fn all_digits(s: Seq<char>, radix: nat) -> bool {
    forall|i: int| 0 <= i < s.len() ==> is_digit(#[trigger] s[i], radix)
}

/// The number that the digits `s` spell in the given radix.
pub open spec fn digits_value(s: Seq<char>, radix: nat) -> nat
    decreases s.len(),
{
    if s.len() == 0 {
        0
    } else {
        digits_value(s.drop_last(), radix) * radix + ((s.last() as nat) - ('0' as nat)) as nat
    }
}

/// The number that `s` spells, where `s` is a nonempty run of digits in the
/// given radix whose value is at most `max`.
pub open spec fn number(s: Seq<char>, radix: nat, max: nat) -> Option<nat> {
    if s.len() > 0 && all_digits(s, radix) && digits_value(s, radix) <= max {
        Some(digits_value(s, radix))
    } else {
        None
    }
}

/// The number that `s` spells as an unsigned integer: decimal digits, with
/// or without a `+` before them, whose value is at most `max`.
pub open spec fn unsigned(s: Seq<char>, max: nat) -> Option<nat> {
    if s.len() > 0 && s[0] == '+' {
        number(s.skip(1), 10, max)
    } else {
        number(s, 10, max)
    }
}

/// The digits of a longer run spell a number that is no smaller.
pub proof fn lemma_digits_value_grows(s: Seq<char>, n: int, radix: nat)
    requires
        0 <= n <= s.len(),
        radix >= 1,
    ensures
        digits_value(s.take(n), radix) <= digits_value(s, radix),
    decreases s.len(),
{
    if n == s.len() {
        assert(s.take(n) =~= s);
    } else {
        assert(s.drop_last().take(n) =~= s.take(n));
        lemma_digits_value_grows(s.drop_last(), n, radix);
        let head = digits_value(s.drop_last(), radix);
        assert(head <= head * radix) by (nonlinear_arith)
            requires
                radix >= 1,
        ;
    }
}

/// The characters of a string, in a vector.
pub fn chars_of(s: &str) -> (chars: Vec<char>)
    ensures
        chars@ == s@,
{
    let mut chars: Vec<char> = Vec::new();
    for c in it: s.chars()
        invariant
            it.seq() == s@,
            chars@ == s@.take(it.index() as int),
    {
        chars.push(c);
        assert(s@.take(it.index() + 1) =~= s@.take(it.index() as int).push(c));
    }
    assert(s@.take(s@.len() as int) =~= s@);
    chars
}

/// Whether the characters are exactly those of `word`.
pub fn spells(chars: &Vec<char>, word: &str) -> (same: bool)
    ensures
        same == (chars@ == word@),
{
    let mut same = true;
    let mut i: usize = 0;
    for c in it: word.chars()
        invariant
            it.seq() == word@,
            same ==> i == it.index(),
            same ==> i <= chars.len(),
            same ==> chars@.take(i as int) == word@.take(i as int),
            !same ==> chars@ != word@,
    {
        if same {
            if i < chars.len() && chars[i] == c {
                assert(chars@.take(i + 1) =~= chars@.take(i as int).push(c));
                assert(word@.take(i + 1) =~= word@.take(i as int).push(c));
                i = i + 1;
            } else {
                same = false;
            }
        }
    }
    if same {
        assert(word@.take(i as int) =~= word@);
        if i == chars.len() {
            assert(chars@.take(i as int) =~= chars@);
        }
    }
    same && i == chars.len()
}

/// The string that holds the characters `chars[from..to]` of `text`.
pub fn slice_of(text: &str, from: usize, to: usize) -> (s: String)
    requires
        from <= to <= text@.len(),
    ensures
        s@ == text@.subrange(from as int, to as int),
{
    String::from_str(text.substring_char(from, to))
}

/// Whether `c` separates words.
pub fn is_space_char(c: char) -> (space: bool)
    ensures
        space == is_space(c),
{
    c == ' ' || c == '\t' || c == '\n' || c == '\r'
}

/// Splits `input` into its words.
pub fn tokenize(input: &str) -> (tokens: Vec<String>)
    ensures
        texts(tokens@) == words(input@),
{
    let len = input.unicode_len();
    let mut tokens: Vec<String> = Vec::new();
    let mut start: usize = 0;
    let mut i: usize = 0;
    assert(input@.skip(0) =~= input@);
    assert(input@.subrange(0, 0) =~= Seq::empty());
    assert(texts(tokens@) + words(input@) =~= words(input@));
    for c in it: input.chars()
        invariant
            it.seq() == input@,
            len == input@.len(),
            i == it.index(),
            start <= i,
            words(input@) == texts(tokens@) + words_from(
                input@.skip(i as int),
                input@.subrange(start as int, i as int),
            ),
    {
        let ghost rest = input@.skip(i as int);
        let ghost current = input@.subrange(start as int, i as int);
        assert(rest[0] == c);
        assert(rest.skip(1) =~= input@.skip(i + 1));
        if is_space_char(c) {
            if start < i {
                let word = slice_of(input, start, i);
                let ghost before = tokens@;
                tokens.push(word);
                assert(texts(tokens@) =~= texts(before) + seq![current]);
            }
            start = i + 1;
            assert(input@.subrange(start as int, i + 1) =~= Seq::empty());
        } else {
            assert(input@.subrange(start as int, i + 1) =~= current.push(c));
        }
        i = i + 1;
    }
    if start < i {
        let word = slice_of(input, start, i);
        let ghost before = tokens@;
        tokens.push(word);
        assert(texts(tokens@) =~= texts(before) + seq![word@]);
    }
    tokens
}

/// The value of `c` as a digit in the given radix, if it is one.
pub fn digit_of(c: char, radix: u32) -> (digit: Option<u32>)
    requires
        1 <= radix <= 10,
    ensures
        digit is Some == is_digit(c, radix as nat),
        digit matches Some(d) ==> d == (c as nat) - ('0' as nat) && d < radix,
{
    let code: u32 = c as u32;
    if code < 48 || code >= 48 + radix {
        None
    } else {
        Some(code - 48)
    }
}

/// Reads `chars[from..to]` as a number in the given radix.
pub fn parse_number(chars: &Vec<char>, from: usize, to: usize, radix: u32, max: u64) -> (value:
    Option<u64>)
    requires
        from <= to <= chars.len(),
        1 <= radix <= 10,
    ensures
        match number(chars@.subrange(from as int, to as int), radix as nat, max as nat) {
            Some(n) => value == Some(n as u64),
            None => value is None,
        },
{
    let ghost digits = chars@.subrange(from as int, to as int);
    if from == to {
        return None;
    }
    let mut total: u64 = 0;
    let mut i: usize = from;
    assert(digits.take(0) =~= Seq::empty());
    while i < to
        invariant
            from <= i <= to <= chars.len(),
            1 <= radix <= 10,
            digits == chars@.subrange(from as int, to as int),
            all_digits(digits.take(i - from), radix as nat),
            total == digits_value(digits.take(i - from), radix as nat),
            total <= max,
        decreases to - i,
    {
        let c = chars[i];
        assert(digits[i - from] == c);
        let digit: u32 = match digit_of(c, radix) {
            Some(d) => d,
            None => {
                return None;
            },
        };
        assert((total as u128) * (radix as u128) <= 10 * (total as u128)) by (nonlinear_arith)
            requires
                radix <= 10,
        ;
        let next: u128 = (total as u128) * (radix as u128) + (digit as u128);
        proof {
            let shorter = digits.take(i - from);
            let longer = digits.take(i - from + 1);
            assert(longer.drop_last() =~= shorter);
            assert(longer.last() == c);
            assert(digits_value(longer, radix as nat) == digits_value(shorter, radix as nat) * (
            radix as nat) + digit);
            assert(next == digits_value(longer, radix as nat));
            assert forall|j: int| 0 <= j < longer.len() implies is_digit(
                #[trigger] longer[j],
                radix as nat,
            ) by {
                if j < shorter.len() {
                    assert(longer[j] == shorter[j]);
                }
            }
            if next > max && all_digits(digits, radix as nat) {
                lemma_digits_value_grows(digits, i - from + 1, radix as nat);
            }
        }
        if next > max as u128 {
            return None;
        }
        total = next as u64;
        i = i + 1;
    }
    assert(digits.take(to - from) =~= digits);
    Some(total)
}

/// Reads the characters as an unsigned integer.
pub fn parse_unsigned(chars: &Vec<char>, max: u64) -> (value: Option<u64>)
    ensures
        match unsigned(chars@, max as nat) {
            Some(n) => value == Some(n as u64),
            None => value is None,
        },
{
    let from: usize = if chars.len() > 0 && chars[0] == '+' {
        1
    } else {
        0
    };
    assert(chars@.subrange(from as int, chars.len() as int) =~= chars@.skip(from as int));
    assert(chars@.skip(0) =~= chars@);
    parse_number(chars, from, chars.len(), 10, max)
}

} // verus!
