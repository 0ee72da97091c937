//! Text: searching a name for a pattern, and writing numbers in decimal.

use vstd::prelude::*;
use vstd::string::StringExecFns;

verus! {

/// `pattern` stands in `text` at offset `start`.
pub open spec fn occurs_at(pattern: Seq<char>, text: Seq<char>, start: int) -> bool {
    &&& 0 <= start
    &&& start + pattern.len() <= text.len()
    &&& text.subrange(start, start + pattern.len()) == pattern
}

/// `pattern` stands somewhere in `text`. The empty pattern stands in every text.
pub open spec fn is_substring(pattern: Seq<char>, text: Seq<char>) -> bool {
    exists|start: int| occurs_at(pattern, text, start)
}

/// The characters of `text`, in order.
pub fn characters(text: &str) -> (chars: Vec<char>)
    ensures
        chars@ == text@,
{
    let mut chars: Vec<char> = Vec::new();
    for c in it: text.chars()
        invariant
            it.seq() == text@,
            chars@ == it.seq().take(it.index() as int),
    {
        chars.push(c);
    }
    chars
}

/// Whether `pattern` stands in `text` at offset `start`.
fn matches_at(text: &Vec<char>, pattern: &Vec<char>, start: usize) -> (found: bool)
    requires
        start + pattern.len() <= text.len(),
    ensures
        found == occurs_at(pattern@, text@, start as int),
{
    let ghost window = text@.subrange(start as int, start + pattern.len());
    let mut k: usize = 0;
    while k < pattern.len()
        invariant
            k <= pattern.len(),
            start + pattern.len() <= text.len(),
            window == text@.subrange(start as int, start + pattern.len()),
            forall|j: int| 0 <= j < k ==> window[j] == pattern@[j],
        decreases pattern.len() - k,
    {
        if text[start + k] != pattern[k] {
            return false;
        }
        k += 1;
    }
    assert(window =~= pattern@);
    true
}

/// Whether `text` contains `pattern` as a run of consecutive characters.
pub fn contains(text: &str, pattern: &str) -> (found: bool)
    ensures
        found == is_substring(pattern@, text@),
{
    let haystack = characters(text);
    let needle = characters(pattern);
    if needle.len() > haystack.len() {
        assert forall|s: int| !occurs_at(pattern@, text@, s) by {}
        return false;
    }
    let last: usize = haystack.len() - needle.len();
    let mut start: usize = 0;
    loop
        invariant
            haystack@ == text@,
            needle@ == pattern@,
            start <= last,
            last == haystack.len() - needle.len(),
            forall|s: int| 0 <= s < start ==> !occurs_at(pattern@, text@, s),
        decreases last - start,
    {
        if matches_at(&haystack, &needle, start) {
            return true;
        }
        if start == last {
            assert forall|s: int| !occurs_at(pattern@, text@, s) by {}
            return false;
        }
        start += 1;
    }
}

/// The character that writes the digit `d`.
pub open spec fn digit(d: nat) -> char {
    if d == 0 {
        '0'
    } else if d == 1 {
        '1'
    } else if d == 2 {
        '2'
    } else if d == 3 {
        '3'
    } else if d == 4 {
        '4'
    } else if d == 5 {
        '5'
    } else if d == 6 {
        '6'
    } else if d == 7 {
        '7'
    } else if d == 8 {
        '8'
    } else {
        '9'
    }
}

/// `n` written in decimal, without sign or leading zeros.
pub open spec fn decimal(n: nat) -> Seq<char>
    decreases n,
{
    if n < 10 {
        seq![digit(n)]
    } else {
        decimal(n / 10).push(digit(n % 10))
    }
}

/// The digit that the character `c` writes; 0 for a character that writes none.
pub open spec fn digit_value(c: char) -> nat {
    if c == '1' {
        1
    } else if c == '2' {
        2
    } else if c == '3' {
        3
    } else if c == '4' {
        4
    } else if c == '5' {
        5
    } else if c == '6' {
        6
    } else if c == '7' {
        7
    } else if c == '8' {
        8
    } else if c == '9' {
        9
    } else {
        0
    }
}

/// `c` is one of the ten digit characters.
pub open spec fn is_digit(c: char) -> bool {
    c == '0' || digit_value(c) != 0
}

/// The number that the digits `text` write, read as a decimal numeral.
pub open spec fn number(text: Seq<char>) -> nat
    decreases text.len(),
{
    if text.len() == 0 {
        0
    } else {
        10 * number(text.drop_last()) + digit_value(text.last())
    }
}

/// A decimal numeral is made of digits only, has no leading zero unless it
/// is `0` itself, and reads back as the number that it was written for.
pub proof fn law_decimal_reads_back(n: nat)
    ensures
        decimal(n).len() >= 1,
        forall|i: int| 0 <= i < decimal(n).len() ==> is_digit(#[trigger] decimal(n)[i]),
        n > 0 ==> decimal(n)[0] != '0',
        number(decimal(n)) == n,
    decreases n,
{
    if n < 10 {
        assert(decimal(n).drop_last() =~= Seq::<char>::empty());
        assert(number(decimal(n)) == 10 * number(Seq::<char>::empty()) + digit_value(digit(n)));
    } else {
        let front = decimal(n / 10);
        law_decimal_reads_back(n / 10);
        assert(decimal(n).drop_last() =~= front);
        assert forall|i: int| 0 <= i < decimal(n).len() implies is_digit(
            #[trigger] decimal(n)[i],
        ) by {
            if i < front.len() {
                assert(decimal(n)[i] == front[i]);
            }
        }
    }
}

/// The one-character text of the digit `d`.
fn digit_text(d: u32) -> (text: &'static str)
    requires
        d < 10,
    ensures
        text@ == seq![digit(d as nat)],
{
    proof {
        reveal_strlit("0");
        reveal_strlit("1");
        reveal_strlit("2");
        reveal_strlit("3");
        reveal_strlit("4");
        reveal_strlit("5");
        reveal_strlit("6");
        reveal_strlit("7");
        reveal_strlit("8");
        reveal_strlit("9");
    }
    let text = if d == 0 {
        "0"
    } else if d == 1 {
        "1"
    } else if d == 2 {
        "2"
    } else if d == 3 {
        "3"
    } else if d == 4 {
        "4"
    } else if d == 5 {
        "5"
    } else if d == 6 {
        "6"
    } else if d == 7 {
        "7"
    } else if d == 8 {
        "8"
    } else {
        "9"
    };
    text
}

/// Writes `n` in decimal.
pub fn to_decimal(n: u32) -> (text: String)
    ensures
        text@ == decimal(n as nat),
    decreases n,
{
    if n < 10 {
        String::from_str(digit_text(n))
    } else {
        let mut text = to_decimal(n / 10);
        text.append(digit_text(n % 10));
        text
    }
}

} // verus!
