use vstd::prelude::*;
use vstd::string::*;
use vstd::utf8::*;

verus! {

/// Whether two texts hold the same characters.
pub fn text_eq(a: &str, b: &str) -> (same: bool)
    ensures
        same == (a@ == b@),
{
    let x = a.as_bytes();
    let y = b.as_bytes();
    proof {
        encode_utf8_decode_utf8(a@);
        encode_utf8_decode_utf8(b@);
    }
    if x.len() != y.len() {
        return false;
    }
    let mut i: usize = 0;
    while i < x.len()
        invariant
            i <= x.len(),
            x.len() == y.len(),
            x@ == a.spec_bytes(),
            y@ == b.spec_bytes(),
            forall|j: int| 0 <= j < i ==> x@[j] == y@[j],
        decreases x.len() - i,
    {
        if x[i] != y[i] {
            return false;
        }
        i = i + 1;
    }
    assert(x@ =~= y@);
    true
}

/// The position of the first occurrence of `c` in `s` at or after `from`, or the length of `s`
/// where there is none.
pub open spec fn find_from(s: Seq<char>, c: char, from: int) -> int
    decreases s.len() - from,
{
    if from < 0 || from >= s.len() {
        s.len() as int
    } else if s[from] == c {
        from
    } else {
        find_from(s, c, from + 1)
    }
}

pub proof fn lemma_find_from(s: Seq<char>, c: char, from: int)
    requires
        0 <= from <= s.len(),
    ensures
        from <= find_from(s, c, from) <= s.len(),
        forall|j: int| from <= j < find_from(s, c, from) ==> s[j] != c,
        find_from(s, c, from) < s.len() ==> s[find_from(s, c, from)] == c,
    decreases s.len() - from,
{
    if from < s.len() && s[from] != c {
        lemma_find_from(s, c, from + 1);
    }
}

/// The first occurrence of `c` at or after `from` is at `at` where no position in between
/// holds `c` and `at` holds it, or is the end.
pub proof fn lemma_find_from_is(s: Seq<char>, c: char, from: int, at: int)
    requires
        0 <= from <= at <= s.len(),
        forall|j: int| from <= j < at ==> s[j] != c,
        at < s.len() ==> s[at] == c,
    ensures
        find_from(s, c, from) == at,
    decreases at - from,
{
    if from < at {
        lemma_find_from_is(s, c, from + 1, at);
    }
}

/// Whether `c` occurs nowhere in `s`.
pub open spec fn free_of(s: Seq<char>, c: char) -> bool {
    forall|j: int| 0 <= j < s.len() ==> s[j] != c
}

/// Finds the first occurrence of `c` in `s` at or after the character position `from`.
pub fn find_char(s: &str, c: char, from: usize) -> (at: usize)
    requires
        from <= s@.len(),
    ensures
        at == find_from(s@, c, from as int),
{
    let length = s.unicode_len();
    let mut at: usize = 0;
    let mut found = false;
    for x in it: s.chars()
        invariant
            it.seq() == s@,
            length == s@.len(),
            found ==> from <= at < s@.len() && at < it.index() && at == find_from(
                s@,
                c,
                from as int,
            ),
            !found ==> at == it.index() && (from <= at ==> find_from(s@, c, from as int)
                == find_from(s@, c, at as int)),
    {
        if !found {
            if at >= from && x == c {
                found = true;
            } else {
                at = at + 1;
            }
        }
    }
    at
}

/// The text `a` followed by `b`.
pub fn join2(a: &str, b: &str) -> (joined: String)
    ensures
        joined@ == a@ + b@,
{
    let mut joined = String::from_str(a);
    joined.append(b);
    joined
}

/// The texts `a`, `b` and `c`, one after the other.
pub fn join3(a: &str, b: &str, c: &str) -> (joined: String)
    ensures
        joined@ == a@ + b@ + c@,
{
    let mut joined = String::from_str(a);
    joined.append(b);
    joined.append(c);
    joined
}

/// The characters of `s` from position `from` up to, not including, position `to`.
pub fn slice(s: &str, from: usize, to: usize) -> (part: String)
    requires
        from <= to <= s@.len(),
    ensures
        part@ == s@.subrange(from as int, to as int),
{
    String::from_str(s.substring_char(from, to))
}

/// The decimal digit for a number below ten.
pub open spec fn digit_text(digit: nat) -> Seq<char> {
    if digit == 0 {
        "0"@
    } else if digit == 1 {
        "1"@
    } else if digit == 2 {
        "2"@
    } else if digit == 3 {
        "3"@
    } else if digit == 4 {
        "4"@
    } else if digit == 5 {
        "5"@
    } else if digit == 6 {
        "6"@
    } else if digit == 7 {
        "7"@
    } else if digit == 8 {
        "8"@
    } else {
        "9"@
    }
}

/// The decimal numeral of a number, without leading zeros.
pub open spec fn decimal_text(number: nat) -> Seq<char>
    decreases number,
{
    if number < 10 {
        digit_text(number)
    } else {
        decimal_text(number / 10) + digit_text(number % 10)
    }
}

/// The decimal digit for a number below ten.
fn digit(value: u64) -> (text: &'static str)
    requires
        value < 10,
    ensures
        text@ == digit_text(value as nat),
{
    let digit = value;
    if digit == 0 {
        "0"
    } else if digit == 1 {
        "1"
    } else if digit == 2 {
        "2"
    } else if digit == 3 {
        "3"
    } else if digit == 4 {
        "4"
    } else if digit == 5 {
        "5"
    } else if digit == 6 {
        "6"
    } else if digit == 7 {
        "7"
    } else if digit == 8 {
        "8"
    } else {
        "9"
    }
}

/// Writes a number as a decimal numeral.
pub fn decimal(number: u64) -> (text: String)
    ensures
        text@ == decimal_text(number as nat),
    decreases number,
{
    if number < 10 {
        String::from_str(digit(number))
    } else {
        let mut text = decimal(number / 10);
        text.append(digit(number % 10));
        text
    }
}

/// A line without the carriage return that may end it.
pub open spec fn without_return(line: Seq<char>) -> Seq<char> {
    if line.len() > 0 && line.last() == '\r' {
        line.drop_last()
    } else {
        line
    }
}

/// The lines of `text` from the position `from` on.
pub open spec fn lines_from(text: Seq<char>, from: int) -> Seq<Seq<char>>
    decreases text.len() - from,
{
    if from < 0 || from >= text.len() {
        Seq::empty()
    } else {
        let end = find_from(text, '\n', from);
        if end >= text.len() {
            seq![text.subrange(from, text.len() as int)]
        } else {
            proof {
                lemma_find_from(text, '\n', from);
            }
            seq![without_return(text.subrange(from, end))] + lines_from(text, end + 1)
        }
    }
}

/// The lines of a text.
///
/// A line ends at a line feed, or at the end of the text. The line feed is no part of the
/// line, and neither is a carriage return just before it. A text that ends in a line feed
/// has no empty line after it, and the empty text has no line. An empty line between two
/// line feeds is a line.
pub open spec fn lines_of(text: Seq<char>) -> Seq<Seq<char>> {
    lines_from(text, 0)
}

/// Splits a text into its lines.
pub fn lines(text: &str) -> (lines: Vec<String>)
    ensures
        lines.deep_view() == lines_of(text@),
{
    let length = text.unicode_len();
    let mut lines: Vec<String> = Vec::new();
    let mut from: usize = 0;
    while from < length
        invariant
            from <= length,
            length == text@.len(),
            lines.deep_view() + lines_from(text@, from as int) == lines_of(text@),
        decreases length - from,
    {
        let ghost before = lines.deep_view();
        let end = find_char(text, '\n', from);
        proof {
            lemma_find_from(text@, '\n', from as int);
        }
        if end >= length {
            lines.push(slice(text, from, length));
            assert(lines.deep_view() =~= before + seq![text@.subrange(from as int, length as int)]);
            from = length;
        } else {
            let line = if end > from && text.get_char(end - 1) == '\r' {
                proof {
                    let whole = text@.subrange(from as int, end as int);
                    assert(whole.last() == text@[end - 1]);
                    assert(whole.drop_last() =~= text@.subrange(from as int, end - 1));
                }
                slice(text, from, end - 1)
            } else {
                proof {
                    let whole = text@.subrange(from as int, end as int);
                    if whole.len() > 0 {
                        assert(whole.last() == text@[end - 1]);
                    }
                }
                slice(text, from, end)
            };
            lines.push(line);
            assert(lines.deep_view() =~= before + seq![
                without_return(text@.subrange(from as int, end as int)),
            ]);
            from = end + 1;
        }
    }
    assert(lines_from(text@, from as int) =~= Seq::<Seq<char>>::empty());
    lines
}

} // verus!
