//! Text of the panels: numbers in decimal, padded to a width, and joined
//! with fixed words. Every function states the exact characters it returns.

use vstd::prelude::*;
use vstd::utf8::encode_utf8;

verus! {

/// The character of one decimal digit.
pub open spec fn digit_char(d: nat) -> char {
    if d == 0 {
        '0'
    } else if d == 1 {
        '1'
    } else if d == 2 {
        '2'
    } else if d == 3 {
        '3'
    } else if d == 4 {
        '4'
    } else if d == 5 {
        '5'
    } else if d == 6 {
        '6'
    } else if d == 7 {
        '7'
    } else if d == 8 {
        '8'
    } else {
        '9'
    }
}

/// The decimal digits of `n`, most significant first, without leading zeros;
/// `0` is written as one digit.
pub open spec fn decimal_digits(n: nat) -> Seq<char>
    decreases n,
{
    if n < 10 {
        seq![digit_char(n)]
    } else {
        decimal_digits(n / 10).push(digit_char(n % 10))
    }
}

/// `text` preceded by as many copies of `fill` as it takes to reach `width`
/// characters; a text that is already that long is left as it is.
pub open spec fn padded(text: Seq<char>, width: nat, fill: char) -> Seq<char> {
    if text.len() >= width {
        text
    } else {
        Seq::new((width - text.len()) as nat, |i: int| fill) + text
    }
}

fn digit_text(d: u64) -> (text: &'static str)
    requires
        d < 10,
    ensures
        text@ == seq![digit_char(d as nat)],
{
    proof {
        reveal_strlit("0");
        reveal_strlit("1");
        reveal_strlit("2");
        reveal_strlit("3");
        reveal_strlit("4");
        reveal_strlit("5");
        reveal_strlit("6");
        reveal_strlit("7");
        reveal_strlit("8");
        reveal_strlit("9");
    }
    let text = if d == 0 {
        "0"
    } else if d == 1 {
        "1"
    } else if d == 2 {
        "2"
    } else if d == 3 {
        "3"
    } else if d == 4 {
        "4"
    } else if d == 5 {
        "5"
    } else if d == 6 {
        "6"
    } else if d == 7 {
        "7"
    } else if d == 8 {
        "8"
    } else {
        "9"
    };
    assert(text@ =~= seq![digit_char(d as nat)]);
    text
}

/// Writes `n` in decimal.
pub fn decimal(n: u64) -> (text: String)
    ensures
        text@ == decimal_digits(n as nat),
    decreases n,
{
    if n < 10 {
        String::from_str(digit_text(n))
    } else {
        let mut text = decimal(n / 10);
        text.append(digit_text(n % 10));
        text
    }
}

/// Puts copies of the one character of `fill` before `text` until it is
/// `width` characters long.
fn pad(text: String, width: usize, fill: &str) -> (out: String)
    requires
        fill@.len() == 1,
    ensures
        out@ == padded(text@, width as nat, fill@[0]),
{
    let len = text.as_str().unicode_len();
    if len >= width {
        return text;
    }
    let missing = width - len;
    let mut out = String::new();
    let mut done: usize = 0;
    while done < missing
        invariant
            done <= missing,
            fill@.len() == 1,
            out@ == Seq::new(done as nat, |i: int| fill@[0]),
        decreases missing - done,
    {
        out.append(fill);
        done = done + 1;
        assert(out@ =~= Seq::new(done as nat, |i: int| fill@[0]));
    }
    out.append(text.as_str());
    out
}

/// Right-aligns `text` in a field of `width` characters, as `{:>width}` does.
pub fn pad_with_spaces(text: String, width: usize) -> (out: String)
    ensures
        out@ == padded(text@, width as nat, ' '),
{
    proof {
        reveal_strlit(" ");
    }
    pad(text, width, " ")
}

/// Writes `n` in decimal with at least two digits, as `{:02}` does.
pub fn two_digits(n: u64) -> (out: String)
    ensures
        out@ == padded(decimal_digits(n as nat), 2, '0'),
{
    proof {
        reveal_strlit("0");
    }
    pad(decimal(n), 2, "0")
}

/// Whether the bytes `a` come before the bytes `b` in the dictionary: at
/// the first place where they differ `a` has the smaller byte, or `a` ends
/// there and `b` goes on.
pub open spec fn bytes_before(a: Seq<u8>, b: Seq<u8>) -> bool
    decreases a.len(),
{
    if b.len() == 0 {
        false
    } else if a.len() == 0 {
        true
    } else if a[0] != b[0] {
        a[0] < b[0]
    } else {
        bytes_before(a.drop_first(), b.drop_first())
    }
}

/// Whether the text `a` comes before the text `b`: the order of strings,
/// which is the dictionary order of their UTF-8 bytes.
pub open spec fn text_before(a: Seq<char>, b: Seq<char>) -> bool {
    bytes_before(encode_utf8(a), encode_utf8(b))
}

/// The dictionary order never puts two texts before each other, and where
/// it puts neither `a` before `b` nor `b` before `c`, it does not put `a`
/// before `c`.
pub proof fn lemma_bytes_order_is_consistent(a: Seq<u8>, b: Seq<u8>, c: Seq<u8>)
    ensures
        !(bytes_before(a, b) && bytes_before(b, a)),
        !bytes_before(a, b) && !bytes_before(b, c) ==> !bytes_before(a, c),
    decreases a.len(),
{
    if a.len() > 0 && b.len() > 0 {
        if c.len() > 0 {
            lemma_bytes_order_is_consistent(a.drop_first(), b.drop_first(), c.drop_first());
        } else {
            lemma_bytes_order_is_consistent(a.drop_first(), b.drop_first(), c);
        }
    }
}

/// Decides whether `a` comes before `b` as strings are ordered.
pub fn is_text_before(a: &str, b: &str) -> (yes: bool)
    ensures
        yes == text_before(a@, b@),
{
    let left = a.as_bytes();
    let right = b.as_bytes();
    let mut at: usize = 0;
    assert(left@.skip(0) =~= left@);
    assert(right@.skip(0) =~= right@);
    while at < left.len() && at < right.len()
        invariant
            at <= left@.len(),
            at <= right@.len(),
            left@ == encode_utf8(a@),
            right@ == encode_utf8(b@),
            bytes_before(left@, right@) == bytes_before(left@.skip(at as int), right@.skip(at as int)),
        decreases left@.len() - at,
    {
        assert(left@.skip(at as int).drop_first() =~= left@.skip(at + 1));
        assert(right@.skip(at as int).drop_first() =~= right@.skip(at + 1));
        if left[at] != right[at] {
            return left[at] < right[at];
        }
        at = at + 1;
    }
    at < right.len()
}

/// The texts of a list of strings.
pub open spec fn texts(lines: Seq<String>) -> Seq<Seq<char>> {
    lines.map_values(|line: String| line@)
}

/// The texts of a list of rows of strings.
pub open spec fn rows_of_texts(rows: Seq<Vec<String>>) -> Seq<Seq<Seq<char>>> {
    rows.map_values(|row: Vec<String>| texts(row@))
}

/// Adding a row to a list adds its texts to the list's texts.
pub proof fn lemma_rows_push(rows: Seq<Vec<String>>, row: Vec<String>)
    ensures
        rows_of_texts(rows.push(row)) == rows_of_texts(rows).push(texts(row@)),
{
    assert(rows_of_texts(rows.push(row)) =~= rows_of_texts(rows).push(texts(row@)));
}

/// A number of seconds as hours, minutes and seconds, each with at least
/// two digits and with colons between them.
pub open spec fn clock_text(seconds: nat) -> Seq<char> {
    padded(decimal_digits(seconds / 60 / 60), 2, '0') + ":"@ + padded(
        decimal_digits(seconds / 60 % 60),
        2,
        '0',
    ) + ":"@ + padded(decimal_digits(seconds % 60), 2, '0')
}

/// Writes a number of seconds as hours, minutes and seconds.
pub fn clock(seconds: u64) -> (text: String)
    ensures
        text@ == clock_text(seconds as nat),
{
    let mut text = two_digits(seconds / 60 / 60);
    text.append(":");
    text.append(two_digits(seconds / 60 % 60).as_str());
    text.append(":");
    text.append(two_digits(seconds % 60).as_str());
    text
}

/// The lines one after the other with a line feed between each two.
pub open spec fn joined_lines(lines: Seq<Seq<char>>) -> Seq<char>
    decreases lines.len(),
{
    if lines.len() == 0 {
        Seq::empty()
    } else if lines.len() == 1 {
        lines[0]
    } else {
        joined_lines(lines.drop_last()) + "\n"@ + lines.last()
    }
}

/// Joins the lines with line feeds.
pub fn join_lines(lines: &Vec<String>) -> (text: String)
    ensures
        text@ == joined_lines(texts(lines@)),
{
    let mut text = String::new();
    let mut done: usize = 0;
    while done < lines.len()
        invariant
            done <= lines@.len(),
            text@ == joined_lines(texts(lines@).take(done as int)),
        decreases lines@.len() - done,
    {
        let ghost upto = texts(lines@).take(done + 1);
        assert(upto.drop_last() =~= texts(lines@).take(done as int));
        assert(upto.last() == lines@[done as int]@);
        if done > 0 {
            text.append("\n");
        }
        text.append(lines[done].as_str());
        done = done + 1;
    }
    assert(texts(lines@).take(done as int) =~= texts(lines@));
    text
}

} // verus!
