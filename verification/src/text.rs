//! Text: decimal numbers, padding, joining and the short form of a date.
use vstd::prelude::*;
use vstd::string::{StrSliceExecFns, StringExecFns};

verus! {

/// The character of one decimal digit.
pub open spec fn digit_char(d: nat) -> char {
    (48 + d) as char
}

/// The shortest decimal form of a number.
pub open spec fn digits(n: nat) -> Seq<char>
    decreases n,
{
    if n < 10 {
        seq![digit_char(n)]
    } else {
        digits(n / 10).push(digit_char(n % 10))
    }
}

/// Writes one digit.
fn digit(d: usize) -> (s: &'static str)
    requires
        d < 10,
    ensures
        s@ == seq![digit_char(d as nat)],
{
    proof {
        reveal_strlit("0");
        reveal_strlit("1");
        reveal_strlit("2");
        reveal_strlit("3");
        reveal_strlit("4");
        reveal_strlit("5");
        reveal_strlit("6");
        reveal_strlit("7");
        reveal_strlit("8");
        reveal_strlit("9");
    }
    match d {
        0 => "0",
        1 => "1",
        2 => "2",
        3 => "3",
        4 => "4",
        5 => "5",
        6 => "6",
        7 => "7",
        8 => "8",
        _ => "9",
    }
}

/// Writes a number in decimal.
pub fn decimal(n: usize) -> (s: String)
    ensures
        s@ == digits(n as nat),
    decreases n,
{
    if n < 10 {
        digit(n).to_string()
    } else {
        let mut s = decimal(n / 10);
        s.append(digit(n % 10));
        s
    }
}

/// Whether a character is an ASCII decimal digit.
pub open spec fn is_digit(c: char) -> bool {
    '0' <= c <= '9'
}

/// The number that a sequence of decimal digits stands for.
pub open spec fn digits_value(s: Seq<char>) -> nat
    decreases s.len(),
{
    if s.len() == 0 {
        0
    } else {
        digits_value(s.drop_last()) * 10 + (s.last() as nat - 48) as nat
    }
}

/// The digits of a number that may start with one plus sign.
pub open spec fn unsigned_part(s: Seq<char>) -> Seq<char> {
    if s.len() > 0 && s[0] == '+' {
        s.skip(1)
    } else {
        s
    }
}

/// Whether a text holds decimal digits only.
pub open spec fn all_digits(s: Seq<char>) -> bool {
    forall|i: int| 0 <= i < s.len() ==> is_digit(#[trigger] s[i])
}

/// What a text means as a `usize`: an optional plus sign, then at least one
/// decimal digit and nothing else, of a value that the type can hold.
pub open spec fn usize_of(s: Seq<char>) -> Option<usize> {
    let d = unsigned_part(s);
    if d.len() > 0 && all_digits(d) && digits_value(d) <= usize::MAX {
        Some(digits_value(d) as usize)
    } else {
        None
    }
}

/// A longer run of digits stands for a number that is no smaller.
proof fn lemma_digits_value_prefix(s: Seq<char>, i: int)
    requires
        0 <= i <= s.len(),
    ensures
        digits_value(s.take(i)) <= digits_value(s),
    decreases s.len() - i,
{
    if i < s.len() {
        lemma_digits_value_prefix(s, i + 1);
        assert(s.take(i + 1).drop_last() =~= s.take(i));
    } else {
        assert(s.take(i) =~= s);
    }
}

/// Reads a decimal number.
pub fn parse_usize(s: &str) -> (n: Option<usize>)
    ensures
        n == usize_of(s@),
{
    let len: usize = s.unicode_len();
    let start: usize = if len > 0 && s.get_char(0) == '+' { 1 } else { 0 };
    let ghost d = unsigned_part(s@);
    assert(d =~= s@.skip(start as int));
    if start == len {
        return None;
    }
    let mut value: usize = 0;
    let mut i: usize = start;
    assert(d.take(0) =~= Seq::<char>::empty());
    while i < len
        invariant
            start <= i <= len,
            start <= 1,
            len == s@.len(),
            d == s@.skip(start as int),
            d == unsigned_part(s@),
            value == digits_value(d.take(i - start)),
            forall|j: int| 0 <= j < i - start ==> is_digit(#[trigger] d[j]),
        decreases len - i,
    {
        let c = s.get_char(i);
        assert(c == d[i - start]);
        if c < '0' || '9' < c {
            assert(!all_digits(d));
            return None;
        }
        let digit: usize = c as usize - 48;
        proof {
            assert(d.take(i - start + 1).drop_last() =~= d.take(i - start));
            lemma_digits_value_prefix(d, i - start + 1);
        }
        match value.checked_mul(10) {
            None => {
                return None;
            },
            Some(tens) => match tens.checked_add(digit) {
                None => {
                    return None;
                },
                Some(sum) => {
                    value = sum;
                },
            },
        }
        i = i + 1;
    }
    assert(d.take(len - start) =~= d);
    Some(value)
}

/// A text right-aligned in a field of the given width, filled up with spaces.
pub open spec fn right_aligned(s: Seq<char>, width: nat) -> Seq<char> {
    if s.len() < width {
        Seq::new((width - s.len()) as nat, |i: int| ' ') + s
    } else {
        s
    }
}

/// Right-aligns a text in a field of the given width.
pub fn align_right(s: &str, width: usize) -> (padded: String)
    ensures
        padded@ == right_aligned(s@, width as nat),
{
    proof {
        reveal_strlit(" ");
    }
    let len: usize = s.unicode_len();
    let mut padded = String::new();
    let mut i: usize = len;
    while i < width
        invariant
            len == s@.len(),
            len <= i,
            i == len || i <= width,
            padded@ == Seq::new((i - len) as nat, |i: int| ' '),
            " "@ == seq![' '],
        decreases width - i,
    {
        padded.append(" ");
        i = i + 1;
    }
    padded.append(s);
    assert(padded@ =~= right_aligned(s@, width as nat));
    padded
}

/// The texts one after the other, with `glue` between each two of them.
pub open spec fn joined(parts: Seq<Seq<char>>, glue: Seq<char>) -> Seq<char>
    decreases parts.len(),
{
    if parts.len() == 0 {
        seq![]
    } else if parts.len() == 1 {
        parts[0]
    } else {
        joined(parts.drop_last(), glue) + glue + parts.last()
    }
}

/// The texts of a list of strings.
pub open spec fn texts(parts: Seq<String>) -> Seq<Seq<char>> {
    parts.map_values(|s: String| s@)
}

/// Joins the bodies of messages, with one empty line between each two of them.
pub fn join_bodies(bodies: &Vec<String>) -> (joint: String)
    ensures
        joint@ == joined(texts(bodies@), "\n\n"@),
{
    let mut joint = String::new();
    let mut i: usize = 0;
    assert(texts(bodies@).take(0) =~= Seq::empty());
    while i < bodies.len()
        invariant
            i <= bodies@.len(),
            joint@ == joined(texts(bodies@).take(i as int), "\n\n"@),
        decreases bodies@.len() - i,
    {
        let ghost before = texts(bodies@).take(i as int);
        let ghost after = texts(bodies@).take(i + 1);
        assert(after.drop_last() =~= before);
        if i > 0 {
            joint.append("\n\n");
        }
        joint.append(bodies[i].as_str());
        i = i + 1;
    }
    assert(texts(bodies@).take(i as int) =~= texts(bodies@));
    joint
}

/// Where a date is cut, in bytes: behind its minutes.
pub const DATE_BYTES: usize = 16;

/// Whether a date can be cut behind its minutes: it is short enough to stay
/// whole, or no character straddles the cut.
pub open spec fn can_shorten(date: Seq<char>) -> bool {
    let bytes = vstd::utf8::encode_utf8(date);
    bytes.len() >= DATE_BYTES ==> vstd::utf8::is_char_boundary(bytes, DATE_BYTES as int)
}

/// The short form of a date: what comes before the cut, with each `T` turned
/// into a space. A date that does not reach the cut stays as it is.
pub open spec fn short_date(date: Seq<char>) -> Seq<char> {
    let bytes = vstd::utf8::encode_utf8(date);
    if bytes.len() >= DATE_BYTES {
        vstd::utf8::decode_utf8(bytes.take(DATE_BYTES as int)).map_values(
            |c: char| if c == 'T' { ' ' } else { c },
        )
    } else {
        date
    }
}

/// Shortens a date for display.
pub fn date_time(date: &str) -> (short: String)
    requires
        can_shorten(date@),
    ensures
        short@ == short_date(date@),
{
    if date.as_bytes().len() < DATE_BYTES {
        return date.to_string();
    }
    let head = date.split_at(DATE_BYTES).0;
    proof {
        reveal_strlit(" ");
        vstd::utf8::encode_utf8_decode_utf8(head@);
        assert(vstd::utf8::encode_utf8(head@) =~= vstd::utf8::encode_utf8(date@).take(
            DATE_BYTES as int,
        ));
    }
    let len: usize = head.unicode_len();
    let mut short = String::new();
    let mut i: usize = 0;
    while i < len
        invariant
            i <= len,
            len == head@.len(),
            " "@ == seq![' '],
            short@ == head@.take(i as int).map_values(|c: char| if c == 'T' { ' ' } else { c }),
        decreases len - i,
    {
        if head.get_char(i) == 'T' {
            short.append(" ");
        } else {
            short.append(head.substring_char(i, i + 1));
        }
        i = i + 1;
    }
    assert(head@.take(len as int) =~= head@);
    short
}

/// The decimal form of a number holds digits only, and stands for the number.
proof fn lemma_digits(n: nat)
    ensures
        digits(n).len() > 0,
        all_digits(digits(n)),
        digits_value(digits(n)) == n,
    decreases n,
{
    if n < 10 {
        assert(digits(n).drop_last() =~= Seq::empty());
        assert(digits_value(digits(n).drop_last()) == 0);
    } else {
        lemma_digits(n / 10);
        assert(digits(n).drop_last() =~= digits(n / 10));
    }
}

/// A number that is written in decimal reads back as itself.
pub proof fn law_decimal_reads_back(n: usize)
    ensures
        usize_of(digits(n as nat)) == Some(n),
{
    lemma_digits(n as nat);
    assert(is_digit(digits(n as nat)[0]));
}

/// The short form of a date is a beginning of the date, character by character,
/// but for each `T`, which is a space in it. A date in ASCII can always be cut,
/// and its short form has as many characters as the cut has bytes before it.
pub proof fn law_short_date(date: Seq<char>)
    ensures
        can_shorten(date) && vstd::utf8::encode_utf8(date).len() >= DATE_BYTES ==> {
            let short = short_date(date);
            &&& short.len() <= date.len()
            &&& forall|i: int|
                0 <= i < short.len() ==> #[trigger] short[i] == (if date[i] == 'T' {
                    ' '
                } else {
                    date[i]
                })
        },
        vstd::utf8::is_ascii_chars(date) ==> can_shorten(date) && (date.len() >= DATE_BYTES
            ==> short_date(date).len() == DATE_BYTES),
{
    let bytes = vstd::utf8::encode_utf8(date);
    let cut = DATE_BYTES as int;
    vstd::utf8::encode_utf8_valid_utf8(date);
    vstd::utf8::encode_utf8_decode_utf8(date);
    if vstd::utf8::is_ascii_chars(date) {
        vstd::utf8::is_ascii_chars_encode_utf8(date);
        if date.len() > cut {
            assert(bytes[cut] == date[cut] as u8);
            assert(!vstd::utf8::is_continuation_byte(bytes[cut]));
            vstd::utf8::is_char_boundary_iff_not_is_continuation_byte(bytes, cut);
        } else if date.len() == cut {
            vstd::utf8::is_char_boundary_start_end_of_seq(bytes);
        }
        if date.len() >= cut {
            let head = date.take(cut);
            vstd::utf8::is_ascii_chars_encode_utf8(head);
            vstd::utf8::encode_utf8_decode_utf8(head);
            assert(vstd::utf8::encode_utf8(head) =~= bytes.take(cut)) by {
                assert forall|i: int| 0 <= i < cut implies vstd::utf8::encode_utf8(head)[i]
                    == bytes[i] by {
                    assert(head[i] == date[i]);
                }
            }
        }
    }
    if can_shorten(date) && bytes.len() >= cut {
        vstd::utf8::decode_utf8_split(bytes, cut);
        assert(bytes.take(cut) =~= bytes.subrange(0, cut));
    }
}

} // verus!
