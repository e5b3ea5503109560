//! What texts mean, and how they are written.
use crate::text::DATE_BYTES;
use vstd::prelude::*;

verus! {

/// A single character is a number exactly if it is a decimal digit, and then it is that
/// digit. The empty text is no number.
pub proof fn law_one_digit(c: char)
    ensures
        '0' <= c <= '9' ==> crate::text::usize_of(seq![c]) == Some((c as nat - 48) as usize),
        !('0' <= c <= '9') ==> crate::text::usize_of(seq![c]) is None,
        crate::text::usize_of(seq![]) is None,
{
    let s = seq![c];
    assert(s.skip(1).len() == 0);
    assert(s.drop_last() =~= Seq::<char>::empty());
    assert(crate::text::digits_value(s.drop_last()) == 0);
    assert(s[0] == c);
    if '0' <= c <= '9' {
        assert(crate::text::unsigned_part(s) == s);
        assert(crate::text::all_digits(s));
        assert(crate::text::digits_value(s) == (c as nat - 48) as nat);
    } else if c != '+' {
        assert(crate::text::unsigned_part(s) == s);
        assert(!crate::text::all_digits(s)) by {
            assert(!crate::text::is_digit(s[0]));
        }
    }
}

/// A further digit makes a number ten times as large and adds the digit, as long as the
/// result can be held; else the text is no number any more.
pub proof fn law_further_digit(s: Seq<char>, n: usize, c: char)
    requires
        crate::text::usize_of(s) == Some(n),
        '0' <= c <= '9',
    ensures
        ({
            let value = n * 10 + (c as nat - 48);
            &&& value <= usize::MAX ==> crate::text::usize_of(s.push(c)) == Some(value as usize)
            &&& value > usize::MAX ==> crate::text::usize_of(s.push(c)) is None
        }),
{
    let d = crate::text::unsigned_part(s);
    let e = crate::text::unsigned_part(s.push(c));
    assert(s.push(c)[0] == s[0]);
    assert(e =~= d.push(c));
    assert(e.drop_last() =~= d);
    assert forall|i: int| 0 <= i < e.len() implies crate::text::is_digit(#[trigger] e[i]) by {
        if i < d.len() {
            assert(e[i] == d[i]);
        }
    }
}

/// A text that is no number does not become one by a further character, unless it was
/// empty or a plus sign alone.
pub proof fn law_no_number_stays_none(s: Seq<char>, c: char)
    requires
        crate::text::usize_of(s) is None,
        s.len() > 1 || s.len() == 1 && s[0] != '+',
    ensures
        crate::text::usize_of(s.push(c)) is None,
{
    let d = crate::text::unsigned_part(s);
    let e = crate::text::unsigned_part(s.push(c));
    assert(s.push(c)[0] == s[0]);
    assert(e =~= d.push(c));
    assert(e.drop_last() =~= d);
    assert(d.len() > 0);
    if crate::text::all_digits(e) {
        assert forall|i: int| 0 <= i < d.len() implies crate::text::is_digit(
            #[trigger] d[i],
        ) by {
            assert(e[i] == d[i]);
        }
        assert(crate::text::digits_value(e) >= crate::text::digits_value(d));
    }
}

/// One plus sign may stand before a number. Any other character that is no digit makes
/// the text no number, wherever it is.
pub proof fn law_signs_and_strangers(s: Seq<char>, i: int)
    ensures
        s.len() > 0 && s[0] != '+' ==> crate::text::usize_of(seq!['+'] + s)
            == crate::text::usize_of(s),
        s.len() > 0 && s[0] == '+' ==> crate::text::usize_of(seq!['+'] + s) is None,
        s.len() == 0 ==> crate::text::usize_of(seq!['+'] + s) is None,
        0 <= i < s.len() && !('0' <= s[i] <= '9') && !(i == 0 && s[i] == '+')
            ==> crate::text::usize_of(s) is None,
{
    let signed = seq!['+'] + s;
    assert(signed[0] == '+');
    assert(signed.skip(1) =~= s);
    assert(crate::text::unsigned_part(signed) == s);
    if s.len() > 0 && s[0] == '+' {
        assert(!crate::text::is_digit(s[0]));
    }
    if 0 <= i < s.len() && !('0' <= s[i] <= '9') && !(i == 0 && s[i] == '+') {
        let d = crate::text::unsigned_part(s);
        if s[0] == '+' {
            assert(d[i - 1] == s[i]);
            assert(!crate::text::is_digit(d[i - 1]));
        } else {
            assert(!crate::text::is_digit(d[i]));
        }
    }
}

/// A number below ten is written as its digit. Any other is written as the number
/// without its last digit is, followed by that digit.
pub proof fn law_decimal(n: nat, d: nat)
    requires
        d < 10,
    ensures
        crate::text::digits(d) == seq![(48 + d) as char],
        n > 0 ==> crate::text::digits(n * 10 + d) == crate::text::digits(n).push(
            (48 + d) as char,
        ),
{
    if n > 0 {
        assert((n * 10 + d) / 10 == n);
        assert((n * 10 + d) % 10 == d);
    }
}

/// A text that is aligned to the right fills the width, if it is no longer than that.
/// It comes last, with nothing but spaces before it.
pub proof fn law_right_aligned(s: Seq<char>, width: nat)
    ensures
        ({
            let aligned = crate::text::right_aligned(s, width);
            let start = aligned.len() - s.len();
            &&& s.len() <= width ==> aligned.len() == width
            &&& s.len() > width ==> aligned == s
            &&& start >= 0
            &&& aligned.skip(start) == s
            &&& forall|i: int| 0 <= i < start ==> #[trigger] aligned[i] == ' '
        }),
{
    let aligned = crate::text::right_aligned(s, width);
    assert(aligned.skip(aligned.len() - s.len()) =~= s);
}

/// Of no bodies, nothing is joined; one stays as it is; a further one comes after the
/// others, with the glue before it.
pub proof fn law_joined(parts: Seq<Seq<char>>, part: Seq<char>, glue: Seq<char>)
    ensures
        crate::text::joined(seq![], glue).len() == 0,
        crate::text::joined(seq![part], glue) == part,
        parts.len() > 0 ==> crate::text::joined(parts.push(part), glue) == crate::text::joined(
            parts,
            glue,
        ) + glue + part,
{
    assert(parts.push(part).drop_last() =~= parts);
}

/// A date can be shortened if it has fewer bytes than come before the cut, or if no
/// character straddles the cut. It stays as it is in the first case. In the second, its
/// short form has as many characters as take up the bytes before the cut, which are those
/// of the date in their order, but with a space for each `T`.
pub proof fn law_date_is_cut(date: Seq<char>)
    ensures
        ({
            let bytes = vstd::utf8::encode_utf8(date);
            let short = crate::text::short_date(date);
            &&& crate::text::can_shorten(date) <==> bytes.len() < 16
                || vstd::utf8::is_char_boundary(bytes, 16)
            &&& bytes.len() < 16 ==> short == date
            &&& bytes.len() >= 16 && vstd::utf8::is_char_boundary(bytes, 16) ==> {
                &&& short.len() <= date.len()
                &&& vstd::utf8::encode_utf8(date.take(short.len() as int)) == bytes.take(16)
                &&& forall|i: int|
                    0 <= i < short.len() ==> #[trigger] short[i] == (if date[i] == 'T' {
                        ' '
                    } else {
                        date[i]
                    })
            }
        }),
        DATE_BYTES == 16,
{
    let bytes = vstd::utf8::encode_utf8(date);
    let short = crate::text::short_date(date);
    vstd::utf8::encode_utf8_valid_utf8(date);
    if bytes.len() >= 16 && vstd::utf8::is_char_boundary(bytes, 16) {
        crate::text::law_short_date(date);
        vstd::utf8::encode_utf8_decode_utf8(date);
        vstd::utf8::valid_utf8_split(bytes, 16);
        vstd::utf8::decode_utf8_split(bytes, 16);
        assert(bytes.take(16) =~= bytes.subrange(0, 16));
        let head = vstd::utf8::decode_utf8(bytes.take(16));
        vstd::utf8::decode_utf8_encode_utf8(bytes.take(16));
        assert(date.take(short.len() as int) =~= head);
    }
}

} // verus!
