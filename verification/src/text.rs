//! Decimal numbers as text, and helpers on byte strings.

use vstd::prelude::*;
use vstd::slice::slice_subrange;
use vstd::string::StringSliceAdditionalSpecFns;

verus! {

/// The character that writes the digit `d`.
pub open spec fn digit_char(d: int) -> char {
    if d == 0 {
        '0'
    } else if d == 1 {
        '1'
    } else if d == 2 {
        '2'
    } else if d == 3 {
        '3'
    } else if d == 4 {
        '4'
    } else if d == 5 {
        '5'
    } else if d == 6 {
        '6'
    } else if d == 7 {
        '7'
    } else if d == 8 {
        '8'
    } else {
        '9'
    }
}

/// Decimal notation of a natural number, without leading zeros.
pub open spec fn decimal_digits(n: nat) -> Seq<char>
    decreases n,
{
    if n < 10 {
        seq![digit_char(n as int)]
    } else {
        decimal_digits(n / 10).push(digit_char((n % 10) as int))
    }
}

/// Decimal notation of an integer: a minus sign in front of a negative one.
pub open spec fn decimal_text(n: int) -> Seq<char> {
    if n < 0 {
        seq!['-'] + decimal_digits((-n) as nat)
    } else {
        decimal_digits(n as nat)
    }
}

/// Whether `text` can stand in a command: ASCII characters only, none of them
/// the `~` that ends a command on the wire.
pub open spec fn is_plain(text: Seq<char>) -> bool {
    forall|i: int| 0 <= i < text.len() ==> '\0' <= #[trigger] text[i] <= '\u{7f}' && text[i] != '~'
}

/// Plain texts joined are plain.
pub proof fn lemma_plain_concat(a: Seq<char>, b: Seq<char>)
    requires
        is_plain(a),
        is_plain(b),
    ensures
        is_plain(a + b),
{
    assert forall|i: int| 0 <= i < (a + b).len() implies '\0' <= #[trigger] (a + b)[i] <= '\u{7f}'
        && (a + b)[i] != '~' by {
        if i < a.len() {
            assert((a + b)[i] == a[i]);
        } else {
            assert((a + b)[i] == b[i - a.len()]);
        }
    }
}

/// The decimal notation of a natural number is plain.
pub proof fn lemma_decimal_digits_plain(n: nat)
    ensures
        is_plain(decimal_digits(n)),
    decreases n,
{
    if n >= 10 {
        lemma_decimal_digits_plain(n / 10);
        lemma_plain_concat(decimal_digits(n / 10), seq![digit_char((n % 10) as int)]);
        assert(decimal_digits(n) =~= decimal_digits(n / 10) + seq![digit_char((n % 10) as int)]);
    }
}

/// The decimal notation of an integer is plain.
pub proof fn lemma_decimal_text_plain(n: int)
    ensures
        is_plain(decimal_text(n)),
{
    if n < 0 {
        lemma_decimal_digits_plain((-n) as nat);
        lemma_plain_concat(seq!['-'], decimal_digits((-n) as nat));
    } else {
        lemma_decimal_digits_plain(n as nat);
    }
}

/// The digit `d` as text.
fn digit_str(d: u8) -> (s: &'static str)
    requires
        d < 10,
    ensures
        s@ == seq![digit_char(d as int)],
{
    proof {
        reveal_strlit("0");
        reveal_strlit("1");
        reveal_strlit("2");
        reveal_strlit("3");
        reveal_strlit("4");
        reveal_strlit("5");
        reveal_strlit("6");
        reveal_strlit("7");
        reveal_strlit("8");
        reveal_strlit("9");
    }
    let s = if d == 0 {
        "0"
    } else if d == 1 {
        "1"
    } else if d == 2 {
        "2"
    } else if d == 3 {
        "3"
    } else if d == 4 {
        "4"
    } else if d == 5 {
        "5"
    } else if d == 6 {
        "6"
    } else if d == 7 {
        "7"
    } else if d == 8 {
        "8"
    } else {
        "9"
    };
    assert(s@ =~= seq![digit_char(d as int)]);
    s
}

/// Appends the decimal notation of `n` to `out`.
fn push_unsigned(out: &mut String, n: u64)
    ensures
        final(out)@ == old(out)@ + decimal_digits(n as nat),
    decreases n,
{
    if n >= 10 {
        push_unsigned(out, n / 10);
    }
    out.append(digit_str((n % 10) as u8));
    assert(out@ =~= old(out)@ + decimal_digits(n as nat));
}

/// Appends the decimal notation of `value` to `out`.
pub fn push_decimal(out: &mut String, value: i64)
    ensures
        final(out)@ == old(out)@ + decimal_text(value as int),
        is_plain(old(out)@) ==> is_plain(final(out)@),
{
    proof {
        lemma_decimal_text_plain(value as int);
        if is_plain(old(out)@) {
            lemma_plain_concat(old(out)@, decimal_text(value as int));
        }
    }
    if value < 0 {
        proof {
            reveal_strlit("-");
        }
        out.append("-");
        let magnitude: u64 = ((-(value + 1)) as u64) + 1;
        push_unsigned(out, magnitude);
        assert(out@ =~= old(out)@ + decimal_text(value as int));
    } else {
        push_unsigned(out, value as u64);
    }
}

/// Whether two byte strings hold the same bytes.
pub fn bytes_equal(a: &[u8], b: &[u8]) -> (same: bool)
    ensures
        same == (a@ == b@),
{
    if a.len() != b.len() {
        return false;
    }
    let mut i: usize = 0;
    while i < a.len()
        invariant
            i <= a.len(),
            a.len() == b.len(),
            forall|k: int| 0 <= k < i ==> a@[k] == b@[k],
        decreases a.len() - i,
    {
        if a[i] != b[i] {
            return false;
        }
        i += 1;
    }
    assert(a@ =~= b@);
    true
}

/// Whether `data` begins with `prefix`.
pub fn has_prefix(data: &[u8], prefix: &[u8]) -> (found: bool)
    ensures
        found == prefix@.is_prefix_of(data@),
{
    if prefix.len() > data.len() {
        return false;
    }
    bytes_equal(slice_subrange(data, 0, prefix.len()), prefix)
}

/// Whether `data` ends with `suffix`.
pub fn has_suffix(data: &[u8], suffix: &[u8]) -> (found: bool)
    ensures
        found == suffix@.is_suffix_of(data@),
{
    if suffix.len() > data.len() {
        return false;
    }
    bytes_equal(slice_subrange(data, data.len() - suffix.len(), data.len()), suffix)
}

/// Whether two strings hold the same characters.
pub fn str_equal(a: &str, b: &str) -> (same: bool)
    ensures
        same == (a@ == b@),
{
    proof {
        vstd::utf8::encode_utf8_decode_utf8(a@);
        vstd::utf8::encode_utf8_decode_utf8(b@);
    }
    bytes_equal(a.as_bytes(), b.as_bytes())
}

/// Whether a byte is ASCII white space: a blank, or one of the controls from tab to carriage return.
pub open spec fn is_space(byte: u8) -> bool {
    byte == ' ' as u8 || ('\t' as u8 <= byte && byte <= '\r' as u8)
}

/// Whether a byte is white space or the `~` that ends a message.
pub open spec fn is_padding(byte: u8) -> bool {
    is_space(byte) || byte == '~' as u8
}

/// `data` without the white space it begins with.
pub open spec fn trim_start(data: Seq<u8>) -> Seq<u8>
    decreases data.len(),
{
    if data.len() > 0 && is_space(data[0]) {
        trim_start(data.drop_first())
    } else {
        data
    }
}

/// `data` without the white space it ends with.
pub open spec fn trim_end(data: Seq<u8>) -> Seq<u8>
    decreases data.len(),
{
    if data.len() > 0 && is_space(data.last()) {
        trim_end(data.drop_last())
    } else {
        data
    }
}

/// `data` without the white space at either end.
pub open spec fn trim(data: Seq<u8>) -> Seq<u8> {
    trim_end(trim_start(data))
}

/// `data` without the white space and terminators it ends with.
pub open spec fn strip_padding(data: Seq<u8>) -> Seq<u8>
    decreases data.len(),
{
    if data.len() > 0 && is_padding(data.last()) {
        strip_padding(data.drop_last())
    } else {
        data
    }
}

/// The fields of `data`: the stretches between one `separator` and the next.
/// There is one field more than there are separators, and a field may be empty.
pub open spec fn split_fields(data: Seq<u8>, separator: u8) -> Seq<Seq<u8>>
    decreases data.len(),
{
    if data.len() == 0 {
        seq![Seq::empty()]
    } else {
        let fields = split_fields(data.drop_last(), separator);
        if data.last() == separator {
            fields.push(Seq::empty())
        } else {
            fields.drop_last().push(fields.last().push(data.last()))
        }
    }
}

/// Whether a byte is a decimal digit.
pub open spec fn is_digit(byte: u8) -> bool {
    '0' as u8 <= byte && byte <= '9' as u8
}

/// Whether `digits` holds decimal digits only.
pub open spec fn all_digits(digits: Seq<u8>) -> bool {
    forall|i: int| 0 <= i < digits.len() ==> is_digit(#[trigger] digits[i])
}

/// The number that a run of decimal digits writes.
pub open spec fn digits_value(digits: Seq<u8>) -> nat
    decreases digits.len(),
{
    if digits.len() == 0 {
        0
    } else {
        (digits_value(digits.drop_last()) * 10 + (digits.last() - '0' as u8)) as nat
    }
}

/// The integer that `text` writes: an optional sign and at least one digit, nothing else.
pub open spec fn integer_value(text: Seq<u8>) -> Option<int> {
    let signed = text.len() > 0 && (text[0] == '-' as u8 || text[0] == '+' as u8);
    let digits = if signed {
        text.drop_first()
    } else {
        text
    };
    if digits.len() > 0 && all_digits(digits) {
        if signed && text[0] == '-' as u8 {
            Some(-(digits_value(digits) as int))
        } else {
            Some(digits_value(digits) as int)
        }
    } else {
        None
    }
}

/// The integer that `text` writes, as far as 32 bits can hold it.
pub open spec fn i32_value(text: Seq<u8>) -> Option<i32> {
    match integer_value(text) {
        Some(value) => if i32::MIN <= value <= i32::MAX {
            Some(value as i32)
        } else {
            None
        },
        None => None,
    }
}

/// Whether a byte is ASCII white space.
pub fn byte_is_space(byte: u8) -> (space: bool)
    ensures
        space == is_space(byte),
{
    byte == ' ' as u8 || ('\t' as u8 <= byte && byte <= '\r' as u8)
}

/// Cuts the white space off the front of `data`.
pub fn trimmed_start(data: &[u8]) -> (rest: &[u8])
    ensures
        rest@ == trim_start(data@),
{
    let mut start: usize = 0;
    assert(data@.skip(0) =~= data@);
    while start < data.len() && byte_is_space(data[start])
        invariant
            start <= data.len(),
            trim_start(data@) == trim_start(data@.skip(start as int)),
        decreases data.len() - start,
    {
        assert(data@.skip(start as int).drop_first() =~= data@.skip(start + 1));
        start += 1;
    }
    assert(data@.skip(start as int) =~= data@.subrange(start as int, data@.len() as int));
    slice_subrange(data, start, data.len())
}

/// Cuts the white space off the end of `data`.
pub fn trimmed_end(data: &[u8]) -> (rest: &[u8])
    ensures
        rest@ == trim_end(data@),
{
    let mut end: usize = data.len();
    assert(data@.take(end as int) =~= data@);
    while end > 0 && byte_is_space(data[end - 1])
        invariant
            end <= data.len(),
            trim_end(data@) == trim_end(data@.take(end as int)),
        decreases end,
    {
        assert(data@.take(end as int).drop_last() =~= data@.take(end - 1));
        end -= 1;
    }
    assert(data@.take(end as int) =~= data@.subrange(0, end as int));
    slice_subrange(data, 0, end)
}

/// Cuts the white space off both ends of `data`.
pub fn trimmed(data: &[u8]) -> (rest: &[u8])
    ensures
        rest@ == trim(data@),
{
    trimmed_end(trimmed_start(data))
}

/// Cuts the white space and terminators off the end of `data`.
pub fn stripped_of_padding(data: &[u8]) -> (rest: &[u8])
    ensures
        rest@ == strip_padding(data@),
{
    let mut end: usize = data.len();
    assert(data@.take(end as int) =~= data@);
    while end > 0 && (byte_is_space(data[end - 1]) || data[end - 1] == '~' as u8)
        invariant
            end <= data.len(),
            strip_padding(data@) == strip_padding(data@.take(end as int)),
        decreases end,
    {
        assert(data@.take(end as int).drop_last() =~= data@.take(end - 1));
        end -= 1;
    }
    assert(data@.take(end as int) =~= data@.subrange(0, end as int));
    slice_subrange(data, 0, end)
}

/// Whether `bounds` says, field by field, where each field of `data` begins and ends.
pub open spec fn marks_fields(bounds: Seq<(usize, usize)>, data: Seq<u8>, separator: u8) -> bool {
    &&& bounds.len() == split_fields(data, separator).len()
    &&& forall|k: int|
        0 <= k < bounds.len() ==> {
            &&& (#[trigger] bounds[k]).0 <= bounds[k].1 <= data.len()
            &&& data.subrange(bounds[k].0 as int, bounds[k].1 as int) == split_fields(
                data,
                separator,
            )[k]
        }
}

/// Where each field of `data` begins and ends: the first begins at the start, each
/// further one behind the separator that ends the one before, and the last ends at
/// the end.
pub fn field_bounds(data: &[u8], separator: u8) -> (bounds: Vec<(usize, usize)>)
    ensures
        marks_fields(bounds@, data@, separator),
        bounds@.len() > 0,
        bounds@[0].0 == 0,
        bounds@.last().1 == data@.len(),
        forall|k: int|
            0 <= k < bounds@.len() - 1 ==> (#[trigger] bounds@[k + 1]).0 == bounds@[k].1 + 1,
{
    let mut bounds: Vec<(usize, usize)> = Vec::new();
    let mut start: usize = 0;
    let mut i: usize = 0;
    assert(data@.subrange(0, 0) =~= Seq::<u8>::empty());
    while i < data.len()
        invariant
            start <= i <= data.len(),
            bounds@.len() + 1 == split_fields(data@.take(i as int), separator).len(),
            split_fields(data@.take(i as int), separator).last() == data@.subrange(
                start as int,
                i as int,
            ),
            bounds@.len() == 0 ==> start == 0,
            bounds@.len() > 0 ==> bounds@[0].0 == 0 && start == bounds@.last().1 + 1,
            forall|k: int|
                0 <= k < bounds@.len() - 1 ==> (#[trigger] bounds@[k + 1]).0 == bounds@[k].1 + 1,
            forall|k: int|
                0 <= k < bounds@.len() ==> {
                    &&& (#[trigger] bounds@[k]).0 <= bounds@[k].1 <= data@.len()
                    &&& data@.subrange(bounds@[k].0 as int, bounds@[k].1 as int) == split_fields(
                        data@.take(i as int),
                        separator,
                    )[k]
                },
        decreases data.len() - i,
    {
        proof {
            assert(data@.take(i + 1).drop_last() =~= data@.take(i as int));
            assert(data@.take(i + 1).last() == data@[i as int]);
        }
        if data[i] == separator {
            bounds.push((start, i));
            start = i + 1;
            assert(data@.subrange(start as int, i + 1) =~= Seq::<u8>::empty());
        } else {
            assert(data@.subrange(start as int, i + 1) =~= data@.subrange(
                start as int,
                i as int,
            ).push(data@[i as int]));
        }
        i += 1;
    }
    assert(data@.take(i as int) =~= data@);
    bounds.push((start, i));
    bounds
}

/// Reads a signed decimal integer that fits into 32 bits.
pub fn parse_i32(text: &[u8]) -> (value: Option<i32>)
    ensures
        value == i32_value(text@),
{
    if text.len() == 0 {
        return None;
    }
    let negative = text[0] == '-' as u8;
    let signed = negative || text[0] == '+' as u8;
    let digits = if signed {
        slice_subrange(text, 1, text.len())
    } else {
        text
    };
    assert(signed ==> digits@ =~= text@.drop_first());
    let ghost expected = i32_value(text@);
    if digits.len() == 0 {
        return None;
    }
    let mut magnitude: u64 = 0;
    let mut i: usize = 0;
    assert(digits@.take(0) =~= Seq::<u8>::empty());
    while i < digits.len()
        invariant
            i <= digits.len(),
            all_digits(digits@.take(i as int)),
            expected == i32_value(text@),
            !all_digits(digits@) ==> expected is None,
            magnitude <= 0x8000_0001,
            magnitude == if digits_value(digits@.take(i as int)) < 0x8000_0001 {
                digits_value(digits@.take(i as int))
            } else {
                0x8000_0001
            },
        decreases digits.len() - i,
    {
        let byte = digits[i];
        if byte < '0' as u8 || byte > '9' as u8 {
            assert(!is_digit(digits@[i as int]));
            return None;
        }
        proof {
            assert(digits@.take(i + 1).drop_last() =~= digits@.take(i as int));
            assert(digits@.take(i + 1).last() == byte);
            assert forall|k: int| 0 <= k < i + 1 implies is_digit(
                #[trigger] digits@.take(i + 1)[k],
            ) by {
                if k < i {
                    assert(digits@.take(i as int)[k] == digits@.take(i + 1)[k]);
                }
            }
        }
        let next: u64 = magnitude * 10 + ((byte - '0' as u8) as u64);
        magnitude = if next < 0x8000_0001 {
            next
        } else {
            0x8000_0001
        };
        i += 1;
    }
    assert(digits@.take(i as int) =~= digits@);
    if negative {
        if magnitude <= 0x8000_0000 {
            Some((-(magnitude as i64)) as i32)
        } else {
            None
        }
    } else {
        if magnitude <= 0x7fff_ffff {
            Some(magnitude as i32)
        } else {
            None
        }
    }
}

} // verus!
