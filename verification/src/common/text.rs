use vstd::prelude::*;
use vstd::string::*;

verus! {

/// `String::push` appends one character to the end of the string.
pub assume_specification[ String::push ](text: &mut String, character: char)
    ensures
        final(text)@ == old(text)@.push(character),
;

/// What `{:?}` prints for a string: the text between double quotes, with the escapes that
/// the standard library applies. The escaping rules are the standard library's own and are
/// not restated here.
pub uninterp spec fn debug_quoted(text: Seq<char>) -> Seq<char>;

/// Formats `text` with the standard library's `Debug` implementation for `str`, through
/// `format!("{:?}", ..)`. The contract only names the result.
#[verifier::external_body]
pub(crate) fn quote_debug(text: &str) -> (quoted: String)
    ensures
        quoted@ == debug_quoted(text@),
{
    format!("{:?}", text)
}

/// The character that stands for a decimal digit.
pub open spec fn digit_char(digit: int) -> char
    recommends
        0 <= digit < 10,
{
    (('0' as int) + digit) as char
}

/// The decimal digits of a natural number, most significant first, without leading zeros.
pub open spec fn decimal_digits(number: nat) -> Seq<char>
    decreases number,
{
    if number < 10 {
        seq![digit_char(number as int)]
    } else {
        decimal_digits(number / 10).push(digit_char((number % 10) as int))
    }
}

/// The decimal rendering of an integer: a minus sign for a negative number, then its digits.
pub open spec fn decimal(number: int) -> Seq<char> {
    if number < 0 {
        seq!['-'] + decimal_digits((-number) as nat)
    } else {
        decimal_digits(number as nat)
    }
}

/// Whether a character is one of `0` to `9`.
pub open spec fn is_digit(character: char) -> bool {
    '0' <= character <= '9'
}

/// The number that a sequence of decimal digits denotes.
pub open spec fn decimal_value(digits: Seq<char>) -> nat
    decreases digits.len(),
{
    if digits.len() == 0 {
        0
    } else {
        (10 * decimal_value(digits.drop_last()) + (digits.last() as int - '0' as int)) as nat
    }
}

/// Every character of `decimal_digits` is a digit, and reading the digits back gives the
/// number.
pub proof fn lemma_decimal_digits_roundtrip(number: nat)
    ensures
        decimal_digits(number).len() >= 1,
        forall|i: int| 0 <= i < decimal_digits(number).len() ==> is_digit(#[trigger] decimal_digits(number)[i]),
        decimal_value(decimal_digits(number)) == number,
        number > 0 ==> decimal_digits(number)[0] != '0',
    decreases number,
{
    if number < 10 {
        let digits = decimal_digits(number);
        assert(digits.drop_last() =~= Seq::<char>::empty());
        assert(decimal_value(digits.drop_last()) == 0);
    } else {
        lemma_decimal_digits_roundtrip(number / 10);
        let front = decimal_digits(number / 10);
        let digits = decimal_digits(number);
        assert(digits.drop_last() =~= front);
        assert(digits.last() == digit_char((number % 10) as int));
        assert(digits[0] == front[0]);
    }
}

/// Appends the decimal digits of `number` to `text`.
pub fn push_decimal_digits(text: &mut String, number: u64)
    ensures
        final(text)@ == old(text)@ + decimal_digits(number as nat),
    decreases number,
{
    if number >= 10 {
        push_decimal_digits(text, number / 10);
    }
    let digit: u8 = (number % 10) as u8;
    text.push((48u8 + digit) as char);
    proof {
        if number >= 10 {
            assert(text@ =~= old(text)@ + decimal_digits(number as nat));
        } else {
            assert(text@ =~= old(text)@ + decimal_digits(number as nat));
        }
    }
}

/// Appends the decimal rendering of a 32-bit integer to `text`.
pub fn push_decimal_i32(text: &mut String, number: i32)
    ensures
        final(text)@ == old(text)@ + decimal(number as int),
{
    if number < 0 {
        text.push('-');
        let magnitude: u64 = (-(number as i64)) as u64;
        push_decimal_digits(text, magnitude);
        assert(text@ =~= old(text)@ + decimal(number as int));
    } else {
        push_decimal_digits(text, number as u64);
    }
}

/// Appends the decimal rendering of a machine-sized natural number to `text`.
pub fn push_decimal_usize(text: &mut String, number: usize)
    ensures
        final(text)@ == old(text)@ + decimal(number as int),
{
    push_decimal_digits(text, number as u64);
}

/// The items of a list, one after the other, with a comma and a space between two.
pub open spec fn comma_separated(items: Seq<Seq<char>>) -> Seq<char>
    decreases items.len(),
{
    if items.len() == 0 {
        Seq::empty()
    } else if items.len() == 1 {
        items[0]
    } else {
        comma_separated(items.drop_last()) + ", "@ + items.last()
    }
}

/// A list as diagnostics print it: its items between square brackets, with a comma and a
/// space between two.
pub open spec fn bracketed_list(items: Seq<Seq<char>>) -> Seq<char> {
    "["@ + comma_separated(items) + "]"@
}

/// Appends one more item to the text of the first `count` items of a list.
pub(crate) fn push_list_item(text: &mut String, item: &str, Ghost(items): Ghost<Seq<Seq<char>>>, count: usize)
    requires
        count < items.len(),
        item@ == items[count as int],
        old(text)@ == "["@ + comma_separated(items.subrange(0, count as int)),
    ensures
        final(text)@ == "["@ + comma_separated(items.subrange(0, count as int + 1)),
{
    let ghost before = items.subrange(0, count as int);
    let ghost after = items.subrange(0, count as int + 1);
    proof {
        assert(after.drop_last() =~= before);
        assert(after.last() == items[count as int]);
    }
    if count > 0 {
        text.append(", ");
    }
    text.append(item);
    proof {
        if count == 0 {
            assert(comma_separated(before) =~= Seq::<char>::empty());
            assert(text@ =~= "["@ + comma_separated(after));
        } else {
            assert(text@ =~= "["@ + comma_separated(after));
        }
    }
}

} // verus!
