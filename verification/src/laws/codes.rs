//! What numbers stand for: the codes of error signals and the numbers of connections.

use crate::error::SignalErrorCode;
use vstd::prelude::*;

verus! {

/// Whether a text is made of decimal digits, one or more.
pub open spec fn all_digits(text: Seq<char>) -> bool {
    text.len() > 0 && forall|i: int| 0 <= i < text.len() ==> '0' <= #[trigger] text[i] <= '9'
}

/// White space is what Unicode calls so.
pub proof fn law_white_space_is_that_of_unicode(c: char)
    ensures
        (crate::transport::stream::is_white_space(c) == ({
            let point = c as u32;
            ||| 9 <= point && point <= 13
            ||| point == 32 || point == 133 || point == 160 || point == 5760
            ||| 8192 <= point && point <= 8202
            ||| point == 8232 || point == 8233 || point == 8239 || point == 8287 || point == 12288
        })),
{
}

proof fn lemma_trimmed(text: Seq<char>)
    requires
        text.len() > 0 ==> !crate::transport::stream::is_white_space(text.first())
            && !crate::transport::stream::is_white_space(text.last()),
    ensures
        crate::transport::stream::trim_back(crate::transport::stream::trim_front(text)) == text,
{
}

/// A single digit is the code of that number.
pub proof fn law_one_digit_is_its_code(c: char)
    requires
        '0' <= c <= '9',
    ensures
        crate::transport::stream::error_code(seq![c]) == SignalErrorCode::Code((c as int - '0' as int) as u32),
{
    let text = seq![c];
    lemma_trimmed(text);
    assert(crate::transport::stream::unsigned_digits(text) == text);
    assert(text.drop_last() =~= Seq::<char>::empty());
    assert(crate::transport::stream::decimal_value(text.drop_last()) == 0);
    assert(text.last() == c);
}

/// One more digit makes a number ten times as large, and adds the digit; a number that
/// does not fit is no code, and stays none.
pub proof fn law_each_digit_counts(text: Seq<char>, c: char)
    requires
        all_digits(text),
        '0' <= c <= '9',
    ensures
        (crate::transport::stream::error_code(text.push(c)) == match crate::transport::stream::error_code(text) {
            SignalErrorCode::Code(number) => if number * 10 + (c as int - '0' as int) <= u32::MAX {
                SignalErrorCode::Code((number * 10 + (c as int - '0' as int)) as u32)
            } else {
                SignalErrorCode::SignalingUnknownError
            },
            _ => SignalErrorCode::SignalingUnknownError,
        }),
{
    let longer = text.push(c);
    assert('0' <= text[0] <= '9');
    assert('0' <= text[text.len() - 1] <= '9');
    assert(longer.first() == text[0] && longer.last() == c);
    lemma_trimmed(text);
    lemma_trimmed(longer);
    assert(longer.drop_last() =~= text);
    assert forall|i: int| 0 <= i < longer.len() implies crate::transport::stream::is_digit(#[trigger] longer[i]) by {
        if i < text.len() {
            assert('0' <= text[i] <= '9');
        }
    }
}

/// A plus sign before the digits makes no difference.
pub proof fn law_plus_sign_is_ignored(digits: Seq<char>)
    requires
        all_digits(digits),
    ensures
        crate::transport::stream::error_code(seq!['+'] + digits) == crate::transport::stream::error_code(digits),
{
    let signed = seq!['+'] + digits;
    assert('0' <= digits[0] <= '9');
    assert('0' <= digits[digits.len() - 1] <= '9');
    assert(signed.last() == digits.last());
    lemma_trimmed(digits);
    lemma_trimmed(signed);
    assert(signed.drop_first() =~= digits);
}

/// A text that is not made of digits, with at most one plus sign before them and white
/// space around them, is no code.
pub proof fn law_other_text_is_no_code(text: Seq<char>)
    requires
        text.len() > 0 ==> !crate::transport::stream::is_white_space(text.first())
            && !crate::transport::stream::is_white_space(text.last()),
        !all_digits(text),
        !(text.len() > 0 && text.first() == '+' && all_digits(text.drop_first())),
    ensures
        crate::transport::stream::error_code(text) == SignalErrorCode::SignalingUnknownError,
{
    lemma_trimmed(text);
    let digits = crate::transport::stream::unsigned_digits(text);
    if digits.len() > 0 {
        let i = choose|i: int| 0 <= i < digits.len() && !('0' <= #[trigger] digits[i] <= '9');
        assert(!crate::transport::stream::is_digit(digits[i]));
    }
}

/// A text of white space alone is no code.
pub proof fn law_blank_text_is_no_code(text: Seq<char>)
    requires
        forall|i: int| 0 <= i < text.len() ==> crate::transport::stream::is_white_space(#[trigger] text[i]),
    ensures
        crate::transport::stream::error_code(text) == SignalErrorCode::SignalingUnknownError,
{
    let nothing = Seq::<char>::empty();
    crate::transport::stream::law_space_around_code_is_ignored(text, nothing, nothing);
    assert(text + nothing + nothing =~= text);
    law_other_text_is_no_code(nothing);
}

/// The number of a connection is made of all eight bytes drawn for it, each with the
/// weight of its place, the first with the least.
pub proof fn law_every_byte_counts(bytes: Seq<u8>)
    requires
        bytes.len() == 8,
    ensures
        crate::transport::stream::little_endian(bytes) == bytes[0] + bytes[1] * 0x100 + bytes[2] * 0x1_0000 + bytes[3]
            * 0x100_0000 + bytes[4] * 0x1_0000_0000 + bytes[5] * 0x100_0000_0000 + bytes[6] * 0x1_0000_0000_0000
            + bytes[7] * 0x100_0000_0000_0000,
{
    reveal_with_fuel(crate::transport::stream::little_endian, 9);
}

} // verus!
