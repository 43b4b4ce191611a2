//! Short text labels, built in fixed-capacity strings without a heap.
use vstd::prelude::*;

verus! {

/// `heapless::String`, a string of at most `N` bytes held in place.
#[verifier::external_type_specification]
#[verifier::external_body]
pub struct ExHeaplessString<const N: usize>(heapless::String<N>);

/// The characters that a label holds.
pub uninterp spec fn label_text(label: heapless::String<8>) -> Seq<char>;

/// Number of bytes that a label can hold.
pub const LABEL_CAPACITY: usize = 8;

/// Every character is ASCII, and so takes one byte in UTF-8.
pub open spec fn is_ascii_text(text: Seq<char>) -> bool {
    forall|i: int| 0 <= i < text.len() ==> (#[trigger] text[i]) as int <= 127
}

/// The digit `d` as a character.
pub open spec fn digit_char(d: int) -> char {
    (48 + d) as char
}

/// The decimal digits of `n`, without leading zeros.
pub open spec fn decimal(n: nat) -> Seq<char>
    decreases n,
{
    if n < 10 {
        seq![digit_char(n as int)]
    } else {
        decimal(n / 10).push(digit_char((n % 10) as int))
    }
}

/// Calls `heapless::String::new`, which makes an empty string.
#[verifier::external_body]
fn empty_label() -> (label: heapless::String<8>)
    ensures
        label_text(label) == Seq::<char>::empty(),
{
    heapless::String::new()
}

/// Calls `heapless::String::push_str`, which appends the text if its bytes fit
/// into what is left of the capacity, and otherwise leaves the string as it was
/// and returns an error. The text and what the label holds are ASCII here, so
/// that bytes and characters are counted alike.
#[verifier::external_body]
fn append_text(label: &mut heapless::String<8>, text: &str) -> (r: Result<(), ()>)
    requires
        is_ascii_text(label_text(*old(label))),
        is_ascii_text(text@),
    ensures
        r is Ok <==> label_text(*old(label)).len() + text@.len() <= LABEL_CAPACITY,
        label_text(*final(label)) == (if r is Ok {
            label_text(*old(label)) + text@
        } else {
            label_text(*old(label))
        }),
{
    label.push_str(text)
}

/// Calls `heapless::String::push`, which appends the character if its bytes fit
/// into what is left of the capacity, and otherwise leaves the string as it was
/// and returns an error. The character and what the label holds are ASCII here, so
/// that bytes and characters are counted alike.
#[verifier::external_body]
fn append_char(label: &mut heapless::String<8>, c: char) -> (r: Result<(), ()>)
    requires
        is_ascii_text(label_text(*old(label))),
        c as int <= 127,
    ensures
        r is Ok <==> label_text(*old(label)).len() + 1 <= LABEL_CAPACITY,
        label_text(*final(label)) == (if r is Ok {
            label_text(*old(label)).push(c)
        } else {
            label_text(*old(label))
        }),
{
    label.push(c)
}

/// A number below 1000 has at most three decimal digits, and digits are ASCII.
proof fn lemma_decimal(n: nat)
    ensures
        is_ascii_text(decimal(n)),
        n < 1000 ==> decimal(n).len() <= 3,
    decreases n,
{
    reveal_with_fuel(decimal, 4);
    if n >= 10 {
        lemma_decimal(n / 10);
    }
}

/// Appends the decimal digits of `n`.
fn append_decimal(label: &mut heapless::String<8>, n: u16)
    requires
        is_ascii_text(label_text(*old(label))),
        label_text(*old(label)).len() + decimal(n as nat).len() <= LABEL_CAPACITY,
    ensures
        label_text(*final(label)) == label_text(*old(label)) + decimal(n as nat),
    decreases n,
{
    proof {
        lemma_decimal(n as nat);
    }
    if n >= 10 {
        proof {
            lemma_decimal((n / 10) as nat);
        }
        append_decimal(label, n / 10);
    }
    let digit: u8 = (n % 10) as u8;
    let _ = append_char(label, (48 + digit) as char);
    assert(label_text(*label) =~= label_text(*old(label)) + decimal(n as nat));
}

/// A label that holds `text`, which has to be ASCII and short enough.
pub(crate) fn text_label(text: &str) -> (label: heapless::String<8>)
    requires
        is_ascii_text(text@),
        text@.len() <= LABEL_CAPACITY,
    ensures
        label_text(label) == text@,
{
    let mut label = empty_label();
    let _ = append_text(&mut label, text);
    assert(label_text(label) =~= text@);
    label
}

/// A label that holds `prefix`, the decimal digits of `n`, then `suffix`.
pub(crate) fn number_label(prefix: &str, n: u16, suffix: &str) -> (label: heapless::String<8>)
    requires
        n < 1000,
        is_ascii_text(prefix@),
        is_ascii_text(suffix@),
        prefix@.len() + suffix@.len() + 3 <= LABEL_CAPACITY,
    ensures
        label_text(label) == prefix@ + decimal(n as nat) + suffix@,
{
    proof {
        lemma_decimal(n as nat);
    }
    let mut label = text_label(prefix);
    append_decimal(&mut label, n);
    let _ = append_text(&mut label, suffix);
    label
}

/// The number that a text of decimal digits stands for, read from left to right.
pub open spec fn digits_value(text: Seq<char>) -> int
    decreases text.len(),
{
    if text.len() == 0 {
        0
    } else {
        digits_value(text.drop_last()) * 10 + (text.last() as int - '0' as int)
    }
}

/// The digits of a number read back as that number. They are digits throughout, and only the
/// number zero starts with one.
pub proof fn decimal_reads_back(n: nat)
    ensures
        digits_value(decimal(n)) == n,
        forall|i: int|
            0 <= i < decimal(n).len() ==> '0' as int <= (#[trigger] decimal(n)[i]) as int
                <= '9' as int,
        decimal(n).len() >= 1,
        decimal(n)[0] == '0' <==> n == 0,
        n < 10 ==> decimal(n).len() == 1,
        10 <= n < 100 ==> decimal(n).len() == 2,
        100 <= n < 1000 ==> decimal(n).len() == 3,
    decreases n,
{
    reveal_with_fuel(digits_value, 2);
    if n >= 10 {
        decimal_reads_back(n / 10);
        assert(decimal(n).drop_last() =~= decimal(n / 10));
        assert(decimal(n)[0] == decimal(n / 10)[0]);
    } else {
        assert(decimal(n).drop_last() =~= Seq::<char>::empty());
    }
}

} // verus!
