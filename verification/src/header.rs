//! The value of an `Authorization` header: a scheme, blanks, a credential.

use vstd::prelude::*;
use vstd::slice::{slice_subrange, slice_to_vec};
use vstd::utf8::{
    decode_first_scalar, decode_utf8, leading_bits_width_1, pop_first_scalar, valid_first_scalar,
    valid_utf8,
};

verus! {

/// A byte that a header value may hold and still read as text: a tab or a
/// visible ASCII character.
pub open spec fn is_text_byte(byte: u8) -> bool {
    byte == 9 || 32 <= byte < 127
}

/// A header value that reads as text.
pub open spec fn is_text(value: Seq<u8>) -> bool {
    forall|i: int| 0 <= i < value.len() ==> is_text_byte(#[trigger] value[i])
}

/// The white space that a header value can hold: a blank or a tab.
pub open spec fn is_blank(byte: u8) -> bool {
    byte == 32 || byte == 9
}

/// The first position from `from` on that holds no white space, the length
/// where there is none.
pub open spec fn skip_blanks(value: Seq<u8>, from: int) -> int
    decreases value.len() - from,
{
    if from < 0 || from >= value.len() {
        value.len() as int
    } else if !is_blank(value[from]) {
        from
    } else {
        skip_blanks(value, from + 1)
    }
}

/// The first position from `from` on that holds white space, the length where
/// there is none.
pub open spec fn skip_word(value: Seq<u8>, from: int) -> int
    decreases value.len() - from,
{
    if from < 0 || from >= value.len() {
        value.len() as int
    } else if is_blank(value[from]) {
        from
    } else {
        skip_word(value, from + 1)
    }
}

/// Where the second word of the value starts: behind the white space that
/// follows the first word. It is the length where there is no second word.
pub open spec fn credential_start(value: Seq<u8>) -> int {
    skip_blanks(value, skip_word(value, skip_blanks(value, 0)))
}

/// The credential of a header value: its second word, where words are what
/// white space separates. `None` where the value has fewer than two words.
pub open spec fn credential_of(value: Seq<u8>) -> Option<Seq<u8>> {
    let start = credential_start(value);
    if start < value.len() {
        Some(value.subrange(start, skip_word(value, start)))
    } else {
        None
    }
}

/// The text whose characters are the given ASCII bytes.
pub open spec fn chars_of(bytes: Seq<u8>) -> Seq<char> {
    Seq::new(bytes.len(), |i: int| bytes[i] as char)
}

/// The credential of a header value as text: `None` where the value does not
/// read as text or holds no credential.
pub open spec fn credential_text_of(value: Seq<u8>) -> Option<Seq<char>> {
    if is_text(value) {
        match credential_of(value) {
            Some(bytes) => Some(chars_of(bytes)),
            None => None,
        }
    } else {
        None
    }
}

/// A word that reads as text: not empty, visible ASCII throughout.
pub open spec fn is_word(bytes: Seq<u8>) -> bool {
    bytes.len() > 0 && forall|i: int| 0 <= i < bytes.len() ==> 32 < #[trigger] bytes[i] < 127
}

/// A skip ends between where it started and the end of the value.
pub proof fn skips_stay_inside(value: Seq<u8>, from: int)
    requires
        0 <= from <= value.len(),
    ensures
        from <= skip_blanks(value, from) <= value.len(),
        from <= skip_word(value, from) <= value.len(),
    decreases value.len() - from,
{
    if from < value.len() {
        skips_stay_inside(value, from + 1);
    }
}

/// A word that starts at `from` ends at `to` when no white space lies between
/// the two and `to` holds white space or is the end.
pub proof fn word_ends_at(value: Seq<u8>, from: int, to: int)
    requires
        0 <= from <= to <= value.len(),
        forall|i: int| from <= i < to ==> !is_blank(#[trigger] value[i]),
        to < value.len() ==> is_blank(value[to]),
    ensures
        skip_word(value, from) == to,
    decreases to - from,
{
    if from < to {
        word_ends_at(value, from + 1, to);
    }
}

/// White space that starts at `from` ends at `to` when only white space lies
/// between the two and `to` holds none or is the end.
pub proof fn blanks_end_at(value: Seq<u8>, from: int, to: int)
    requires
        0 <= from <= to <= value.len(),
        forall|i: int| from <= i < to ==> is_blank(#[trigger] value[i]),
        to < value.len() ==> !is_blank(value[to]),
    ensures
        skip_blanks(value, from) == to,
    decreases to - from,
{
    if from < to {
        blanks_end_at(value, from + 1, to);
    }
}

/// The credential of a value is its second word: where white space, a word,
/// white space and another word follow one another from the start, and the
/// second word ends with the value or before white space, that word is the
/// credential, whatever comes after it.
pub proof fn second_word_is_the_credential(
    value: Seq<u8>,
    first: int,
    gap: int,
    start: int,
    end: int,
)
    requires
        0 <= first < gap < start < end <= value.len(),
        forall|i: int| 0 <= i < first ==> is_blank(#[trigger] value[i]),
        forall|i: int| first <= i < gap ==> !is_blank(#[trigger] value[i]),
        forall|i: int| gap <= i < start ==> is_blank(#[trigger] value[i]),
        forall|i: int| start <= i < end ==> !is_blank(#[trigger] value[i]),
        end < value.len() ==> is_blank(value[end]),
    ensures
        credential_of(value) == Some(value.subrange(start, end)),
{
    blanks_end_at(value, 0, first);
    word_ends_at(value, first, gap);
    blanks_end_at(value, gap, start);
    word_ends_at(value, start, end);
}

/// A value made of a scheme, one blank and a credential, neither of them
/// empty or with white space inside, holds that credential.
pub proof fn scheme_and_credential(scheme: Seq<u8>, credential: Seq<u8>)
    requires
        scheme.len() > 0,
        credential.len() > 0,
        forall|i: int| 0 <= i < scheme.len() ==> !is_blank(#[trigger] scheme[i]),
        forall|i: int| 0 <= i < credential.len() ==> !is_blank(#[trigger] credential[i]),
    ensures
        credential_of(scheme + seq![32u8] + credential) == Some(credential),
{
    let value = scheme + seq![32u8] + credential;
    let gap = scheme.len() as int;
    assert(value.len() == gap + 1 + credential.len());
    assert(value[gap] == 32u8);
    assert forall|i: int| 0 <= i < gap implies !is_blank(#[trigger] value[i]) by {
        assert(value[i] == scheme[i]);
    }
    assert forall|i: int| gap + 1 <= i < value.len() implies !is_blank(#[trigger] value[i]) by {
        assert(value[i] == credential[i - gap - 1]);
    }
    second_word_is_the_credential(value, 0, gap, gap + 1, value.len() as int);
    assert(value.subrange(gap + 1, value.len() as int) =~= credential);
}

/// A value of a single word holds no credential.
pub proof fn scheme_alone(scheme: Seq<u8>)
    requires
        forall|i: int| 0 <= i < scheme.len() ==> !is_blank(#[trigger] scheme[i]),
    ensures
        credential_of(scheme) is None,
{
    let end = scheme.len() as int;
    if end > 0 {
        blanks_end_at(scheme, 0, 0);
    }
    word_ends_at(scheme, 0, end);
}

/// ASCII bytes are UTF-8, and stand for the characters of the same numbers.
pub proof fn ascii_is_utf8(bytes: Seq<u8>)
    requires
        forall|i: int| 0 <= i < bytes.len() ==> #[trigger] bytes[i] < 128,
    ensures
        valid_utf8(bytes),
        decode_utf8(bytes) == chars_of(bytes),
    decreases bytes.len(),
{
    if bytes.len() > 0 {
        let first = bytes[0];
        let rest = bytes.subrange(1, bytes.len() as int);
        assert(leading_bits_width_1(first) == first as u32) by (bit_vector)
            requires
                first < 128,
        ;
        assert(valid_first_scalar(bytes));
        assert(pop_first_scalar(bytes) == rest);
        assert forall|i: int| 0 <= i < rest.len() implies #[trigger] rest[i] < 128 by {
            assert(rest[i] == bytes[i + 1]);
        }
        ascii_is_utf8(rest);
        assert(decode_first_scalar(bytes) as char == first as char);
        assert(decode_utf8(bytes) =~= chars_of(bytes)) by {
            assert forall|i: int| 0 <= i < bytes.len() implies decode_utf8(bytes)[i] == chars_of(
                bytes,
            )[i] by {
                if i > 0 {
                    assert(chars_of(rest)[i - 1] == rest[i - 1] as char);
                }
            }
        }
    } else {
        assert(decode_utf8(bytes) =~= chars_of(bytes));
    }
}

/// `String::from_utf8`: the text that the bytes encode in UTF-8, `None` where
/// they encode none.
#[verifier::external_body]
pub(crate) fn utf8_text(bytes: Vec<u8>) -> (text: Option<String>)
    ensures
        text is Some <==> valid_utf8(bytes@),
        text matches Some(s) ==> s@ == decode_utf8(bytes@),
{
    String::from_utf8(bytes).ok()
}

/// Whether the header value reads as text.
pub fn reads_as_text(value: &[u8]) -> (text: bool)
    ensures
        text == is_text(value@),
{
    let mut at: usize = 0;
    while at < value.len()
        invariant
            at <= value.len(),
            forall|i: int| 0 <= i < at ==> is_text_byte(#[trigger] value@[i]),
        decreases value.len() - at,
    {
        let byte = value[at];
        if !(byte == 9 || (32 <= byte && byte < 127)) {
            return false;
        }
        at += 1;
    }
    true
}

/// The end of the white space that starts at `from`.
pub fn blanks_end(value: &[u8], from: usize) -> (at: usize)
    ensures
        at == skip_blanks(value@, from as int),
        at <= value.len(),
        from <= value.len() ==> from <= at,
{
    let mut at = from;
    while at < value.len() && (value[at] == 32 || value[at] == 9)
        invariant
            from <= at,
            at <= value.len() || at == from,
            skip_blanks(value@, at as int) == skip_blanks(value@, from as int),
        decreases value.len() - at,
    {
        at += 1;
    }
    if at < value.len() {
        at
    } else {
        value.len()
    }
}

/// The end of the word that starts at `from`.
pub fn word_end(value: &[u8], from: usize) -> (at: usize)
    ensures
        at == skip_word(value@, from as int),
        at <= value.len(),
        from <= value.len() ==> from <= at,
{
    let mut at = from;
    while at < value.len() && !(value[at] == 32 || value[at] == 9)
        invariant
            from <= at,
            at <= value.len() || at == from,
            skip_word(value@, at as int) == skip_word(value@, from as int),
        decreases value.len() - at,
    {
        at += 1;
    }
    if at < value.len() {
        at
    } else {
        value.len()
    }
}

/// The credential of a header value, `None` where it holds none.
pub fn credential(value: &[u8]) -> (found: Option<Vec<u8>>)
    ensures
        found is Some <==> credential_of(value@) is Some,
        found matches Some(bytes) ==> credential_of(value@) == Some(bytes@),
{
    let scheme = blanks_end(value, 0);
    let gap = word_end(value, scheme);
    let start = blanks_end(value, gap);
    if start < value.len() {
        let end = word_end(value, start);
        Some(slice_to_vec(slice_subrange(value, start, end)))
    } else {
        None
    }
}

/// The credential of a header value as text, `None` where the value does not
/// read as text or holds no credential.
pub fn credential_text(value: &[u8]) -> (found: Option<String>)
    ensures
        found is Some <==> credential_text_of(value@) is Some,
        found matches Some(text) ==> credential_text_of(value@) == Some(text@),
{
    if !reads_as_text(value) {
        return None;
    }
    match credential(value) {
        None => None,
        Some(bytes) => {
            proof {
                let start = credential_start(value@);
                skips_stay_inside(value@, 0);
                skips_stay_inside(value@, skip_blanks(value@, 0));
                skips_stay_inside(value@, skip_word(value@, skip_blanks(value@, 0)));
                skips_stay_inside(value@, start);
                assert forall|i: int| 0 <= i < bytes@.len() implies #[trigger] bytes@[i] < 128 by {
                    assert(bytes@[i] == value@[start + i]);
                }
                ascii_is_utf8(bytes@);
            }
            utf8_text(bytes)
        },
    }
}

} // verus!
