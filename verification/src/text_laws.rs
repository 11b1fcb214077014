//! What the texts, the numbers in them, the refusals and the encodings mean.
use crate::base64url::{decoded, is_base64url, octets, sextet, sextet_at};
use crate::error::{outcome, refusal, AuthenticateError};
use crate::json::Json;
use crate::text::{chars, decimal, digits, each_chars};
use vstd::prelude::*;

verus! {

/// An optional text is there just where its characters are, and they are its
/// own.
pub proof fn law_an_optional_text_is_its_characters(text: Option<String>)
    ensures
        chars(text) is Some <==> text is Some,
        text is Some ==> chars(text).unwrap() == text.unwrap()@,
{
}

/// The characters of a list of texts are those of each text, in their order.
pub proof fn law_texts_are_read_one_by_one(texts: Seq<String>, i: int)
    requires
        0 <= i < texts.len(),
    ensures
        each_chars(texts).len() == texts.len(),
        each_chars(texts)[i] == texts[i]@,
{
}

/// A result is a refusal just where it is an error, and what it says is the
/// error's message.
pub proof fn law_a_refusal_is_an_error_s_message<T>(result: Result<T, AuthenticateError>)
    ensures
        refusal(result) is Some <==> result is Err,
        result matches Err(error) ==> refusal(result) == Some(error.message@),
{
}

/// What came of a result is its value, or its error's message.
pub proof fn law_an_outcome_is_a_value_or_a_message<T: View>(
    result: Result<T, AuthenticateError>,
)
    ensures
        outcome(result) is Ok <==> result is Ok,
        result matches Ok(value) ==> outcome(result)->Ok_0 == value@,
        result matches Err(error) ==> outcome(result)->Err_0 == error.message@,
{
}

/// The number that a text of decimal digits stands for.
pub open spec fn stands_for(text: Seq<char>) -> int
    decreases text.len(),
{
    if text.len() == 0 {
        0
    } else {
        stands_for(text.drop_last()) * 10 + (text.last() as int - '0' as int)
    }
}

/// A number in decimal is a text of digits that stands for it, with no zero in
/// front of another digit, and a minus sign before it where it is negative.
pub proof fn law_a_number_in_decimal_stands_for_it(n: int)
    ensures
        n >= 0 ==> {
            &&& stands_for(decimal(n)) == n
            &&& decimal(n).len() > 0
            &&& forall|i: int|
                0 <= i < decimal(n).len() ==> '0' <= #[trigger] decimal(n)[i] && decimal(n)[i]
                    <= '9'
            &&& decimal(n).len() > 1 ==> decimal(n)[0] != '0'
        },
        n < 0 ==> decimal(n) == seq!['-'] + decimal(-n),
{
    if n >= 0 {
        lemma_digits(n as nat);
    }
}

proof fn lemma_digits(n: nat)
    ensures
        stands_for(digits(n)) == n,
        digits(n).len() > 0,
        forall|i: int|
            0 <= i < digits(n).len() ==> '0' <= #[trigger] digits(n)[i] && digits(n)[i] <= '9',
        n > 0 ==> digits(n)[0] != '0',
        digits(n).len() > 1 ==> n > 0,
    decreases n,
{
    reveal_with_fuel(stands_for, 2);
    if n < 10 {
        assert(digits(n).drop_last() =~= Seq::empty());
    } else {
        lemma_digits(n / 10);
        assert(digits(n).drop_last() =~= digits(n / 10));
        assert(digits(n)[0] == digits(n / 10)[0]);
    }
}

/// Two numbers that differ are told apart by their decimals.
pub proof fn law_decimals_tell_numbers_apart(n: int, m: int)
    requires
        decimal(n) == decimal(m),
    ensures
        n == m,
{
    law_a_number_in_decimal_stands_for_it(n);
    law_a_number_in_decimal_stands_for_it(m);
    if n < 0 {
        law_a_number_in_decimal_stands_for_it(-n);
        assert(decimal(n)[0] == '-');
    }
    if m < 0 {
        law_a_number_in_decimal_stands_for_it(-m);
        assert(decimal(m)[0] == '-');
    }
    if n < 0 && m < 0 {
        assert(decimal(n).skip(1) =~= decimal(-n));
        assert(decimal(m).skip(1) =~= decimal(-m));
    } else if n < 0 {
        assert('0' <= decimal(m)[0]);
    } else if m < 0 {
        assert('0' <= decimal(n)[0]);
    }
}

/// A character stands for its place in the alphabet of RFC 4648 for URLs, and
/// one that has no place there stands for nothing.
pub proof fn law_a_character_stands_for_its_place(c: char, k: int)
    ensures
        sextet(c) == Some(k) <==> 0 <= k < 64
            && "ABCDEFGHIJKLMNOPQRSTUVWXYZabcdefghijklmnopqrstuvwxyz0123456789-_"@[k] == c,
{
    reveal_strlit("ABCDEFGHIJKLMNOPQRSTUVWXYZabcdefghijklmnopqrstuvwxyz0123456789-_");
}

/// Text with a character that has no place in the alphabet does not decode.
pub proof fn law_text_outside_the_alphabet_does_not_decode(text: Seq<char>, at: int)
    requires
        0 <= at < text.len(),
        forall|k: int|
            0 <= k < 64 ==> #[trigger] "ABCDEFGHIJKLMNOPQRSTUVWXYZabcdefghijklmnopqrstuvwxyz0123456789-_"@[k]
                != text[at],
    ensures
        decoded(text) is None,
{
    if sextet(text[at]) is Some {
        let k = sextet(text[at]).unwrap();
        law_a_character_stands_for_its_place(text[at], k);
    }
}

/// Text of the alphabet decodes just where no character is left over on its own
/// and the bits that fill up the last character are zero. Every four characters
/// then carry the twenty-four bits of three bytes, most significant first, and
/// two or three characters at the end those of one byte or two.
pub proof fn law_decoding_keeps_the_bits(text: Seq<char>, places: Seq<int>)
    requires
        places.len() == text.len(),
        forall|j: int|
            0 <= j < text.len() ==> 0 <= #[trigger] places[j] < 64
                && "ABCDEFGHIJKLMNOPQRSTUVWXYZabcdefghijklmnopqrstuvwxyz0123456789-_"@[places[j]]
                == text[j],
    ensures
        decoded(text) is Some <==> {
            ||| text.len() % 4 == 0
            ||| text.len() % 4 == 2 && places[text.len() - 1] % 16 == 0
            ||| text.len() % 4 == 3 && places[text.len() - 1] % 4 == 0
        },
        decoded(text) matches Some(bytes) ==> {
            let whole = text.len() as int / 4;
            &&& text.len() % 4 == 0 ==> bytes.len() == whole * 3
            &&& text.len() % 4 == 2 ==> bytes.len() == whole * 3 + 1
            &&& text.len() % 4 == 3 ==> bytes.len() == whole * 3 + 2
            &&& forall|g: int|
                0 <= g < whole ==> #[trigger] bytes[g * 3] * 65536 + bytes[g * 3 + 1] * 256
                    + bytes[g * 3 + 2] == places[g * 4] * 262144 + places[g * 4 + 1] * 4096
                    + places[g * 4 + 2] * 64 + places[g * 4 + 3]
            &&& text.len() % 4 == 2 ==> bytes[whole * 3] * 16 == places[whole * 4] * 64
                + places[whole * 4 + 1]
            &&& text.len() % 4 == 3 ==> (bytes[whole * 3] * 256 + bytes[whole * 3 + 1]) * 4
                == places[whole * 4] * 4096 + places[whole * 4 + 1] * 64 + places[whole * 4 + 2]
        },
{
    assert forall|j: int| 0 <= j < text.len() implies #[trigger] sextet(text[j]) == Some(
        places[j],
    ) by {
        law_a_character_stands_for_its_place(text[j], places[j]);
    }
    assert(forall|j: int|
        0 <= j < text.len() ==> #[trigger] sextet_at(text, j) == places[j]);
    let whole = text.len() as int / 4;
    if is_base64url(text) {
        let bytes = octets(text);
        assert forall|g: int| 0 <= g < whole implies #[trigger] bytes[g * 3] * 65536 + bytes[g * 3
            + 1] * 256 + bytes[g * 3 + 2] == places[g * 4] * 262144 + places[g * 4 + 1] * 4096
            + places[g * 4 + 2] * 64 + places[g * 4 + 3] by {
            lemma_three_bytes(text, places, g);
        }
    }
}

proof fn lemma_three_bytes(text: Seq<char>, places: Seq<int>, g: int)
    requires
        places.len() == text.len(),
        forall|j: int| 0 <= j < text.len() ==> 0 <= #[trigger] places[j] < 64,
        forall|j: int| 0 <= j < text.len() ==> #[trigger] sextet_at(text, j) == places[j],
        0 <= g < text.len() as int / 4,
    ensures
        octets(text)[g * 3] * 65536 + octets(text)[g * 3 + 1] * 256 + octets(text)[g * 3 + 2]
            == places[g * 4] * 262144 + places[g * 4 + 1] * 4096 + places[g * 4 + 2] * 64
            + places[g * 4 + 3],
{
    assert(places[g * 4] < 64 && places[g * 4 + 1] < 64 && places[g * 4 + 2] < 64 && places[g * 4
        + 3] < 64);
}

/// An object's member under a name is what the object holds there, and a value
/// that is no object has no members. A member is read as a text just where it
/// is a string, as a list just where it is an array, and as it is.
pub proof fn law_members_are_what_an_object_holds(
    value: Json,
    members: Map<Seq<char>, Json>,
    name: Seq<char>,
    text: Seq<char>,
    items: Seq<Json>,
)
    ensures
        members.dom().contains(name) ==> Json::Object(members).member(name) == Some(members[name]),
        !members.dom().contains(name) ==> Json::Object(members).member(name) is None,
        Json::Object(members).text_member(name) == Some(text) <==> members.dom().contains(name)
            && members[name] == Json::Text(text),
        Json::Object(members).list_member(name) == Some(items) <==> members.dom().contains(name)
            && members[name] == Json::List(items),
        !(value is Object) ==> {
            &&& value.member(name) is None
            &&& value.text_member(name) is None
            &&& value.list_member(name) is None
        },
{
}

} // verus!
