//! Object identifiers: twelve bytes, written as twenty-four hexadecimal digits.

use crate::error::ApiError;
use vstd::prelude::*;

verus! {

/// The identifier that the document store gives to a record.
#[derive(Debug, Clone, Copy, PartialEq, Eq)]
pub struct ObjectId {
    pub bytes: [u8; 12],
}

impl View for ObjectId {
    type V = Seq<u8>;

    open spec fn view(&self) -> Seq<u8> {
        self.bytes@
    }
}

impl DeepView for ObjectId {
    type V = Seq<u8>;

    open spec fn deep_view(&self) -> Seq<u8> {
        self.bytes@
    }
}

/// Whether `c` is one of `0`-`9`, `a`-`f`, `A`-`F`.
pub open spec fn is_hex_digit(c: char) -> bool {
    ||| '0' as u32 <= c as u32 <= '9' as u32
    ||| 'a' as u32 <= c as u32 <= 'f' as u32
    ||| 'A' as u32 <= c as u32 <= 'F' as u32
}

/// The number that the hexadecimal digit `c` stands for.
pub open spec fn hex_digit_value(c: char) -> int {
    if '0' as u32 <= c as u32 <= '9' as u32 {
        c as u32 - '0' as u32
    } else if 'a' as u32 <= c as u32 <= 'f' as u32 {
        c as u32 - 'a' as u32 + 10
    } else {
        c as u32 - 'A' as u32 + 10
    }
}

/// The lower-case hexadecimal digit for `n`, where `0 <= n < 16`.
pub open spec fn hex_digit(n: int) -> char {
    if n < 10 {
        ('0' as u32 + n) as char
    } else {
        ('a' as u32 + n - 10) as char
    }
}

/// Whether `text` is the written form of an object id: exactly twenty-four
/// hexadecimal digits, in either case.
pub open spec fn is_object_id_text(text: Seq<char>) -> bool {
    &&& text.len() == 24
    &&& forall|i: int| 0 <= i < 24 ==> is_hex_digit(#[trigger] text[i])
}

/// The twelve bytes that a well-formed `text` denotes: each pair of digits is
/// one byte, the first digit being its upper half.
pub open spec fn object_id_bytes(text: Seq<char>) -> Seq<u8> {
    Seq::new(
        12,
        |i: int| (16 * hex_digit_value(text[2 * i]) + hex_digit_value(text[2 * i + 1])) as u8,
    )
}

/// The written form of twelve bytes: two lower-case digits per byte.
pub open spec fn object_id_text(bytes: Seq<u8>) -> Seq<char> {
    Seq::new(
        24,
        |i: int|
            if i % 2 == 0 {
                hex_digit(bytes[i / 2] as int / 16)
            } else {
                hex_digit(bytes[i / 2] as int % 16)
            },
    )
}

/// `bson::oid::Error`, the reason why a text was not read as an object id. It
/// is carried through unread.
#[verifier::external_type_specification]
#[verifier::external_body]
pub struct ExOidError(bson::oid::Error);

/// `bson::oid::ObjectId::parse_str`. The call decodes the text as hexadecimal
/// and accepts it only when it yields twelve bytes, so it succeeds exactly on
/// twenty-four hexadecimal digits and then holds the bytes they denote.
#[verifier::external_body]
fn parse_hex(text: &str) -> (res: Result<ObjectId, bson::oid::Error>)
    ensures
        res is Ok <==> is_object_id_text(text@),
        res matches Ok(id) ==> id@ == object_id_bytes(text@),
{
    bson::oid::ObjectId::parse_str(text).map(|id| ObjectId { bytes: id.bytes() })
}

/// `bson::oid::ObjectId::to_hex`, on the id made by `ObjectId::from_bytes`. The
/// result is the lower-case hexadecimal encoding of the twelve bytes.
#[verifier::external_body]
fn encode_hex(id: &ObjectId) -> (text: String)
    ensures
        text@ == object_id_text(id@),
{
    bson::oid::ObjectId::from_bytes(id.bytes).to_hex()
}

impl ObjectId {
    /// Reads an object id from its written form. Anything but twenty-four
    /// hexadecimal digits is an invalid reference.
    pub fn parse_str(text: &str) -> (res: Result<ObjectId, ApiError>)
        ensures
            is_object_id_text(text@) ==> (res matches Ok(id) && id@ == object_id_bytes(text@)),
            !is_object_id_text(text@) ==> res == Err::<ObjectId, ApiError>(
                ApiError::InvalidReference,
            ),
    {
        match parse_hex(text) {
            Ok(id) => Ok(id),
            Err(_) => Err(ApiError::InvalidReference),
        }
    }

    /// The written form of the id, in lower case.
    pub fn to_hex(&self) -> (text: String)
        ensures
            text@ == object_id_text(self@),
    {
        encode_hex(self)
    }
}

} // verus!
