//! The token that the portal hands out at login.
use vstd::prelude::*;

use crate::json::{Json, JsonModel, JsonNumber, NumberModel};
use crate::text;

verus! {

/// What the portal hands out at login.
#[derive(Clone, Debug)]
pub struct TokenData {
    pub uid: String,
    pub token: String,
    pub timestamp: i64,
    pub client: String,
    pub version: String,
    pub language: String,
    pub api: String,
    pub region: String,
}

impl Default for TokenData {
    fn default() -> (t: Self)
        ensures
            t.uid@ == Seq::<char>::empty(),
            t.token@ == Seq::<char>::empty(),
            t.timestamp == 0,
            t.client@ == Seq::<char>::empty(),
            t.version@ == Seq::<char>::empty(),
            t.language@ == Seq::<char>::empty(),
            t.api@ == Seq::<char>::empty(),
            t.region@ == Seq::<char>::empty(),
    {
        TokenData {
            uid: String::new(),
            token: String::new(),
            timestamp: 0,
            client: String::new(),
            version: String::new(),
            language: String::new(),
            api: String::new(),
            region: String::new(),
        }
    }
}

/// The timestamp that a JSON value stands for: an integer, or a text that holds
/// one. A number past 64 bits and any other value count as zero; a text that holds
/// no 64-bit integer is an error, `None`.
pub open spec fn timestamp_value(v: JsonModel) -> Option<int> {
    match v {
        JsonModel::Number(NumberModel::PosInt(n)) => Some(
            if n <= i64::MAX { n as int } else { 0 },
        ),
        JsonModel::Number(NumberModel::NegInt(n)) => Some(n as int),
        JsonModel::Text(t) => match text::integer_value(t) {
            Some(n) => if i64::MIN <= n <= i64::MAX { Some(n) } else { None },
            None => None,
        },
        _ => Some(0),
    }
}

/// A timestamp given as a text that holds no 64-bit integer.
#[derive(Debug)]
pub struct TimestampError {
    pub cause: std::num::ParseIntError,
}

/// Reads a timestamp that comes as a text or as a number.
pub fn de_string_or_i64(v: &Json) -> (r: Result<i64, TimestampError>)
    ensures
        match timestamp_value(v@) {
            Some(n) => r is Ok && r->Ok_0 == n,
            None => {
                &&& r is Err
                &&& v@ is Text
                &&& r->Err_0.cause == text::i64_parse_error(v@->Text_0)
            },
        },
{
    match v {
        Json::Number(JsonNumber::PosInt(n)) => {
            if *n <= i64::MAX as u64 {
                Ok(*n as i64)
            } else {
                Ok(0)
            }
        },
        Json::Number(JsonNumber::NegInt(n)) => Ok(*n),
        Json::Number(JsonNumber::Float(_)) => Ok(0),
        Json::Text(t) => match text::parse_i64(t.as_str()) {
            Ok(n) => Ok(n),
            Err(cause) => Err(TimestampError { cause }),
        },
        _ => Ok(0),
    }
}

/// A timestamp reads the same as a number and as the text of that number.
pub proof fn timestamp_text_and_number_agree(n: i64)
    ensures
        timestamp_value(JsonModel::Text(text::signed_decimal(n as int))) == Some(n as int),
        n >= 0 ==> timestamp_value(JsonModel::Number(NumberModel::PosInt(n as u64))) == Some(
            n as int,
        ),
        n < 0 ==> timestamp_value(JsonModel::Number(NumberModel::NegInt(n))) == Some(n as int),
{
    text::signed_decimal_reads_back(n as int);
}

/// A text is a timestamp exactly where it holds an integer of 64 bits, and then stands
/// for that integer.
pub proof fn timestamp_texts_are_integers(t: Seq<char>, n: int)
    ensures
        timestamp_value(JsonModel::Text(t)) == Some(n) <==> text::integer_value(t) == Some(n)
            && -0x8000_0000_0000_0000 <= n <= 0x7fff_ffff_ffff_ffff,
{
}

/// A number that fits in 64 bits with a sign is its own timestamp. One that does not,
/// and a value that is neither a number nor a text, counts as zero and is no error.
pub proof fn other_timestamps_are_zero(v: JsonModel, n: u64, m: i64, t: Seq<char>)
    ensures
        timestamp_value(JsonModel::Number(NumberModel::NegInt(m))) == Some(m as int),
        n <= 0x7fff_ffff_ffff_ffff ==> timestamp_value(JsonModel::Number(NumberModel::PosInt(n)))
            == Some(n as int),
        n > 0x7fff_ffff_ffff_ffff ==> timestamp_value(JsonModel::Number(NumberModel::PosInt(n)))
            == Some(0int),
        timestamp_value(JsonModel::Number(NumberModel::Float(t))) == Some(0int),
        !(v is Number) && !(v is Text) ==> timestamp_value(v) == Some(0int),
{
}

} // verus!
