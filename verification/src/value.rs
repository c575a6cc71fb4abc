//! Typed register values and the word-level codec.

use vstd::prelude::*;
use vstd::string::StringExecFns;
use vstd::utf8::{decode_utf8, valid_utf8};
use crate::strutil;
use crate::strutil::{dec_of_int, dec_of_nat};

verus! {

/// A decodable value kind.  Each variant carries the decoded value once a
/// read succeeded; a freshly built catalog holds `None` in every slot.
#[derive(Clone, Debug)]
pub enum ParamKind {
    Text(Option<String>),
    NumberU16(Option<u16>),
    NumberI16(Option<i16>),
    NumberU32(Option<u32>),
    NumberI32(Option<i32>),
}

/// Mathematical model of a [`ParamKind`]: the same shape with strings
/// abstracted to character sequences.
#[verifier::ext_equal]
pub enum ValueModel {
    Text(Option<Seq<char>>),
    NumberU16(Option<u16>),
    NumberI16(Option<i16>),
    NumberU32(Option<u32>),
    NumberI32(Option<i32>),
}

impl View for ParamKind {
    type V = ValueModel;

    open spec fn view(&self) -> ValueModel {
        match self {
            ParamKind::Text(v) => ValueModel::Text(
                match v {
                    Some(s) => Some(s@),
                    None => None,
                },
            ),
            ParamKind::NumberU16(v) => ValueModel::NumberU16(*v),
            ParamKind::NumberI16(v) => ValueModel::NumberI16(*v),
            ParamKind::NumberU32(v) => ValueModel::NumberU32(*v),
            ParamKind::NumberI32(v) => ValueModel::NumberI32(*v),
        }
    }
}

/// Decoding failure: the surviving text bytes were not valid UTF-8.
#[derive(Clone, PartialEq, Eq, Structural, Debug)]
pub enum DecodeError {
    MalformedText,
}

/// How many 16-bit words the codec consumes for a value of this kind.
/// Text kinds consume whatever the parameter's register length provides.
pub open spec fn spec_kind_width(v: ValueModel) -> nat {
    match v {
        ValueModel::Text(_) => 0,
        ValueModel::NumberU16(_) => 1,
        ValueModel::NumberI16(_) => 1,
        ValueModel::NumberU32(_) => 2,
        ValueModel::NumberI32(_) => 2,
    }
}

/// The unsigned 32-bit value encoded by a big-endian register pair.
pub open spec fn spec_combine_u32(hi: u16, lo: u16) -> u32 {
    (hi * 0x10000 + lo) as u32
}

/// The two's-complement reading of an unsigned 32-bit pattern.
pub open spec fn as_signed_32(c: u32) -> int {
    if c < 0x8000_0000 {
        c as int
    } else {
        c - 0x1_0000_0000
    }
}

/// The two's-complement reading of an unsigned 16-bit pattern.
pub open spec fn as_signed_16(w: u16) -> int {
    if w < 0x8000 {
        w as int
    } else {
        w - 0x1_0000
    }
}

/// The text bytes contributed by one register word: the big-endian high
/// byte, then the low byte, each dropped when zero.
pub open spec fn word_text_bytes(w: u16) -> Seq<u8> {
    let hi = (w / 256) as u8;
    let lo = (w % 256) as u8;
    (if hi != 0 {
        seq![hi]
    } else {
        Seq::empty()
    }) + (if lo != 0 {
        seq![lo]
    } else {
        Seq::empty()
    })
}

/// The text bytes of a word sequence: per-word bytes concatenated in
/// order, zero bytes dropped.
pub open spec fn text_bytes(words: Seq<u16>) -> Seq<u8>
    decreases words.len(),
{
    if words.len() == 0 {
        Seq::empty()
    } else {
        text_bytes(words.drop_last()) + word_text_bytes(words.last())
    }
}

/// Whether the unit string marks an epoch timestamp.
pub open spec fn spec_is_epoch_unit(unit: Option<Seq<char>>) -> bool {
    unit matches Some(u) && u == "epoch"@
}

/// What decoding raw words against a value-kind template yields.
///
/// Text: surviving bytes UTF-8-decoded, or [`DecodeError::MalformedText`].
/// 16-bit kinds: the first word, plain or two's-complement.  32-bit
/// kinds: the first two words combined big-endian; an all-zero result
/// under an `"epoch"` unit is cleared to absent.
pub open spec fn spec_decode_value(
    template: ValueModel,
    unit: Option<Seq<char>>,
    words: Seq<u16>,
) -> Result<ValueModel, DecodeError>
    recommends
        words.len() >= spec_kind_width(template),
{
    match template {
        ValueModel::Text(_) => if valid_utf8(text_bytes(words)) {
            Ok(ValueModel::Text(Some(decode_utf8(text_bytes(words)))))
        } else {
            Err(DecodeError::MalformedText)
        },
        ValueModel::NumberU16(_) => Ok(ValueModel::NumberU16(Some(words[0]))),
        ValueModel::NumberI16(_) => Ok(ValueModel::NumberI16(Some(as_signed_16(words[0]) as i16))),
        ValueModel::NumberU32(_) => {
            let c = spec_combine_u32(words[0], words[1]);
            if spec_is_epoch_unit(unit) && c == 0 {
                Ok(ValueModel::NumberU32(None))
            } else {
                Ok(ValueModel::NumberU32(Some(c)))
            }
        },
        ValueModel::NumberI32(_) => Ok(
            ValueModel::NumberI32(Some(as_signed_32(spec_combine_u32(words[0], words[1])) as i32)),
        ),
    }
}

/// The view of an optional string slice.
pub open spec fn view_opt_str(unit: Option<&str>) -> Option<Seq<char>> {
    match unit {
        Some(u) => Some(u@),
        None => None,
    }
}

/// Combines two 16-bit register words `[hi, lo]` into the unsigned 32-bit
/// value they encode.
pub fn combine_u32(hi: u16, lo: u16) -> (r: u32)
    ensures
        r == spec_combine_u32(hi, lo),
{
    hi as u32 * 0x10000 + lo as u32
}

/// Reinterprets an unsigned 32-bit pattern as two's-complement signed.
pub fn to_signed_32(c: u32) -> (r: i32)
    ensures
        r == as_signed_32(c),
{
    if c < 0x8000_0000 {
        c as i32
    } else {
        ((c as i64) - 0x1_0000_0000) as i32
    }
}

/// Reinterprets an unsigned 16-bit pattern as two's-complement signed.
pub fn to_signed_16(w: u16) -> (r: i16)
    ensures
        r == as_signed_16(w),
{
    if w < 0x8000 {
        w as i16
    } else {
        ((w as i32) - 0x1_0000) as i16
    }
}

/// Collects the non-zero big-endian bytes of the words.
fn collect_text_bytes(words: &[u16]) -> (bytes: Vec<u8>)
    ensures
        bytes@ == text_bytes(words@),
{
    let mut bytes: Vec<u8> = Vec::new();
    let n = words.len();
    let mut i: usize = 0;
    while i < n
        invariant
            i <= n,
            n == words@.len(),
            bytes@ == text_bytes(words@.take(i as int)),
        decreases n - i,
    {
        let w = words[i];
        let hi = (w / 256) as u8;
        let lo = (w % 256) as u8;
        if hi != 0 {
            bytes.push(hi);
        }
        if lo != 0 {
            bytes.push(lo);
        }
        proof {
            assert(words@.take(i + 1).drop_last() =~= words@.take(i as int));
            assert(bytes@ =~= text_bytes(words@.take(i as int)) + word_text_bytes(words@[i as int]));
        }
        i += 1;
    }
    proof {
        assert(words@.take(n as int) =~= words@);
    }
    bytes
}

/// Decodes raw register words against a value-kind template, yielding a
/// populated value of the same variant.
pub fn decode_value(template: &ParamKind, unit: Option<&str>, words: &[u16]) -> (r: Result<
    ParamKind,
    DecodeError,
>)
    requires
        words@.len() >= spec_kind_width(template@),
    ensures
        r matches Ok(v) ==> Ok::<ValueModel, DecodeError>(v@) == spec_decode_value(
            template@,
            view_opt_str(unit),
            words@,
        ),
        r matches Err(e) ==> Err::<ValueModel, DecodeError>(e) == spec_decode_value(
            template@,
            view_opt_str(unit),
            words@,
        ),
{
    match template {
        ParamKind::Text(_) => {
            let bytes = collect_text_bytes(words);
            match strutil::string_from_utf8(bytes) {
                Some(s) => Ok(ParamKind::Text(Some(s))),
                None => Err(DecodeError::MalformedText),
            }
        },
        ParamKind::NumberU16(_) => Ok(ParamKind::NumberU16(Some(words[0]))),
        ParamKind::NumberI16(_) => Ok(ParamKind::NumberI16(Some(to_signed_16(words[0])))),
        ParamKind::NumberU32(_) => {
            let c = combine_u32(words[0], words[1]);
            let epoch = match unit {
                Some(u) => strutil::str_eq(u, "epoch"),
                None => false,
            };
            if epoch && c == 0 {
                Ok(ParamKind::NumberU32(None))
            } else {
                Ok(ParamKind::NumberU32(Some(c)))
            }
        },
        ParamKind::NumberI32(_) => {
            let c = combine_u32(words[0], words[1]);
            Ok(ParamKind::NumberI32(Some(to_signed_32(c))))
        },
    }
}

/// Whether a value slot has been populated by a successful read.
pub open spec fn spec_has_value(v: ValueModel) -> bool {
    match v {
        ValueModel::Text(s) => s is Some,
        ValueModel::NumberU16(x) => x is Some,
        ValueModel::NumberI16(x) => x is Some,
        ValueModel::NumberU32(x) => x is Some,
        ValueModel::NumberI32(x) => x is Some,
    }
}

/// What [`ParamKind::describe`] renders: the variant's name, a colon,
/// and the held value.
pub open spec fn spec_describe_ok(v: ValueModel, out: Seq<char>) -> bool {
    match v {
        ValueModel::Text(s) => s matches Some(t) && out == "Text: "@ + t,
        ValueModel::NumberU16(x) => x matches Some(n) && out == "NumberU16: "@ + dec_of_nat(
            n as nat,
        ),
        ValueModel::NumberI16(x) => x matches Some(n) && out == "NumberI16: "@ + dec_of_int(
            n as int,
        ),
        ValueModel::NumberU32(x) => x matches Some(n) && out == "NumberU32: "@ + dec_of_nat(
            n as nat,
        ),
        ValueModel::NumberI32(x) => x matches Some(n) && out == "NumberI32: "@ + dec_of_int(
            n as int,
        ),
    }
}

impl ParamKind {
    /// Whether the value slot is populated, deciding [`spec_has_value`].
    pub fn has_value(&self) -> (r: bool)
        ensures
            r == spec_has_value(self@),
    {
        match self {
            ParamKind::Text(v) => v.is_some(),
            ParamKind::NumberU16(v) => v.is_some(),
            ParamKind::NumberI16(v) => v.is_some(),
            ParamKind::NumberU32(v) => v.is_some(),
            ParamKind::NumberI32(v) => v.is_some(),
        }
    }

    /// A copy with the same model.  (The derived `Clone` carries no
    /// specification.)
    pub fn duplicate(&self) -> (r: ParamKind)
        ensures
            r@ == self@,
    {
        match self {
            ParamKind::Text(v) => ParamKind::Text(
                match v {
                    Some(s) => Some(s.clone()),
                    None => None,
                },
            ),
            ParamKind::NumberU16(v) => ParamKind::NumberU16(*v),
            ParamKind::NumberI16(v) => ParamKind::NumberI16(*v),
            ParamKind::NumberU32(v) => ParamKind::NumberU32(*v),
            ParamKind::NumberI32(v) => ParamKind::NumberI32(*v),
        }
    }

    /// Renders the variant's name and its held value, e.g.
    /// `"NumberU16: 7"`.
    pub fn describe(&self) -> (r: String)
        requires
            spec_has_value(self@),
        ensures
            spec_describe_ok(self@, r@),
    {
        match self {
            ParamKind::Text(v) => match v {
                Some(s) => String::from_str("Text: ").concat(s.as_str()),
                None => {
                    proof {
                        assert(false);
                    }
                    String::new()
                },
            },
            ParamKind::NumberU16(v) => {
                let d = strutil::u64_to_dec_string(v.unwrap() as u64);
                String::from_str("NumberU16: ").concat(d.as_str())
            },
            ParamKind::NumberI16(v) => {
                let d = strutil::i64_to_dec_string(v.unwrap() as i64);
                String::from_str("NumberI16: ").concat(d.as_str())
            },
            ParamKind::NumberU32(v) => {
                let d = strutil::u64_to_dec_string(v.unwrap() as u64);
                String::from_str("NumberU32: ").concat(d.as_str())
            },
            ParamKind::NumberI32(v) => {
                let d = strutil::i64_to_dec_string(v.unwrap() as i64);
                String::from_str("NumberI32: ").concat(d.as_str())
            },
        }
    }
}

/// A value as handed to the telemetry sink.  A scaled value carries the
/// raw integer and its gain divisor; the sink side renders it as the
/// floating-point quotient.
pub enum FieldValue {
    SignedInteger(i64),
    Scaled { raw: i64, gain: u16 },
    Text(String),
}

/// Mathematical model of a [`FieldValue`].
#[verifier::ext_equal]
pub enum FieldModel {
    SignedInteger(i64),
    Scaled { raw: i64, gain: u16 },
    Text(Seq<char>),
}

impl View for FieldValue {
    type V = FieldModel;

    open spec fn view(&self) -> FieldModel {
        match self {
            FieldValue::SignedInteger(v) => FieldModel::SignedInteger(*v),
            FieldValue::Scaled { raw, gain } => FieldModel::Scaled { raw: *raw, gain: *gain },
            FieldValue::Text(s) => FieldModel::Text(s@),
        }
    }
}

} // verus!
