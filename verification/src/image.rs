//! The image payloads of an export: their roles, the optional data-URI prefix
//! in front of them, and their decoding from base64.

use base64::DecodeError;
use vstd::prelude::*;
use vstd::string::*;

verus! {

/// The three images that an export may hold, in the order in which they are
/// written.
#[derive(Clone, Copy, Debug, PartialEq, Eq, Structural)]
pub enum Role {
    Frontale,
    Laterale,
    Pianta,
}

impl Role {
    /// What follows the sanitized name in the name of this role's file.
    pub open spec fn suffix(self) -> Seq<char> {
        match self {
            Role::Frontale => "_FRONTALE.png"@,
            Role::Laterale => "_LATERALE.png"@,
            Role::Pianta => "_PIANTA.png"@,
        }
    }

    /// The end of this role's file name.
    pub fn file_suffix(self) -> (text: &'static str)
        ensures
            text@ == self.suffix(),
    {
        match self {
            Role::Frontale => "_FRONTALE.png",
            Role::Laterale => "_LATERALE.png",
            Role::Pianta => "_PIANTA.png",
        }
    }

    /// The name of this role's file for a project of the given sanitized name.
    pub fn file_name(self, sanitized_name: &str) -> (name: String)
        ensures
            name@ == sanitized_name@ + self.suffix(),
    {
        let mut name = sanitized_name.to_owned();
        name.append(self.file_suffix());
        name
    }
}

/// Why a text is not standard base64.
#[derive(Clone, Copy, Debug, PartialEq, Eq, Structural)]
pub enum DecodeFault {
    /// A byte that is no symbol of the alphabet, or padding out of place.
    InvalidByte { offset: usize, byte: u8 },
    /// A number of symbols that no encoding has.
    InvalidLength { length: usize },
    /// A last symbol with bits that no encoding sets.
    InvalidLastSymbol { offset: usize, byte: u8 },
    /// Padding that is missing or not canonical.
    InvalidPadding,
}

/// The prefix that a payload may carry in front of its base64 text.
pub open spec fn data_uri_prefix() -> Seq<char> {
    "data:image/png;base64,"@
}

/// The base64 text of a payload: the payload without the data-URI prefix,
/// where it begins with one, and the payload itself where it does not.
pub open spec fn payload_text(payload: Seq<char>) -> Seq<char> {
    if data_uri_prefix().is_prefix_of(payload) {
        payload.skip(data_uri_prefix().len() as int)
    } else {
        payload
    }
}

/// What the standard base64 alphabet with canonical padding makes of `text`:
/// the bytes that it encodes, or the fault that the decoder finds in it.
pub uninterp spec fn standard_base64(text: Seq<char>) -> Result<Seq<u8>, DecodeFault>;

/// The bytes of an image payload, or the reason why it has none.
pub open spec fn decoded_payload(payload: Seq<char>) -> Result<Seq<u8>, DecodeFault> {
    standard_base64(payload_text(payload))
}

/// The view of a decoding's result.
pub open spec fn decoding_view(result: Result<Vec<u8>, DecodeFault>) -> Result<
    Seq<u8>,
    DecodeFault,
> {
    match result {
        Ok(bytes) => Ok(bytes@),
        Err(fault) => Err(fault),
    }
}

/// `Engine::decode` of the base64 crate, on its `STANDARD` engine. The result
/// is a function of the text alone, named `standard_base64`; the decoder's
/// error is handed on variant by variant.
#[verifier::external_body]
fn decode_standard(text: &str) -> (result: Result<Vec<u8>, DecodeFault>)
    ensures
        decoding_view(result) == standard_base64(text@),
{
    match base64::Engine::decode(&base64::engine::general_purpose::STANDARD, text) {
        Ok(bytes) => Ok(bytes),
        Err(DecodeError::InvalidByte(offset, byte)) => Err(
            DecodeFault::InvalidByte { offset, byte },
        ),
        Err(DecodeError::InvalidLength(length)) => Err(DecodeFault::InvalidLength { length }),
        Err(DecodeError::InvalidLastSymbol(offset, byte)) => Err(
            DecodeFault::InvalidLastSymbol { offset, byte },
        ),
        Err(DecodeError::InvalidPadding) => Err(DecodeFault::InvalidPadding),
    }
}

/// The decoder's words for a fault.
pub uninterp spec fn fault_text(fault: DecodeFault) -> Seq<char>;

/// `to_string` on the base64 crate's `DecodeError`, which writes the error as
/// its `Display` does. The fault is handed over variant by variant; the text
/// is a function of the fault alone, named `fault_text`.
#[verifier::external_body]
pub(crate) fn describe_fault(fault: DecodeFault) -> (text: String)
    ensures
        text@ == fault_text(fault),
{
    let error = match fault {
        DecodeFault::InvalidByte { offset, byte } => DecodeError::InvalidByte(offset, byte),
        DecodeFault::InvalidLength { length } => DecodeError::InvalidLength(length),
        DecodeFault::InvalidLastSymbol { offset, byte } => {
            DecodeError::InvalidLastSymbol(offset, byte)
        },
        DecodeFault::InvalidPadding => DecodeError::InvalidPadding,
    };
    error.to_string()
}

/// Tells whether a payload begins with the data-URI prefix.
pub fn has_data_uri_prefix(payload: &str) -> (found: bool)
    ensures
        found == data_uri_prefix().is_prefix_of(payload@),
{
    let prefix = "data:image/png;base64,";
    proof {
        reveal_strlit("data:image/png;base64,");
    }
    let n: usize = payload.unicode_len();
    if n < 22 {
        return false;
    }
    let mut i: usize = 0;
    while i < 22
        invariant
            i <= 22,
            22 <= n == payload@.len(),
            prefix@ == data_uri_prefix(),
            prefix@.len() == 22,
            forall|j: int| 0 <= j < i ==> payload@[j] == prefix@[j],
        decreases 22 - i,
    {
        if payload.get_char(i) != prefix.get_char(i) {
            assert(payload@.subrange(0, 22)[i as int] != prefix@[i as int]);
            return false;
        }
        i = i + 1;
    }
    assert(payload@.subrange(0, 22) =~= prefix@);
    true
}

/// Takes the data-URI prefix off a payload that begins with one.
pub fn strip_data_uri_prefix<'a>(payload: &'a str) -> (text: &'a str)
    ensures
        text@ == payload_text(payload@),
{
    if has_data_uri_prefix(payload) {
        proof {
            reveal_strlit("data:image/png;base64,");
        }
        let n: usize = payload.unicode_len();
        payload.substring_char(22, n)
    } else {
        payload
    }
}

/// Decodes an image payload: the prefix comes off, the rest is read as
/// standard base64.
pub fn decode_image(payload: &str) -> (result: Result<Vec<u8>, DecodeFault>)
    ensures
        decoding_view(result) == decoded_payload(payload@),
{
    decode_standard(strip_data_uri_prefix(payload))
}

} // verus!
