use vstd::prelude::*;
use vstd::string::StrSliceExecFns;

use crate::errors::FuzzError;
use crate::rng::random_bytes;

verus! {

/// One declared ABI parameter type, a closed tagged union.
///
/// Only the leaf kinds that `parse_kind` can produce are ever constructed by
/// this library; the remaining kinds are declared so that the unimplemented
/// boundary is explicit rather than silent.
#[derive(Debug)]
pub enum ParamKind {
    /// A 20-byte account address.
    Address,
    /// Dynamic byte sequence.
    Bytes,
    /// Signed integer of the given bit width.
    Int(usize),
    /// Unsigned integer of the given bit width.
    Uint(usize),
    /// Boolean.
    Bool,
    /// Dynamic character string.
    Text,
    /// Array of unknown size.
    Array(Box<ParamKind>),
    /// Byte vector of fixed size.
    FixedBytes(usize),
    /// Array of fixed size.
    FixedArray(Box<ParamKind>, usize),
    /// Tuple of heterogeneous kinds.
    Tuple(Vec<ParamKind>),
}

/// The bit widths of unsigned integers that the generator encodes.
pub open spec fn uint_width_supported(w: usize) -> bool {
    w == 8 || w == 16 || w == 32 || w == 64 || w == 128 || w == 256
}

/// What parsing a declared type name yields: the supported baseline of leaf
/// kinds, or nothing for every other spelling.
pub open spec fn parse_kind(s: Seq<char>) -> Option<ParamKind> {
    if s == "address"@ {
        Some(ParamKind::Address)
    } else if s == "bytes"@ {
        Some(ParamKind::Bytes)
    } else if s == "uint8"@ {
        Some(ParamKind::Uint(8))
    } else if s == "uint16"@ {
        Some(ParamKind::Uint(16))
    } else if s == "uint32"@ {
        Some(ParamKind::Uint(32))
    } else if s == "uint64"@ {
        Some(ParamKind::Uint(64))
    } else if s == "uint128"@ {
        Some(ParamKind::Uint(128))
    } else if s == "uint256"@ {
        Some(ParamKind::Uint(256))
    } else {
        None
    }
}

/// The kinds whose random in-place encoding is implemented: addresses and the
/// supported unsigned integer widths. Every other kind fails loudly.
pub open spec fn encodable(k: ParamKind) -> bool {
    match k {
        ParamKind::Address => true,
        ParamKind::Uint(w) => uint_width_supported(w),
        _ => false,
    }
}

/// How many random payload bytes an encodable kind occupies at the low end of
/// its 32-byte word.
pub open spec fn payload_width(k: ParamKind) -> int {
    match k {
        ParamKind::Address => 20,
        ParamKind::Uint(w) => w as int / 8,
        _ => 0,
    }
}

/// A sequence of `n` zero bytes.
pub open spec fn zero_bytes(n: nat) -> Seq<u8> {
    Seq::new(n, |i: int| 0u8)
}

/// The 32-byte word that places `payload` at the low-order end and fills the
/// rest with zero bytes.
pub open spec fn encoded_word(k: ParamKind, payload: Seq<u8>) -> Seq<u8> {
    zero_bytes((32 - payload_width(k)) as nat) + payload
}

/// A word is well-formed for a kind when it is exactly 32 bytes and its
/// padding prefix is all zero.
pub open spec fn word_zero_padded(k: ParamKind, w: Seq<u8>) -> bool {
    &&& encodable(k)
    &&& w.len() == 32
    &&& forall|i: int| 0 <= i < 32 - payload_width(k) ==> w[i] == 0u8
}

/// String equality by content; the standard comparison is opaque to the
/// verifier, so the characters are compared one by one.
pub fn str_eq(a: &str, b: &str) -> (r: bool)
    ensures
        r == (a@ == b@),
{
    let la = a.unicode_len();
    let lb = b.unicode_len();
    if la != lb {
        return false;
    }
    let mut i: usize = 0;
    while i < la
        invariant
            la == a@.len(),
            lb == b@.len(),
            la == lb,
            i <= la,
            forall|j: int| 0 <= j < i ==> a@[j] == b@[j],
        decreases la - i,
    {
        if a.get_char(i) != b.get_char(i) {
            return false;
        }
        i += 1;
    }
    proof {
        assert(a@ =~= b@);
    }
    true
}

impl ParamKind {
    /// Parses a human-readable type name into its kind; any spelling outside
    /// the supported baseline is rejected rather than approximated.
    pub fn from_string(s: &str) -> (r: Result<ParamKind, FuzzError>)
        ensures
            r is Ok <==> parse_kind(s@) is Some,
            r matches Ok(k) ==> parse_kind(s@) == Some(k),
            r is Err ==> r == Err::<ParamKind, FuzzError>(FuzzError::UnsupportedTypeKind),
    {
        if str_eq(s, "address") {
            Ok(ParamKind::Address)
        } else if str_eq(s, "bytes") {
            Ok(ParamKind::Bytes)
        } else if str_eq(s, "uint8") {
            Ok(ParamKind::Uint(8))
        } else if str_eq(s, "uint16") {
            Ok(ParamKind::Uint(16))
        } else if str_eq(s, "uint32") {
            Ok(ParamKind::Uint(32))
        } else if str_eq(s, "uint64") {
            Ok(ParamKind::Uint(64))
        } else if str_eq(s, "uint128") {
            Ok(ParamKind::Uint(128))
        } else if str_eq(s, "uint256") {
            Ok(ParamKind::Uint(256))
        } else {
            Err(FuzzError::UnsupportedTypeKind)
        }
    }

    /// Whether the random encoder implements this kind.
    pub fn is_encodable(&self) -> (r: bool)
        ensures
            r == encodable(*self),
    {
        match self {
            ParamKind::Address => true,
            ParamKind::Uint(w) => {
                *w == 8 || *w == 16 || *w == 32 || *w == 64 || *w == 128 || *w == 256
            },
            _ => false,
        }
    }

    /// How many payload bytes this kind draws for one word.
    pub fn payload_len(&self) -> (r: usize)
        requires
            encodable(*self),
        ensures
            r == payload_width(*self),
    {
        match self {
            ParamKind::Address => 20,
            ParamKind::Uint(w) => *w / 8,
            _ => 0,
        }
    }
}

/// Builds the 32-byte word for an encodable kind from the payload bytes that
/// were drawn for it: zero padding first, then the payload at the low end.
pub fn encode_word(k: &ParamKind, payload: &Vec<u8>) -> (r: Vec<u8>)
    requires
        encodable(*k),
        payload@.len() == payload_width(*k),
    ensures
        r@ == encoded_word(*k, payload@),
        r@.len() == 32,
{
    let pad: usize = 32 - payload.len();
    let mut out: Vec<u8> = Vec::new();
    let mut i: usize = 0;
    while i < pad
        invariant
            i <= pad,
            out@ =~= zero_bytes(i as nat),
        decreases pad - i,
    {
        out.push(0u8);
        i += 1;
    }
    let mut j: usize = 0;
    while j < payload.len()
        invariant
            j <= payload@.len(),
            pad == 32 - payload_width(*k),
            payload@.len() == payload_width(*k),
            encodable(*k),
            out@ =~= zero_bytes(pad as nat) + payload@.take(j as int),
        decreases payload@.len() - j,
    {
        out.push(payload[j]);
        j += 1;
    }
    proof {
        assert(payload@.take(payload@.len() as int) =~= payload@);
        assert(out@ =~= encoded_word(*k, payload@));
    }
    out
}

/// Draws a fresh random in-place encoding for one parameter: a 32-byte word
/// whose padding prefix is zero and whose low-order bytes are random. Kinds
/// outside the implemented baseline fail loudly rather than mis-encode.
pub fn random_encoded_value(k: &ParamKind, rng: &mut rand::rngs::ThreadRng) -> (r: Result<
    Vec<u8>,
    FuzzError,
>)
    ensures
        r is Ok <==> encodable(*k),
        r matches Ok(w) ==> word_zero_padded(*k, w@),
        r is Err ==> r == Err::<Vec<u8>, FuzzError>(FuzzError::UnsupportedTypeKind),
{
    if !k.is_encodable() {
        return Err(FuzzError::UnsupportedTypeKind);
    }
    let payload = random_bytes(rng, k.payload_len());
    let word = encode_word(k, &payload);
    Ok(word)
}

} // verus!
