use vstd::prelude::*;

use crate::error::StdError;

verus! {

// The concrete byte sequences that the binary codec produces are not modelled
// bit for bit: each eligible payload shape gets an uninterpreted name for its
// encoding, and the trusted wrappers below relate `bincode2`'s behaviour to
// those names. Round-trip reasoning needs nothing more: whatever the bytes
// are, decoding the encoding of a value yields that value back.

/// The bytes that the binary codec produces for a `u64`.
pub uninterp spec fn bin_enc_u64(v: u64) -> Seq<u8>;

/// The bytes that the binary codec produces for a `usize`.
pub uninterp spec fn bin_enc_usize(v: usize) -> Seq<u8>;

/// The bytes that the binary codec produces for a byte vector paired with a
/// `u64`.
pub uninterp spec fn bin_enc_bytes_u64(content: Seq<u8>, ts: u64) -> Seq<u8>;

/// The bytes that the binary codec produces for a string.
pub uninterp spec fn bin_enc_str(s: Seq<char>) -> Seq<u8>;

/// Relies on `bincode2::serialize` for `u64`: it writes one fixed-width
/// integer into a fresh byte buffer, which cannot fail, and the output
/// depends on the value alone.
#[verifier::external_body]
pub(crate) fn bincode_encode_u64(v: u64) -> (r: Result<Vec<u8>, String>)
    ensures
        r is Ok,
        r matches Ok(b) ==> b@ == bin_enc_u64(v) && b@.len() > 0,
{
    bincode2::serialize(&v).map_err(|e| format!("{}", e))
}

/// Relies on `bincode2::deserialize` for `u64`: any buffer produced by
/// `bincode2::serialize` for a `u64` decodes back to that same value.
#[verifier::external_body]
pub(crate) fn bincode_decode_u64(data: &[u8]) -> (r: Result<u64, String>)
    ensures
        r is Ok <== exists|v: u64| data@ == #[trigger] bin_enc_u64(v),
        r matches Ok(x) ==> forall|v: u64| data@ == #[trigger] bin_enc_u64(v) ==> x == v,
{
    bincode2::deserialize::<u64>(data).map_err(|e| format!("{}", e))
}

/// Relies on `bincode2::serialize` for `usize`: as for `u64`, writing one
/// fixed-width integer into a fresh byte buffer cannot fail.
#[verifier::external_body]
pub(crate) fn bincode_encode_usize(v: usize) -> (r: Result<Vec<u8>, String>)
    ensures
        r is Ok,
        r matches Ok(b) ==> b@ == bin_enc_usize(v) && b@.len() > 0,
{
    bincode2::serialize(&v).map_err(|e| format!("{}", e))
}

/// Relies on `bincode2::deserialize` for `usize`: any buffer produced by
/// `bincode2::serialize` for a `usize` decodes back to that same value.
#[verifier::external_body]
pub(crate) fn bincode_decode_usize(data: &[u8]) -> (r: Result<usize, String>)
    ensures
        r is Ok <== exists|v: usize| data@ == #[trigger] bin_enc_usize(v),
        r matches Ok(x) ==> forall|v: usize| data@ == #[trigger] bin_enc_usize(v) ==> x == v,
{
    bincode2::deserialize::<usize>(data).map_err(|e| format!("{}", e))
}

/// Relies on `bincode2::serialize` for `(Vec<u8>, u64)`: a length-prefixed
/// byte sequence followed by a fixed-width integer, written into a fresh
/// buffer, which cannot fail.
#[verifier::external_body]
pub(crate) fn bincode_encode_bytes_u64(content: &Vec<u8>, ts: u64) -> (r: Result<
    Vec<u8>,
    String,
>)
    ensures
        r is Ok,
        r matches Ok(b) ==> b@ == bin_enc_bytes_u64(content@, ts) && b@.len() > 0,
{
    bincode2::serialize(&(content, ts)).map_err(|e| format!("{}", e))
}

/// Relies on `bincode2::deserialize` for `(Vec<u8>, u64)`: any buffer
/// produced by `bincode2::serialize` for such a pair decodes back to that
/// same pair.
#[verifier::external_body]
pub(crate) fn bincode_decode_bytes_u64(data: &[u8]) -> (r: Result<(Vec<u8>, u64), String>)
    ensures
        r is Ok <== exists|c: Seq<u8>, t: u64| data@ == #[trigger] bin_enc_bytes_u64(c, t),
        r matches Ok(p) ==> forall|c: Seq<u8>, t: u64|
            data@ == #[trigger] bin_enc_bytes_u64(c, t) ==> p.0@ == c && p.1 == t,
{
    bincode2::deserialize::<(Vec<u8>, u64)>(data).map_err(|e| format!("{}", e))
}

/// Relies on `bincode2::serialize` for `String`: a length prefix followed by
/// the UTF-8 bytes, written into a fresh buffer, which cannot fail.
#[verifier::external_body]
pub(crate) fn bincode_encode_str(v: &String) -> (r: Result<Vec<u8>, String>)
    ensures
        r is Ok,
        r matches Ok(b) ==> b@ == bin_enc_str(v@) && b@.len() > 0,
{
    bincode2::serialize(v).map_err(|e| format!("{}", e))
}

/// Relies on `bincode2::deserialize` for `String`: any buffer produced by
/// `bincode2::serialize` for a string decodes back to that same string.
#[verifier::external_body]
pub(crate) fn bincode_decode_str(data: &[u8]) -> (r: Result<String, String>)
    ensures
        r is Ok <== exists|s: Seq<char>| data@ == #[trigger] bin_enc_str(s),
        r matches Ok(x) ==> forall|s: Seq<char>| data@ == #[trigger] bin_enc_str(s) ==> x@ == s,
{
    bincode2::deserialize::<String>(data).map_err(|e| format!("{}", e))
}

/// What a decode returns: whenever the buffer is the encoding of a value,
/// exactly that value; and any failure is a `SerializeErr`.
pub open spec fn decode_outcome<T: Codec>(data: Seq<u8>, r: Result<T, StdError>) -> bool {
    &&& (forall|w: T::V| #![trigger T::enc_of(w)]
        T::enc_ok_of(w) && T::enc_of(w) == data ==> (r matches Ok(x) && x@ == w))
    &&& (r matches Err(e) ==> e is SerializeErr)
}

/// The binary codec capability: a type opts into storage by saying what its
/// encoding is (as a function of its abstract view) and providing the two
/// executable directions.
///
/// The decode contract is the round-trip law: for every value whose encoding
/// is exactly the given buffer, decoding yields that value back. Encoding is
/// deterministic per view, so the law also pins the decoded result down
/// uniquely.
pub trait Codec: View + Sized {
    /// Whether a value with this view encodes successfully.
    spec fn enc_ok_of(v: Self::V) -> bool;

    /// The encoding of a value with this view.
    spec fn enc_of(v: Self::V) -> Seq<u8>;

    /// Encode the value to an opaque byte blob.
    fn encode(&self) -> (r: Result<Vec<u8>, StdError>)
        ensures
            r is Ok <==> Self::enc_ok_of(self@),
            r matches Ok(b) ==> b@ == Self::enc_of(self@) && b@.len() > 0,
            r matches Err(e) ==> e is SerializeErr,
    ;

    /// Decode a value from a byte blob. Succeeds on any blob that `encode`
    /// produced for a value of this type, returning that value.
    fn decode(data: &[u8]) -> (r: Result<Self, StdError>)
        ensures
            forall|w: Self::V| #![trigger Self::enc_of(w)]
                Self::enc_ok_of(w) && Self::enc_of(w) == data@ ==> (r matches Ok(x) && x@ == w),
            r matches Err(e) ==> e is SerializeErr,
    ;
}

/// Round trip: decoding the buffer that a successful encode of a value
/// produced returns exactly that value.
pub proof fn lemma_codec_round_trip<T: Codec>(v: T::V, r: Result<T, StdError>)
    requires
        T::enc_ok_of(v),
        decode_outcome::<T>(T::enc_of(v), r),
    ensures
        r matches Ok(x) && x@ == v,
{
}

impl Codec for String {
    open spec fn enc_ok_of(v: Seq<char>) -> bool {
        true
    }

    open spec fn enc_of(v: Seq<char>) -> Seq<u8> {
        bin_enc_str(v)
    }

    fn encode(&self) -> (r: Result<Vec<u8>, StdError>) {
        match bincode_encode_str(self) {
            Ok(b) => Ok(b),
            Err(msg) => Err(StdError::SerializeErr { source: "String".to_string(), msg }),
        }
    }

    fn decode(data: &[u8]) -> (r: Result<String, StdError>) {
        match bincode_decode_str(data) {
            Ok(s) => Ok(s),
            Err(msg) => Err(StdError::SerializeErr { source: "String".to_string(), msg }),
        }
    }
}

/// A value that never encodes.
///
/// Saving one exercises the failure path of the primitives: the store must be
/// left unmodified and a `SerializeErr` returned.
#[derive(Clone, Debug, PartialEq)]
pub struct Unencodable;

impl View for Unencodable {
    type V = ();

    open spec fn view(&self) -> () {
        ()
    }
}

impl Codec for Unencodable {
    open spec fn enc_ok_of(v: ()) -> bool {
        false
    }

    open spec fn enc_of(v: ()) -> Seq<u8> {
        Seq::<u8>::empty()
    }

    fn encode(&self) -> (r: Result<Vec<u8>, StdError>) {
        Err(
            StdError::SerializeErr {
                source: "Unencodable".to_string(),
                msg: "this type does not encode".to_string(),
            },
        )
    }

    fn decode(data: &[u8]) -> (r: Result<Unencodable, StdError>) {
        Err(
            StdError::SerializeErr {
                source: "Unencodable".to_string(),
                msg: "this type does not decode".to_string(),
            },
        )
    }
}

} // verus!
