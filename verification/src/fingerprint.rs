//! Raw fingerprints and their compressed encodings.
//!
//! Compressing, decompressing and hashing are done by the C library. Each of
//! these operations is split around that call: a function of this module
//! prepares the arguments of the call, the caller performs it and hands the
//! reply back to `finish`, which decides what the operation returns.

use vstd::prelude::*;
use vstd::utf8::decode_utf8;
use vstd::utf8::valid_utf8;
use vstd::string::StringSliceAdditionalSpecFns;

use crate::algorithm::{algorithm_numbered, Algorithm};
use crate::error::{
    check_ret, encoded_buffer_len, encoded_len_result, raw_buffer_len, raw_len_result,
    result_view, status_ok, ChromaprintError,
};
use crate::sys::ChromaprintAlgorithm;

verus! {

/// A raw fingerprint: the algorithm that computed it and its items.
#[derive(Debug, PartialEq, Eq)]
pub struct Fingerprint {
    algorithm: Algorithm,
    data: Vec<u32>,
}

impl Fingerprint {
    /// The number of items fits in a C `int`: every fingerprint is read from
    /// a buffer whose size the C library reported as a C `int`.
    #[verifier::type_invariant]
    spec fn inv(self) -> bool {
        self.data@.len() <= i32::MAX
    }
}

impl Clone for Fingerprint {
    fn clone(&self) -> (res: Self)
        ensures
            res@ == self@,
    {
        proof {
            use_type_invariant(self);
        }
        let data = self.data.clone();
        proof {
            assert(data@ =~= self.data@);
        }
        Fingerprint { algorithm: self.algorithm, data }
    }
}

impl View for Fingerprint {
    type V = (Algorithm, Seq<u32>);

    closed spec fn view(&self) -> (Algorithm, Seq<u32>) {
        (self.algorithm, self.data@)
    }
}

/// What the C library hands back from a call that fills a buffer: the status
/// code, the size it reported, whether the buffer pointer it handed back is
/// null, and the items copied out of the buffer (`None` where the buffer was
/// not to be read).
pub struct RawReply<T> {
    pub status: i32,
    pub size: i32,
    pub is_null: bool,
    pub buffer: Option<Vec<T>>,
}

impl<T> RawReply<T> {
    /// The items of the buffer, if there is one.
    pub open spec fn items(&self) -> Option<Seq<T>> {
        match self.buffer {
            Some(b) => Some(b@),
            None => None,
        }
    }

    /// The buffer was read exactly where its pointer is not null and `len`
    /// allowed reading, and then with that length.
    pub open spec fn read_with(&self, len: Result<usize, ChromaprintError>) -> bool {
        &&& self.items() matches Some(items) ==> !self.is_null && (len matches Ok(n)
            && items.len() == n)
        &&& (!self.is_null && len is Ok) ==> self.items() is Some
    }
}

/// What becomes of a reply that carries a raw fingerprint: a failing status
/// is refused first, then a null buffer, then a negative size.
pub open spec fn raw_outcome(status: i32, size: i32, is_null: bool, items: Option<Seq<u32>>) -> Result<
    Seq<u32>,
    ChromaprintError,
> {
    if !status_ok(status) {
        Err(ChromaprintError::Chromaprint)
    } else if is_null {
        Err(ChromaprintError::InvalidBuffer)
    } else if size < 0 {
        Err(ChromaprintError::InvalidSize)
    } else {
        match items {
            None => Err(ChromaprintError::InvalidBuffer),
            Some(d) => Ok(d),
        }
    }
}

/// What decoding returns for a reply of the decompressor that names
/// `algorithm`: the raw fingerprint, once the algorithm number is known.
pub open spec fn decode_outcome(
    status: i32,
    size: i32,
    is_null: bool,
    items: Option<Seq<u32>>,
    algorithm: ChromaprintAlgorithm,
) -> Result<(Algorithm, Seq<u32>), ChromaprintError> {
    match raw_outcome(status, size, is_null, items) {
        Err(e) => Err(e),
        Ok(d) => match algorithm_numbered(algorithm.0) {
            None => Err(ChromaprintError::UnkownAlgorithm),
            Some(a) => Ok((a, d)),
        },
    }
}

/// What encoding returns for a reply of the compressor: the bytes, once the
/// status, the size and then the buffer pointer have been checked.
pub open spec fn encode_outcome(status: i32, size: i32, is_null: bool, items: Option<Seq<u8>>) -> Result<
    Seq<u8>,
    ChromaprintError,
> {
    match encoded_len_result(status, size) {
        Err(e) => Err(e),
        Ok(_) => if is_null {
            Err(ChromaprintError::InvalidBuffer)
        } else {
            match items {
                None => Err(ChromaprintError::InvalidBuffer),
                Some(d) => Ok(d),
            }
        },
    }
}

/// What encoding into text returns for a reply of the compressor: the
/// encoded bytes read as UTF-8 text.
pub open spec fn encode_text_outcome(
    status: i32,
    size: i32,
    is_null: bool,
    items: Option<Seq<u8>>,
) -> Result<Seq<char>, ChromaprintError> {
    match encode_outcome(status, size, is_null, items) {
        Err(e) => Err(e),
        Ok(bytes) => if valid_utf8(bytes) {
            Ok(decode_utf8(bytes))
        } else {
            Err(ChromaprintError::InvalidString)
        },
    }
}

/// `String::from_utf8` of std: it succeeds exactly on well-formed UTF-8, and
/// then holds the characters that the bytes encode.
#[verifier::external_body]
fn string_from_utf8(bytes: Vec<u8>) -> (res: Option<String>)
    ensures
        res is Some <==> valid_utf8(bytes@),
        res matches Some(s) ==> s@ == decode_utf8(bytes@),
{
    String::from_utf8(bytes).ok()
}

/// `Vec::into_boxed_slice` of std: the boxed slice holds the same items.
#[verifier::external_body]
fn vec_into_boxed_slice<T>(v: Vec<T>) -> (res: Box<[T]>)
    ensures
        res@ == v@,
{
    v.into_boxed_slice()
}

/// `String::into_boxed_str` of std: the boxed text holds the same characters.
#[verifier::external_body]
fn string_into_boxed_str(s: String) -> (res: Box<str>)
    ensures
        res@ == s@,
{
    s.into_boxed_str()
}

/// Arguments of one call of the decompressor of the C library.
pub struct DecodeCall<'a> {
    /// The encoded fingerprint handed to the C library.
    pub encoded: &'a [u8],
    /// Its length as handed over: the length converted to a C `int`.
    pub encoded_size: i32,
    /// 1 where the input is base64 text, 0 where it is binary.
    pub base64: i32,
}

impl<'a> DecodeCall<'a> {
    /// Number of items to read from the buffer that the decompressor
    /// handed back with `status` and `size`.
    pub fn buffer_len(&self, status: i32, size: i32) -> (res: Result<usize, ChromaprintError>)
        ensures
            res == raw_len_result(status, size),
            status == 1 && size >= 0 ==> res == Ok::<usize, ChromaprintError>(size as usize),
            res matches Ok(n) ==> status == 1 && n == size,
    {
        raw_buffer_len(status, size)
    }

    /// The fingerprint decoded from the decompressor's reply and the
    /// algorithm number it reported.
    pub fn finish(self, reply: RawReply<u32>, algorithm: ChromaprintAlgorithm) -> (res: Result<
        Fingerprint,
        ChromaprintError,
    >)
        requires
            reply.read_with(raw_len_result(reply.status, reply.size)),
        ensures
            result_view(res) == decode_outcome(reply.status, reply.size, reply.is_null, reply.items(), algorithm),
            res is Ok <==> reply.status == 1 && !reply.is_null && reply.size >= 0 && 0
                <= algorithm.0 <= 4,
            res matches Ok(fp) ==> reply.items() == Some(fp@.1) && fp@.1.len() == reply.size
                && fp@.0.number() == algorithm.0,
    {
        let data = raw_fingerprint_data(reply)?;
        let algorithm = Algorithm::from_sys(algorithm)?;
        Ok(Fingerprint::from_parts(algorithm, data))
    }
}

/// The items of a reply that carries a raw fingerprint.
pub(crate) fn raw_fingerprint_data(reply: RawReply<u32>) -> (res: Result<
    Vec<u32>,
    ChromaprintError,
>)
    requires
        reply.read_with(raw_len_result(reply.status, reply.size)),
    ensures
        result_view(res) == raw_outcome(reply.status, reply.size, reply.is_null, reply.items()),
        res matches Ok(d) ==> d@.len() <= i32::MAX,
        res is Ok <==> reply.status == 1 && !reply.is_null && reply.size >= 0,
        res matches Ok(d) ==> reply.items() == Some(d@) && d@.len() == reply.size,
{
    check_ret(reply.status)?;
    if reply.is_null {
        return Err(ChromaprintError::InvalidBuffer);
    }
    if reply.size < 0 {
        return Err(ChromaprintError::InvalidSize);
    }
    match reply.buffer {
        Some(data) => Ok(data),
        None => Err(ChromaprintError::InvalidBuffer),
    }
}

/// Arguments of one call of the compressor of the C library.
pub struct EncodeCall<'a> {
    /// The raw fingerprint handed to the C library.
    pub data: &'a [u32],
    /// Its number of items.
    pub size: i32,
    /// The algorithm that computed it.
    pub algorithm: ChromaprintAlgorithm,
    /// 1 where the output is to be base64 text, 0 where it is to be binary.
    pub base64: i32,
}

impl<'a> EncodeCall<'a> {
    /// Number of bytes to read from the buffer that the compressor handed
    /// back with `status` and `size`.
    pub fn buffer_len(&self, status: i32, size: i32) -> (res: Result<usize, ChromaprintError>)
        ensures
            res == encoded_len_result(status, size),
            status == 1 && size > 0 ==> res == Ok::<usize, ChromaprintError>(size as usize),
            res matches Ok(n) ==> status == 1 && n == size,
    {
        encoded_buffer_len(status, size)
    }

    /// The encoded bytes from the compressor's reply.
    pub fn finish(self, reply: RawReply<u8>) -> (res: Result<Box<[u8]>, ChromaprintError>)
        requires
            reply.read_with(encoded_len_result(reply.status, reply.size)),
        ensures
            result_view(res) == encode_outcome(reply.status, reply.size, reply.is_null, reply.items()),
            res is Ok <==> reply.status == 1 && reply.size > 0 && !reply.is_null,
            res matches Ok(b) ==> reply.items() == Some(b@) && b@.len() == reply.size,
    {
        let bytes = encoded_bytes(reply)?;
        Ok(vec_into_boxed_slice(bytes))
    }

    /// The encoded text from the compressor's reply; bytes that are not
    /// UTF-8 are refused.
    pub fn finish_text(self, reply: RawReply<u8>) -> (res: Result<Box<str>, ChromaprintError>)
        requires
            reply.read_with(encoded_len_result(reply.status, reply.size)),
        ensures
            result_view(res) == encode_text_outcome(reply.status, reply.size, reply.is_null, reply.items()),
            res matches Ok(s) ==> reply.items() matches Some(b) && b.len() == reply.size
                && valid_utf8(b) && s@ == decode_utf8(b),
            res is Ok <==> reply.status == 1 && reply.size > 0 && !reply.is_null
                && valid_utf8(reply.items().unwrap()),
    {
        let bytes = encoded_bytes(reply)?;
        match string_from_utf8(bytes) {
            Some(s) => Ok(string_into_boxed_str(s)),
            None => Err(ChromaprintError::InvalidString),
        }
    }
}

/// The bytes of a reply that carries an encoded fingerprint.
fn encoded_bytes(reply: RawReply<u8>) -> (res: Result<Vec<u8>, ChromaprintError>)
    requires
        reply.read_with(encoded_len_result(reply.status, reply.size)),
    ensures
        result_view(res) == encode_outcome(reply.status, reply.size, reply.is_null, reply.items()),
        res is Ok <==> reply.status == 1 && reply.size > 0 && !reply.is_null,
        res matches Ok(b) ==> reply.items() == Some(b@) && b@.len() == reply.size,
{
    encoded_buffer_len(reply.status, reply.size)?;
    if reply.is_null {
        return Err(ChromaprintError::InvalidBuffer);
    }
    match reply.buffer {
        Some(data) => Ok(data),
        None => Err(ChromaprintError::InvalidBuffer),
    }
}

/// Arguments of one call of the fingerprint hash of the C library.
pub struct HashCall<'a> {
    /// The raw fingerprint handed to the C library.
    pub data: &'a [u32],
    /// Its number of items.
    pub size: i32,
}

impl<'a> HashCall<'a> {
    /// The hash from the reply of the C library: `hash` where the status
    /// reports success.
    pub fn finish(self, status: i32, hash: u32) -> (res: Result<u32, ChromaprintError>)
        ensures
            res is Ok <==> status_ok(status),
            res matches Ok(h) ==> h == hash,
            res matches Err(e) ==> e == ChromaprintError::Chromaprint,
    {
        check_ret(status)?;
        Ok(hash)
    }
}

impl Fingerprint {
    /// Makes a fingerprint of the given items, computed by `algorithm`.
    pub(crate) fn from_parts(algorithm: Algorithm, data: Vec<u32>) -> (res: Fingerprint)
        requires
            data@.len() <= i32::MAX,
        ensures
            res@ == (algorithm, data@),
    {
        Fingerprint { algorithm, data }
    }

    /// Prepares decoding a fingerprint compressed in binary form; an input
    /// longer than a C `int` can count is refused.
    pub fn decode_binary(fingerprint: &[u8]) -> (res: Result<DecodeCall<'_>, ChromaprintError>)
        ensures
            res is Ok <==> fingerprint@.len() <= i32::MAX,
            res matches Ok(call) ==> call.encoded@ == fingerprint@ && call.encoded_size
                == fingerprint@.len() && call.base64 == 0,
            res matches Err(e) ==> e == ChromaprintError::InputTooLong,
    {
        Self::decode(fingerprint, false)
    }

    /// Prepares decoding a fingerprint compressed and written as base64
    /// text; a text of more bytes than a C `int` can count is refused.
    pub fn decode_base64(fingerprint: &str) -> (res: Result<DecodeCall<'_>, ChromaprintError>)
        ensures
            res is Ok <==> fingerprint.spec_bytes().len() <= i32::MAX,
            res matches Ok(call) ==> call.encoded@ == fingerprint.spec_bytes() && call.encoded_size
                == fingerprint.spec_bytes().len() && call.base64 == 1,
            res matches Err(e) ==> e == ChromaprintError::InputTooLong,
    {
        Self::decode(fingerprint.as_bytes(), true)
    }

    fn decode(fingerprint: &[u8], base64: bool) -> (res: Result<DecodeCall<'_>, ChromaprintError>)
        ensures
            res is Ok <==> fingerprint@.len() <= i32::MAX,
            res matches Ok(call) ==> call.encoded@ == fingerprint@ && call.encoded_size
                == fingerprint@.len() && call.base64 == (if base64 { 1i32 } else { 0i32 }),
            res matches Err(e) ==> e == ChromaprintError::InputTooLong,
    {
        if fingerprint.len() > i32::MAX as usize {
            return Err(ChromaprintError::InputTooLong);
        }
        Ok(DecodeCall {
            encoded: fingerprint,
            encoded_size: fingerprint.len() as i32,
            base64: if base64 { 1 } else { 0 },
        })
    }

    /// The items of the fingerprint.
    pub fn as_raw(&self) -> (res: &[u32])
        ensures
            res@ == self@.1,
            res@.len() <= i32::MAX,
    {
        proof {
            use_type_invariant(self);
        }
        self.data.as_slice()
    }

    /// The items of the fingerprint, taking it apart.
    pub fn into_raw(self) -> (res: Box<[u32]>)
        ensures
            res@ == self@.1,
            res@.len() <= i32::MAX,
    {
        proof {
            use_type_invariant(&self);
        }
        vec_into_boxed_slice(self.data)
    }

    /// The algorithm that computed the fingerprint.
    pub fn algorithm(&self) -> (res: Algorithm)
        ensures
            res == self@.0,
    {
        self.algorithm
    }

    /// Prepares hashing the fingerprint: the call depends on its items
    /// alone, whose number always fits in a C `int`.
    pub fn hash(&self) -> (call: HashCall<'_>)
        ensures
            call.data@ == self@.1,
            call.size == self@.1.len(),
    {
        proof {
            use_type_invariant(self);
        }
        HashCall { data: self.data.as_slice(), size: self.data.len() as i32 }
    }

    /// Prepares compressing the fingerprint into base64 text.
    pub fn encode_base64(&self) -> (call: EncodeCall<'_>)
        ensures
            call.data@ == self@.1,
            call.size == self@.1.len(),
            call.algorithm.0 == self@.0.number(),
            call.base64 == 1,
    {
        self.encode(true)
    }

    /// Prepares compressing the fingerprint into binary form.
    pub fn encode_binary(&self) -> (call: EncodeCall<'_>)
        ensures
            call.data@ == self@.1,
            call.size == self@.1.len(),
            call.algorithm.0 == self@.0.number(),
            call.base64 == 0,
    {
        self.encode(false)
    }

    fn encode(&self, base64: bool) -> (call: EncodeCall<'_>)
        ensures
            call.data@ == self@.1,
            call.size == self@.1.len(),
            call.algorithm.0 == self@.0.number(),
            call.base64 == (if base64 { 1i32 } else { 0i32 }),
    {
        proof {
            use_type_invariant(self);
        }
        EncodeCall {
            data: self.data.as_slice(),
            size: self.data.len() as i32,
            algorithm: self.algorithm.into_sys(),
            base64: if base64 { 1 } else { 0 },
        }
    }
}

/// Where the decompressor hands back exactly the items and the algorithm
/// number that the compressor was handed for a fingerprint, decoding gives
/// back that fingerprint.
pub proof fn lemma_decode_reads_back_encoded(fp: Fingerprint)
    requires
        fp@.1.len() <= i32::MAX,
    ensures
        decode_outcome(
            1,
            fp@.1.len() as i32,
            false,
            Some(fp@.1),
            ChromaprintAlgorithm(fp@.0.number()),
        ) == Ok::<(Algorithm, Seq<u32>), ChromaprintError>(fp@),
{
}

/// A reply with a success status, a non-null buffer and a size that is not
/// negative yields exactly the items of its buffer, all of them.
pub proof fn lemma_raw_outcome_keeps_all_items(n: i32, s: Seq<u32>)
    requires
        n >= 0,
        s.len() == n,
    ensures
        raw_outcome(1, n, false, Some(s)) == Ok::<Seq<u32>, ChromaprintError>(s),
{
}

/// Decoding a reply with a success status, a non-null buffer and a known
/// algorithm number yields exactly the buffer's items and that algorithm.
pub proof fn lemma_decode_outcome_keeps_all_items(n: i32, s: Seq<u32>, a: Algorithm)
    requires
        n >= 0,
        s.len() == n,
    ensures
        decode_outcome(1, n, false, Some(s), ChromaprintAlgorithm(a.number())) == Ok::<
            (Algorithm, Seq<u32>),
            ChromaprintError,
        >((a, s)),
{
}

/// Encoding yields exactly the bytes of a successful, non-null reply of
/// positive size, all of them.
pub proof fn lemma_encode_outcome_keeps_all_bytes(n: i32, b: Seq<u8>)
    requires
        n > 0,
        b.len() == n,
    ensures
        encode_outcome(1, n, false, Some(b)) == Ok::<Seq<u8>, ChromaprintError>(b),
{
}

/// Encoding into text yields the decoding of all the encoded bytes where
/// they are UTF-8, and refuses them as an invalid string where they are not.
pub proof fn lemma_encode_text_decodes_all_bytes(n: i32, b: Seq<u8>)
    requires
        n > 0,
        b.len() == n,
    ensures
        valid_utf8(b) ==> encode_text_outcome(1, n, false, Some(b)) == Ok::<
            Seq<char>,
            ChromaprintError,
        >(decode_utf8(b)),
        !valid_utf8(b) ==> encode_text_outcome(1, n, false, Some(b)) == Err::<
            Seq<char>,
            ChromaprintError,
        >(ChromaprintError::InvalidString),
{
}

} // verus!
