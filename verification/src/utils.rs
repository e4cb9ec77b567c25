//! Helpers shared by the node types: C strings, status codes, slices.
use vstd::prelude::*;
use vstd::utf8::{decode_utf8, encode_utf8, valid_utf8};

use crate::errors::{CGNSError, CGNSLibraryError, FFIError, NulTermination, Utf8Failure};

verus! {

/// Longest name a CGNS node can have.
pub const CGIO_MAX_NAME_LENGTH: usize = 32;

/// Size of a buffer that holds a node name and its terminating nul byte.
pub const CGIO_NAME_BUFFER_LENGTH: usize = CGIO_MAX_NAME_LENGTH + 1;

/// Status code by which the CGNS library reports success.
pub const CG_OK: i32 = 0;

/// `i` is the position of the first nul byte of `bytes`.
pub open spec fn is_first_nul(bytes: Seq<u8>, i: int) -> bool {
    &&& 0 <= i < bytes.len()
    &&& bytes[i] == 0
    &&& forall|j: int| 0 <= j < i ==> bytes[j] != 0
}

/// `bytes` holds a nul byte.
pub open spec fn has_nul(bytes: Seq<u8>) -> bool {
    exists|i: int| 0 <= i < bytes.len() && bytes[i] == 0
}

/// Position of the byte that ends the C string held in `bytes`: its first
/// nul byte, or its last byte when it holds none.
pub open spec fn c_string_end(bytes: Seq<u8>) -> int {
    if has_nul(bytes) {
        choose|i: int| is_first_nul(bytes, i)
    } else {
        bytes.len() - 1
    }
}

/// What the standard library reports when `bytes` is not valid UTF-8:
/// `valid_up_to` is the length of the longest valid prefix; an invalid
/// sequence that follows it (`error_len` is `Some`) lies inside `bytes`, and
/// when the input ends too early (`error_len` is `None`), `valid_up_to` is
/// one to three bytes from its end.
pub open spec fn is_utf8_failure(bytes: Seq<u8>, f: Utf8Failure) -> bool {
    &&& f.valid_up_to <= bytes.len()
    &&& valid_utf8(bytes.take(f.valid_up_to as int))
    &&& forall|j: int| f.valid_up_to < j <= bytes.len() ==> !valid_utf8(#[trigger] bytes.take(j))
    &&& (f.error_len matches Some(n) ==> 1 <= n && f.valid_up_to + n <= bytes.len())
    &&& (f.error_len is None ==> 1 <= bytes.len() - f.valid_up_to <= 3)
}

/// What reading `bytes` as a C string gives: the text before its first nul
/// byte, when the string is terminated and is valid UTF-8.
pub open spec fn spec_bytes2string(bytes: Seq<u8>) -> Result<Seq<char>, ()> {
    let end = c_string_end(bytes);
    if bytes[end] != 0 {
        Err(())
    } else if !valid_utf8(bytes.take(end)) {
        Err(())
    } else {
        Ok(decode_utf8(bytes.take(end)))
    }
}

proof fn lemma_first_nul_unique(bytes: Seq<u8>, i: int)
    requires
        is_first_nul(bytes, i),
    ensures
        has_nul(bytes),
        c_string_end(bytes) == i,
{
    let k = choose|k: int| is_first_nul(bytes, k);
    assert(is_first_nul(bytes, k));
    if k < i {
        assert(bytes[k] != 0);
    }
    if i < k {
        assert(bytes[i] != 0);
    }
}

/// The error of reading `bytes` as a C string that is not terminated or not
/// valid UTF-8.
pub open spec fn is_name_read_error(bytes: Seq<u8>, e: CGNSError) -> bool {
    let end = c_string_end(bytes);
    if bytes[end] != 0 {
        e == CGNSError::FFIError(FFIError::FromBytes(NulTermination::NotNulTerminated))
    } else {
        e matches CGNSError::FFIError(FFIError::Utf8Error(f)) && is_utf8_failure(
            bytes.take(end),
            f,
        )
    }
}

/// `std::str::from_utf8`: succeeds exactly on valid UTF-8, and then the text
/// is the decoding of the bytes. On failure, the error's `valid_up_to` and
/// `error_len` are copied out, and are what the documentation of
/// `std::str::Utf8Error` describes.
#[verifier::external_body]
pub(crate) fn str_from_utf8(bytes: &[u8]) -> (r: Result<&str, Utf8Failure>)
    ensures
        r is Ok <==> valid_utf8(bytes@),
        r matches Ok(s) ==> s@ == decode_utf8(bytes@),
        r matches Err(f) ==> is_utf8_failure(bytes@, f),
{
    match std::str::from_utf8(bytes) {
        Ok(s) => Ok(s),
        Err(e) => Err(Utf8Failure { valid_up_to: e.valid_up_to(), error_len: e.error_len() }),
    }
}

/// Position of the first nul byte of `bytes`, if it holds one.
pub fn find_nul(bytes: &[u8]) -> (r: Option<usize>)
    ensures
        r matches Some(i) ==> is_first_nul(bytes@, i as int),
        r is None ==> !has_nul(bytes@),
{
    let mut i: usize = 0;
    while i < bytes.len()
        invariant
            i <= bytes@.len(),
            forall|j: int| 0 <= j < i ==> bytes@[j] != 0,
        decreases bytes@.len() - i,
    {
        if bytes[i] == 0 {
            return Some(i);
        }
        i = i + 1;
    }
    None
}

/// Reads the nul-terminated string that a C function wrote into `bytes`.
///
/// The string ends at the first nul byte; a buffer without any nul byte must
/// end with one, which it cannot, so it is refused as not nul-terminated.
pub fn bytes2string(bytes: &[u8]) -> (r: Result<String, CGNSError>)
    requires
        bytes@.len() > 0,
    ensures
        r is Ok <==> spec_bytes2string(bytes@) is Ok,
        r matches Ok(s) ==> spec_bytes2string(bytes@) == Ok::<Seq<char>, ()>(s@),
        r matches Err(e) ==> is_name_read_error(bytes@, e),
{
    let end: usize = match find_nul(bytes) {
        Some(i) => {
            proof {
                lemma_first_nul_unique(bytes@, i as int);
            }
            i
        },
        None => bytes.len() - 1,
    };
    if bytes[end] != 0 {
        return Err(CGNSError::FFIError(FFIError::FromBytes(NulTermination::NotNulTerminated)));
    }
    let text = vstd::slice::slice_subrange(bytes, 0, end);
    assert(text@ == bytes@.take(end as int));
    match str_from_utf8(text) {
        Ok(s) => Ok(s.to_owned()),
        Err(f) => Err(CGNSError::FFIError(FFIError::Utf8Error(f))),
    }
}

/// The bytes of a C string holding `bytes`: `bytes` followed by a nul byte.
/// A nul byte inside `bytes` is refused, at the position of the first one.
pub fn bytes2cstring(bytes: &[u8]) -> (r: Result<Vec<u8>, FFIError>)
    ensures
        !has_nul(bytes@) <==> r is Ok,
        r matches Ok(v) ==> v@ == bytes@.push(0u8),
        r matches Err(e) ==> (e matches FFIError::Null(i) && is_first_nul(bytes@, i as int)),
{
    match find_nul(bytes) {
        Some(i) => Err(FFIError::Null(i)),
        None => {
            let mut v: Vec<u8> = Vec::new();
            let mut i: usize = 0;
            while i < bytes.len()
                invariant
                    i <= bytes@.len(),
                    v@ == bytes@.take(i as int),
                decreases bytes@.len() - i,
            {
                v.push(bytes[i]);
                i = i + 1;
                assert(v@ == bytes@.take(i as int));
            }
            assert(bytes@.take(bytes@.len() as int) == bytes@);
            v.push(0u8);
            Ok(v)
        },
    }
}

/// The bytes of the C string that names `name`: its UTF-8 encoding followed
/// by a nul byte. A name holding a nul character is refused.
pub fn string2bytes(name: &String) -> (r: Result<Vec<u8>, CGNSError>)
    ensures
        !has_nul(encode_utf8(name@)) <==> r is Ok,
        r matches Ok(v) ==> v@ == encode_utf8(name@).push(0u8),
        r matches Err(e) ==> (e matches CGNSError::FFIError(FFIError::Null(i)) && is_first_nul(
            encode_utf8(name@),
            i as int,
        )),
{
    let bytes = name.as_str().as_bytes();
    match bytes2cstring(bytes) {
        Ok(v) => Ok(v),
        Err(e) => Err(CGNSError::FFIError(e)),
    }
}

/// Turns the status code of a CGNS call into a result. On failure the
/// library's message is fetched with `last_error`, and only then.
pub fn ier_cg_fn<F: FnOnce() -> String>(err_code: i32, last_error: F) -> (r: Result<(), CGNSError>)
    requires
        err_code != CG_OK ==> last_error.requires(()),
    ensures
        r is Ok <==> err_code == CG_OK,
        r matches Err(e) ==> exists|m: String|
            last_error.ensures((), m) && e == CGNSError::CGNSLibError(CGNSLibraryError(m)),
{
    if err_code != CG_OK {
        let message = last_error();
        Err(CGNSError::CGNSLibError(CGNSLibraryError(message)))
    } else {
        Ok(())
    }
}

/// Copies `src` over the first `src.len()` entries of `dst`; the other
/// entries of `dst` are kept.
pub fn copy_from_partial_slice(dst: &mut [i64], src: &[i64])
    requires
        src@.len() <= old(dst)@.len(),
    ensures
        final(dst)@ == src@ + old(dst)@.skip(src@.len() as int),
{
    let mut i: usize = 0;
    while i < src.len()
        invariant
            src@.len() <= dst@.len(),
            dst@.len() == old(dst)@.len(),
            i <= src@.len(),
            forall|j: int| 0 <= j < i ==> dst@[j] == src@[j],
            forall|j: int| i <= j < dst@.len() ==> dst@[j] == old(dst)@[j],
        decreases src@.len() - i,
    {
        dst[i] = src[i];
        i = i + 1;
    }
    assert(dst@ == src@ + old(dst)@.skip(src@.len() as int));
}

/// What is written as a C string is read back unchanged: a name without nul
/// characters, encoded as [`string2bytes`] encodes it and followed by any
/// bytes (the rest of the buffer that the C library fills), is read back by
/// [`bytes2string`] as the same name.
pub proof fn law_name_round_trip(name: Seq<char>, rest: Seq<u8>)
    requires
        !has_nul(encode_utf8(name)),
    ensures
        spec_bytes2string(encode_utf8(name).push(0u8) + rest) == Ok::<Seq<char>, ()>(name),
{
    broadcast use vstd::utf8::encode_utf8_valid_utf8, vstd::utf8::encode_utf8_decode_utf8;

    let e = encode_utf8(name);
    let b = e.push(0u8) + rest;
    assert(is_first_nul(b, e.len() as int)) by {
        assert forall|j: int| 0 <= j < e.len() implies b[j] != 0 by {
            assert(b[j] == e[j]);
        }
    }
    lemma_first_nul_unique(b, e.len() as int);
    assert(b.take(e.len() as int) =~= e);
}

} // verus!
