use cgns_rust::errors::{CGNSError, CGNSLibraryError, FFIError, NulTermination, Utf8Failure};
use cgns_rust::utils::{
    bytes2cstring, bytes2string, copy_from_partial_slice, find_nul, ier_cg_fn, string2bytes,
    CGIO_NAME_BUFFER_LENGTH,
};

#[test]
fn name_buffer_length() {
    assert_eq!(CGIO_NAME_BUFFER_LENGTH, 33);
}

#[test]
fn reads_name_before_first_nul() {
    let mut buf = [0u8; CGIO_NAME_BUFFER_LENGTH];
    buf[..10].copy_from_slice(b"HelloWorld");
    assert_eq!(bytes2string(&buf).unwrap(), "HelloWorld");
    assert_eq!(bytes2string(b"ab\0cd\0").unwrap(), "ab");
    assert_eq!(bytes2string(b"\0").unwrap(), "");
    assert_eq!(bytes2string("h\u{e9}\0".as_bytes()).unwrap(), "h\u{e9}");
}

#[test]
fn refuses_unterminated_name() {
    assert_eq!(
        bytes2string(b"abc"),
        Err(CGNSError::FFIError(FFIError::FromBytes(NulTermination::NotNulTerminated)))
    );
}

#[test]
fn refuses_invalid_utf8_name() {
    assert_eq!(
        bytes2string(&[b'a', 0xff, b'b', 0]),
        Err(CGNSError::FFIError(FFIError::Utf8Error(Utf8Failure {
            valid_up_to: 1,
            error_len: Some(1)
        })))
    );
    // A name cut in the middle of a character: one byte short of its end.
    assert_eq!(
        bytes2string(&[b'a', 0xc3, 0]),
        Err(CGNSError::FFIError(FFIError::Utf8Error(Utf8Failure {
            valid_up_to: 1,
            error_len: None
        })))
    );
}

#[test]
fn finds_first_nul() {
    assert_eq!(find_nul(b"ab\0c\0"), Some(2));
    assert_eq!(find_nul(b"abc"), None);
}

#[test]
fn writes_c_strings() {
    assert_eq!(string2bytes(&"zozo".to_string()).unwrap(), b"zozo\0".to_vec());
    assert_eq!(
        string2bytes(&"zo\0zo\0".to_string()),
        Err(CGNSError::FFIError(FFIError::Null(2)))
    );
    assert_eq!(bytes2cstring(b"").unwrap(), vec![0u8]);
    assert_eq!(bytes2cstring(b"\0"), Err(FFIError::Null(0)));
}

#[test]
fn name_round_trip() {
    let name = "Stratovarius".to_string();
    let mut buf = string2bytes(&name).unwrap();
    buf.extend_from_slice(&[7, 7, 0]);
    assert_eq!(bytes2string(&buf).unwrap(), name);
}

#[test]
fn status_codes() {
    assert_eq!(ier_cg_fn(0, || panic!("not fetched on success")), Ok(()));
    assert_eq!(
        ier_cg_fn(1, || "bad node".to_string()),
        Err(CGNSError::CGNSLibError(CGNSLibraryError("bad node".to_string())))
    );
}

#[test]
fn library_messages() {
    let e = CGNSLibraryError::from_message_bytes(b"file not found");
    assert_eq!(e.msg(), "file not found");
    let e = CGNSLibraryError::from_message_bytes(&[0xff, 0xfe]);
    assert_eq!(e.msg(), "could not read CGNS error");
}

#[test]
fn partial_copy() {
    let mut dst = [1i64, 1, 1];
    copy_from_partial_slice(&mut dst, &[4, 5]);
    assert_eq!(dst, [4, 5, 1]);
    copy_from_partial_slice(&mut dst, &[]);
    assert_eq!(dst, [4, 5, 1]);
}
