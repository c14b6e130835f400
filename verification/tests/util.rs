use udev::error::Error;
use udev::util::{
    bytes_eq, clone_bytes, find_byte, os_str_to_cstring, os_strs_to_cstrings, ptr_to_os_str,
    ptr_to_os_str_unchecked,
};

#[test]
fn string_without_nul_gets_a_terminator() {
    let c = os_str_to_cstring(b"tty").unwrap();
    assert_eq!(c.as_bytes_with_nul(), b"tty\0");
}

#[test]
fn empty_string_is_only_the_terminator() {
    let c = os_str_to_cstring(b"").unwrap();
    assert_eq!(c.as_bytes_with_nul(), b"\0");
}

#[test]
fn string_with_nul_is_invalid_input() {
    assert_eq!(os_str_to_cstring(b"tt\0y"), Err(Error::InvalidInput));
    assert_eq!(os_str_to_cstring(b"\0"), Err(Error::InvalidInput));
    assert_eq!(os_str_to_cstring(b"tty\0"), Err(Error::InvalidInput));
}

#[test]
fn bytes_outside_ascii_pass_unchanged() {
    let c = os_str_to_cstring(&[0xff, 0x80, 0x01]).unwrap();
    assert_eq!(c.as_bytes_with_nul(), &[0xff, 0x80, 0x01, 0x00]);
}

#[test]
fn pair_is_refused_if_either_has_a_nul() {
    assert_eq!(os_strs_to_cstrings(b"a\0", b"b"), Err(Error::InvalidInput));
    assert_eq!(os_strs_to_cstrings(b"a", b"\0b"), Err(Error::InvalidInput));
    let (a, b) = os_strs_to_cstrings(b"idVendor", b"1d6b").unwrap();
    assert_eq!(a.as_bytes_with_nul(), b"idVendor\0");
    assert_eq!(b.as_bytes_with_nul(), b"1d6b\0");
}

#[test]
fn cloned_string_is_equal() {
    let c = os_str_to_cstring(b"block").unwrap();
    assert_eq!(c.clone(), c);
}

#[test]
fn c_string_ends_at_the_first_nul() {
    assert_eq!(ptr_to_os_str_unchecked(b"/sys/devices\0garbage\0"), b"/sys/devices");
    assert_eq!(ptr_to_os_str_unchecked(b"\0abc"), b"");
}

#[test]
fn buffer_without_nul_is_read_whole() {
    assert_eq!(ptr_to_os_str_unchecked(b"abc"), b"abc");
    assert_eq!(ptr_to_os_str_unchecked(b""), b"");
}

#[test]
fn null_pointer_is_no_string() {
    assert_eq!(ptr_to_os_str(None), None);
    assert_eq!(ptr_to_os_str(Some(b"add\0")), Some(&b"add"[..]));
}

#[test]
fn terminated_string_reads_back_whole() {
    let path: &[u8] = b"/sys/devices/virtual/tty/tty0";
    let c = os_str_to_cstring(path).unwrap();
    assert_eq!(ptr_to_os_str_unchecked(c.as_bytes_with_nul()), path);
    let again = os_str_to_cstring(ptr_to_os_str_unchecked(c.as_bytes_with_nul())).unwrap();
    assert_eq!(again, c);
}

#[test]
fn find_byte_gives_first_place_or_length() {
    assert_eq!(find_byte(b"8:2:1", b':'), 1);
    assert_eq!(find_byte(b":8", b':'), 0);
    assert_eq!(find_byte(b"82", b':'), 2);
    assert_eq!(find_byte(b"", b':'), 0);
}

#[test]
fn bytes_eq_compares_length_and_content() {
    assert!(bytes_eq(b"add", b"add"));
    assert!(bytes_eq(b"", b""));
    assert!(!bytes_eq(b"add", b"adD"));
    assert!(!bytes_eq(b"add", b"ad"));
    assert!(!bytes_eq(b"ad", b"add"));
}

#[test]
fn clone_bytes_copies() {
    assert_eq!(clone_bytes(b"card29"), b"card29".to_vec());
    assert_eq!(clone_bytes(b""), Vec::<u8>::new());
}
