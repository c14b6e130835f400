use udev::error::{try_alloc, Error, Handle};
use udev::util::errno_to_result;

#[test]
fn zero_status_is_success() {
    assert_eq!(errno_to_result(0), Ok(()));
}

#[test]
fn nonzero_status_is_a_system_error_with_the_status() {
    assert_eq!(errno_to_result(-13), Err(Error::System { code: -13 }));
    assert_eq!(errno_to_result(5), Err(Error::System { code: 5 }));
}

#[test]
fn null_handle_is_an_allocation_error_with_the_errno() {
    assert_eq!(try_alloc(Handle::new(0), 12), Err(Error::Allocation { errno: 12 }));
}

#[test]
fn handle_keeps_its_address() {
    let h = try_alloc(Handle::new(0x7f00), 0).unwrap();
    assert_eq!(h.addr(), 0x7f00);
}

#[test]
fn each_error_has_its_number() {
    assert_eq!(Error::Allocation { errno: 2 }.errno(), 2);
    assert_eq!(Error::System { code: -19 }.errno(), -19);
    assert_eq!(Error::InvalidInput.errno(), 22);
}
