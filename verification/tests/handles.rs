use libhca::DeviceAttrPtr;
use libhca::DevicePtr;

#[test]
fn device_handle_rejects_null() {
    assert!(DevicePtr::new(0).is_none());
    assert!(DeviceAttrPtr::new(0).is_none());
}

#[test]
fn device_handle_carries_the_address() {
    let h = DevicePtr::new(0x1000).unwrap();
    assert_eq!(h.ffi_ptr(), 0x1000);
    let a = DeviceAttrPtr::new(64).unwrap();
    assert_eq!(a.ffi_ptr(), 64);
}
