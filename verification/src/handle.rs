use vstd::prelude::*;

verus! {

/// A foreign verbs device handle, carried as its plain non-null address.
///
/// The unverified scan layer wraps each entry of the foreign device list
/// in one of these and reads the address back for the foreign calls that
/// take it.  The library guarantees only what such a handle can promise:
/// the address is never null and is handed back unchanged.
pub struct DevicePtr {
    addr: usize,
}

impl View for DevicePtr {
    type V = usize;

    closed spec fn view(&self) -> usize {
        self.addr
    }
}

impl DevicePtr {
    #[verifier::type_invariant]
    spec fn wf(self) -> bool {
        self.addr != 0
    }

    /// Wrap a foreign device address; a null address yields no handle.
    pub fn new(addr: usize) -> (r: Option<DevicePtr>)
        ensures
            match r {
                Some(p) => addr != 0 && p@ == addr,
                None => addr == 0,
            },
    {
        if addr != 0 {
            Some(DevicePtr { addr })
        } else {
            None
        }
    }

    /// The wrapped address, for the foreign call that takes it.
    pub fn ffi_ptr(&self) -> (r: usize)
        ensures
            r == self@,
            r != 0,
    {
        proof {
            use_type_invariant(self);
        }
        self.addr
    }
}

/// A foreign device-attribute block handle, carried as its plain non-null
/// address, with the same guarantees as [`DevicePtr`].
pub struct DeviceAttrPtr {
    addr: usize,
}

impl View for DeviceAttrPtr {
    type V = usize;

    closed spec fn view(&self) -> usize {
        self.addr
    }
}

impl DeviceAttrPtr {
    #[verifier::type_invariant]
    spec fn wf(self) -> bool {
        self.addr != 0
    }

    /// Wrap a foreign attribute-block address; a null address yields no
    /// handle.
    pub fn new(addr: usize) -> (r: Option<DeviceAttrPtr>)
        ensures
            match r {
                Some(p) => addr != 0 && p@ == addr,
                None => addr == 0,
            },
    {
        if addr != 0 {
            Some(DeviceAttrPtr { addr })
        } else {
            None
        }
    }

    /// The wrapped address, for the foreign call that takes it.
    pub fn ffi_ptr(&self) -> (r: usize)
        ensures
            r == self@,
            r != 0,
    {
        proof {
            use_type_invariant(self);
        }
        self.addr
    }
}

} // verus!
