//! Variable service attribute bits and the variable-store wrapper; the
//! store itself is a firmware service.

use vstd::prelude::*;

use crate::runtime_services::RuntimeServices;

verus! {

// Variable attributes
pub const EFI_VARIABLE_NON_VOLATILE: u32 = 0x00000001;

pub const EFI_VARIABLE_BOOTSERVICE_ACCESS: u32 = 0x00000002;

pub const EFI_VARIABLE_RUNTIME_ACCESS: u32 = 0x00000004;

pub const EFI_VARIABLE_HARDWARE_ERROR_RECORD: u32 = 0x00000008;

pub const EFI_VARIABLE_AUTHENTICATED_WRITE_ACCESS: u32 = 0x00000010;

pub const EFI_VARIABLE_TIME_BASED_AUTHENTICATED_WRITE_ACCESS: u32 = 0x00000020;

pub const EFI_VARIABLE_APPEND_WRITE: u32 = 0x00000040;

/// Variable wrapper for safe access; reads and writes go through firmware.
pub struct Variable<'a> {
    rt: &'a RuntimeServices,
}

impl<'a> Variable<'a> {
    /// The runtime services table this wrapper stands over.
    pub closed spec fn spec_rt(&self) -> RuntimeServices {
        *self.rt
    }

    /// Create a new variable wrapper
    pub fn new(rt: &'a RuntimeServices) -> (v: Variable<'a>)
        ensures
            v.spec_rt() == *rt,
    {
        Variable { rt }
    }
}

} // verus!
