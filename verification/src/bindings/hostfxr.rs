//! Raw values of the hostfxr API.

use vstd::prelude::*;

verus! {

/// The types of runtime delegates that hostfxr hands out (`hostfxr_delegate_type`).
#[allow(non_camel_case_types)]
#[derive(Debug, Clone, Copy, PartialEq, Eq, Hash, Structural)]
pub enum hostfxr_delegate_type {
    /// COM activation entry-point.
    hdt_com_activation,
    /// IJW entry-point.
    hdt_load_in_memory_assembly,
    /// WinRT activation entry-point.
    hdt_winrt_activation,
    /// COM registration entry-point.
    hdt_com_register,
    /// COM unregistration entry-point.
    hdt_com_unregister,
    /// Entry point which loads an assembly (with dependencies) and returns a function pointer
    /// for a specified static method.
    hdt_load_assembly_and_get_function_pointer,
    /// Entry-point which finds a managed method and returns a function pointer to it.
    hdt_get_function_pointer,
    /// Entry-point which loads an assembly by its path.
    hdt_load_assembly,
    /// Entry-point which loads an assembly from its bytes.
    hdt_load_assembly_bytes,
}

/// The number of delegate types.
pub const DELEGATE_TYPE_COUNT: usize = 9;

impl hostfxr_delegate_type {
    /// The raw value of the delegate type in the native API.
    pub open spec fn spec_value(self) -> i32 {
        match self {
            hostfxr_delegate_type::hdt_com_activation => 0,
            hostfxr_delegate_type::hdt_load_in_memory_assembly => 1,
            hostfxr_delegate_type::hdt_winrt_activation => 2,
            hostfxr_delegate_type::hdt_com_register => 3,
            hostfxr_delegate_type::hdt_com_unregister => 4,
            hostfxr_delegate_type::hdt_load_assembly_and_get_function_pointer => 5,
            hostfxr_delegate_type::hdt_get_function_pointer => 6,
            hostfxr_delegate_type::hdt_load_assembly => 7,
            hostfxr_delegate_type::hdt_load_assembly_bytes => 8,
        }
    }

    /// Returns the raw value of the delegate type in the native API.
    pub fn value(&self) -> (r: i32)
        ensures
            r == self.spec_value(),
            0 <= r < DELEGATE_TYPE_COUNT,
    {
        match self {
            hostfxr_delegate_type::hdt_com_activation => 0,
            hostfxr_delegate_type::hdt_load_in_memory_assembly => 1,
            hostfxr_delegate_type::hdt_winrt_activation => 2,
            hostfxr_delegate_type::hdt_com_register => 3,
            hostfxr_delegate_type::hdt_com_unregister => 4,
            hostfxr_delegate_type::hdt_load_assembly_and_get_function_pointer => 5,
            hostfxr_delegate_type::hdt_get_function_pointer => 6,
            hostfxr_delegate_type::hdt_load_assembly => 7,
            hostfxr_delegate_type::hdt_load_assembly_bytes => 8,
        }
    }

    /// Distinct delegate types have distinct raw values.
    pub proof fn lemma_value_injective(a: hostfxr_delegate_type, b: hostfxr_delegate_type)
        requires
            a.spec_value() == b.spec_value(),
        ensures
            a == b,
    {
    }
}

} // verus!
