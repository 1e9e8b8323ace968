//! The attribute data hung on a node of the D-Bus object tree.

use vstd::prelude::*;

use crate::gatt;

verus! {

/// What a tree node serves: a characteristic or a descriptor.
#[derive(Debug, Clone)]
pub enum GattDataType {
    Characteristic(gatt::characteristic::Characteristic),
    Descriptor(gatt::descriptor::Descriptor),
}

impl GattDataType {
    /// The characteristic inside.  A caller must know the node holds one.
    pub fn get_characteristic(&self) -> (r: &gatt::characteristic::Characteristic)
        requires
            self is Characteristic,
        ensures
            *r == self->Characteristic_0,
    {
        match self {
            GattDataType::Characteristic(characteristic) => characteristic,
            GattDataType::Descriptor(_) => unreached(),
        }
    }

    /// The descriptor inside.  A caller must know the node holds one.
    pub fn get_descriptor(&self) -> (r: &gatt::descriptor::Descriptor)
        requires
            self is Descriptor,
        ensures
            *r == self->Descriptor_0,
    {
        match self {
            GattDataType::Descriptor(descriptor) => descriptor,
            GattDataType::Characteristic(_) => unreached(),
        }
    }
}

} // verus!
