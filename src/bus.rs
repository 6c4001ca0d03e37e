use vstd::prelude::*;

verus! {

/// A data bus: one value, last writer wins.
pub trait DataBus: Sized {
    type Data;

    /// The value on the bus.
    spec fn data(&self) -> Self::Data;

    /// `after` is `before` with `data` driven onto the bus and nothing else changed.
    spec fn drives_data(before: Self, after: Self, data: Self::Data) -> bool;

    fn set_data(&mut self, data: Self::Data)
        ensures
            Self::drives_data(*old(self), *final(self), data),
    ;

    fn get_data(&self) -> (r: Self::Data)
        ensures
            r == self.data(),
    ;
}

/// An address bus: one value, last writer wins.
pub trait AddressBus: Sized {
    type Address;

    /// The value on the bus.
    spec fn address(&self) -> Self::Address;

    /// `after` is `before` with `address` driven onto the bus and nothing else changed.
    spec fn drives_address(before: Self, after: Self, address: Self::Address) -> bool;

    fn set_address(&mut self, address: Self::Address)
        ensures
            Self::drives_address(*old(self), *final(self), address),
    ;

    fn get_address(&self) -> (r: Self::Address)
        ensures
            r == self.address(),
    ;
}

impl DataBus for u8 {
    type Data = u8;

    open spec fn data(&self) -> u8 {
        *self
    }

    open spec fn drives_data(before: u8, after: u8, data: u8) -> bool {
        after == data
    }

    fn set_data(&mut self, data: u8) {
        *self = data
    }

    fn get_data(&self) -> (r: u8) {
        *self
    }
}

impl AddressBus for u16 {
    type Address = u16;

    open spec fn address(&self) -> u16 {
        *self
    }

    open spec fn drives_address(before: u16, after: u16, address: u16) -> bool {
        after == address
    }

    fn set_address(&mut self, address: u16) {
        *self = address
    }

    fn get_address(&self) -> (r: u16) {
        *self
    }
}

} // verus!
