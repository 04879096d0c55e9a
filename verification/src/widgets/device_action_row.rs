use vstd::prelude::*;
use crate::address::BtAddress;

verus! {

/// A row of the device list: the device it stands for and the title it shows.
pub struct DeviceActionRow {
    pub address: BtAddress,
    pub title: String,
    pub activatable: bool,
}

impl DeviceActionRow {
    /// A blank row: the `any` address, no title, not activatable.
    pub fn new() -> (r: DeviceActionRow)
        ensures
            r.address.value == 0,
            r.title@ == Seq::<char>::empty(),
            !r.activatable,
    {
        DeviceActionRow { address: BtAddress::any(), title: String::new(), activatable: false }
    }

    /// The address of the device the row stands for.
    pub fn get_bluer_address(&self) -> (r: BtAddress)
        ensures
            r == self.address,
    {
        self.address
    }

    /// Sets the address of the device the row stands for.
    pub fn set_bluer_address(&mut self, address: BtAddress)
        ensures
            final(self).address == address,
            final(self).title == old(self).title,
            final(self).activatable == old(self).activatable,
    {
        self.address = address;
    }

    /// Sets the title the row shows.
    pub fn set_title(&mut self, title: String)
        ensures
            final(self).title == title,
            final(self).address == old(self).address,
            final(self).activatable == old(self).activatable,
    {
        self.title = title;
    }

    /// Sets whether the row can be activated.
    pub fn set_activatable(&mut self, activatable: bool)
        ensures
            final(self).activatable == activatable,
            final(self).address == old(self).address,
            final(self).title == old(self).title,
    {
        self.activatable = activatable;
    }
}

} // verus!
