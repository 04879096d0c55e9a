use vstd::prelude::*;
use crate::address::BtAddress;
use crate::text::{i32_to_decimal, signed_decimal};

verus! {

/// A row of a paired device: its name, what the subtitle says, the state of
/// its connect button, and whether its spinner turns.
pub struct PairedDeviceRow {
    pub address: BtAddress,
    pub title: String,
    pub subtitle: String,
    pub connected: bool,
    pub button_label: String,
    pub button_suggested: bool,
    pub spinning: bool,
}

/// A paired row as plain values.
pub struct PairedRowView {
    pub address: BtAddress,
    pub title: Seq<char>,
    pub subtitle: Seq<char>,
    pub connected: bool,
    pub button_label: Seq<char>,
    pub button_suggested: bool,
    pub spinning: bool,
}

impl View for PairedDeviceRow {
    type V = PairedRowView;

    open spec fn view(&self) -> PairedRowView {
        PairedRowView {
            address: self.address,
            title: self.title@,
            subtitle: self.subtitle@,
            connected: self.connected,
            button_label: self.button_label@,
            button_suggested: self.button_suggested,
            spinning: self.spinning,
        }
    }
}

/// The label of the connect button of a row in the given state.
pub open spec fn button_label_text(connected: bool) -> Seq<char> {
    if connected {
        "Disconnect"@
    } else {
        "Connect"@
    }
}

/// The subtitle that shows a signal strength.
pub open spec fn rssi_text(rssi: i32) -> Seq<char> {
    signed_decimal(rssi as int) + " dBm"@
}

/// A fresh row for a paired device: titled with its name, `Not in range`, a
/// suggested `Connect` button, and no spinner.
pub open spec fn fresh_row(name: Seq<char>, address: BtAddress) -> PairedRowView {
    PairedRowView {
        address: address,
        title: name,
        subtitle: "Not in range"@,
        connected: false,
        button_label: button_label_text(false),
        button_suggested: true,
        spinning: false,
    }
}

/// A row after its device's connection state became `connected`: the button
/// then offers to disconnect it, or (suggested) to connect it.
pub open spec fn with_connection(r: PairedRowView, connected: bool) -> PairedRowView {
    PairedRowView {
        connected: connected,
        button_label: button_label_text(connected),
        button_suggested: !connected,
        ..r
    }
}

impl PairedDeviceRow {
    /// A row for a paired device not seen yet (`fresh_row`).
    pub fn new(name: &str, address: BtAddress) -> (r: PairedDeviceRow)
        ensures
            r@ == fresh_row(name@, address),
    {
        PairedDeviceRow {
            address,
            title: name.to_string(),
            subtitle: "Not in range".to_string(),
            connected: false,
            button_label: "Connect".to_string(),
            button_suggested: true,
            spinning: false,
        }
    }

    /// A copy of the row.
    pub fn duplicate(&self) -> (r: PairedDeviceRow)
        ensures
            r@ == self@,
    {
        PairedDeviceRow {
            address: self.address,
            title: self.title.clone(),
            subtitle: self.subtitle.clone(),
            connected: self.connected,
            button_label: self.button_label.clone(),
            button_suggested: self.button_suggested,
            spinning: self.spinning,
        }
    }

    /// The address of the device the row stands for.
    pub fn get_bluer_address(&self) -> (r: BtAddress)
        ensures
            r == self.address,
    {
        self.address
    }

    /// Shows a signal strength, in dBm, as the subtitle.
    pub fn set_rssi(&mut self, rssi: i32)
        ensures
            final(self)@ == (PairedRowView { subtitle: rssi_text(rssi), ..old(self)@ }),
    {
        let mut text = i32_to_decimal(rssi);
        text.append(" dBm");
        self.subtitle = text;
    }

    /// Records whether the device is connected (`with_connection`).
    pub fn set_connected(&mut self, connected: bool)
        ensures
            final(self)@ == with_connection(old(self)@, connected),
    {
        self.connected = connected;
        self.button_label = if connected {
            "Disconnect".to_string()
        } else {
            "Connect".to_string()
        };
        self.button_suggested = !connected;
    }

    /// Starts or stops the row's spinner.
    pub fn set_spinning(&mut self, spinning: bool)
        ensures
            final(self)@ == (PairedRowView { spinning: spinning, ..old(self)@ }),
    {
        self.spinning = spinning;
    }

    /// Shows a new name as the title.
    pub fn set_title(&mut self, title: String)
        ensures
            final(self)@ == (PairedRowView { title: title@, ..old(self)@ }),
    {
        self.title = title;
    }
}

// ---------------------------------------------------------------------------
// The list of paired devices
// ---------------------------------------------------------------------------

/// The paired devices' rows, in the order they were added, and the state of
/// the connection switch of the current device.
pub struct PairedDeviceList {
    pub rows: Vec<PairedDeviceRow>,
    pub current_active: bool,
}

/// The rows of a list, as plain values.
pub open spec fn row_views(rows: Seq<PairedDeviceRow>) -> Seq<PairedRowView> {
    rows.map_values(|r: PairedDeviceRow| r@)
}

/// Some row of the list stands for the device.
pub open spec fn lists_device(rows: Seq<PairedRowView>, address: BtAddress) -> bool {
    exists|i: int| 0 <= i < rows.len() && (#[trigger] rows[i]).address == address
}

/// Whether a connection change for `address` reaches a row: the `any`
/// address reaches every row, any other only the rows of that device.
pub open spec fn reaches(r: PairedRowView, address: BtAddress) -> bool {
    address.value == 0 || r.address == address
}

/// The rows after a connection change (`SwitchActive`).
pub open spec fn rows_switched(rows: Seq<PairedRowView>, connected: bool, address: BtAddress) -> Seq<
    PairedRowView,
> {
    rows.map_values(|r: PairedRowView| if reaches(r, address) { with_connection(r, connected) } else { r })
}

/// The rows after a spinner change (`SwitchActiveSpinner`).
pub open spec fn rows_spinning(rows: Seq<PairedRowView>, spinning: bool, address: BtAddress) -> Seq<
    PairedRowView,
> {
    rows.map_values(
        |r: PairedRowView|
            if r.address == address {
                PairedRowView { spinning: spinning, ..r }
            } else {
                r
            },
    )
}

/// The rows after a signal strength change (`SwitchRssi`).
pub open spec fn rows_with_rssi(rows: Seq<PairedRowView>, address: BtAddress, rssi: i32) -> Seq<
    PairedRowView,
> {
    rows.map_values(
        |r: PairedRowView|
            if r.address == address {
                PairedRowView { subtitle: rssi_text(rssi), ..r }
            } else {
                r
            },
    )
}

/// The rows after a paired device is announced (`AddPairedRow`): a device
/// already listed gets its name and connection state updated; a new one gets
/// a fresh row at the end, in that connection state.
pub open spec fn rows_with_paired(
    rows: Seq<PairedRowView>,
    name: Seq<char>,
    address: BtAddress,
    connected: bool,
) -> Seq<PairedRowView> {
    if lists_device(rows, address) {
        rows.map_values(
            |r: PairedRowView|
                if r.address == address {
                    with_connection(PairedRowView { title: name, ..r }, connected)
                } else {
                    r
                },
        )
    } else {
        rows.push(with_connection(fresh_row(name, address), connected))
    }
}

impl PairedDeviceList {
    /// The rows, as plain values.
    pub open spec fn view_rows(&self) -> Seq<PairedRowView> {
        row_views(self.rows@)
    }

    /// No rows, and the connection switch off.
    pub fn new() -> (r: PairedDeviceList)
        ensures
            r.view_rows() == Seq::<PairedRowView>::empty(),
            !r.current_active,
    {
        let r = PairedDeviceList { rows: Vec::new(), current_active: false };
        proof {
            assert(r.view_rows() =~= Seq::<PairedRowView>::empty());
        }
        r
    }

    /// Applies `SwitchActive(connected, address, is_current)`: the rows the
    /// change reaches show the connection state, and the connection switch
    /// follows it when the device is the current one.
    pub fn switch_active(&mut self, connected: bool, address: BtAddress, is_current: bool)
        ensures
            final(self).view_rows() == rows_switched(old(self).view_rows(), connected, address),
            final(self).current_active == (if is_current {
                connected
            } else {
                old(self).current_active
            }),
    {
        let ghost before = self.view_rows();
        let mut out: Vec<PairedDeviceRow> = Vec::new();
        let mut i: usize = 0;
        while i < self.rows.len()
            invariant
                before == row_views(self.rows@),
                i <= self.rows.len(),
                out@.len() == i,
                forall|k: int| 0 <= k < i ==> (#[trigger] out@[k])@ == rows_switched(before, connected, address)[k],
            decreases self.rows.len() - i,
        {
            proof {
                assert(before[i as int] == self.rows@[i as int]@);
            }
            let mut r = self.rows[i].duplicate();
            if address.value == 0 || r.address == address {
                r.set_connected(connected);
            }
            out.push(r);
            proof {
                assert(out@[i as int]@ == rows_switched(before, connected, address)[i as int]);
            }
            i = i + 1;
        }
        proof {
            assert(row_views(out@) =~= rows_switched(before, connected, address));
        }
        self.rows = out;
        if is_current {
            self.current_active = connected;
        }
    }

    /// Applies `SwitchActiveSpinner(spinning, address)` to the device's rows.
    pub fn switch_spinner(&mut self, spinning: bool, address: BtAddress)
        ensures
            final(self).view_rows() == rows_spinning(old(self).view_rows(), spinning, address),
            final(self).current_active == old(self).current_active,
    {
        let ghost before = self.view_rows();
        let mut out: Vec<PairedDeviceRow> = Vec::new();
        let mut i: usize = 0;
        while i < self.rows.len()
            invariant
                before == row_views(self.rows@),
                i <= self.rows.len(),
                out@.len() == i,
                forall|k: int| 0 <= k < i ==> (#[trigger] out@[k])@ == rows_spinning(before, spinning, address)[k],
            decreases self.rows.len() - i,
        {
            proof {
                assert(before[i as int] == self.rows@[i as int]@);
            }
            let mut r = self.rows[i].duplicate();
            if r.address == address {
                r.set_spinning(spinning);
            }
            out.push(r);
            proof {
                assert(out@[i as int]@ == rows_spinning(before, spinning, address)[i as int]);
            }
            i = i + 1;
        }
        proof {
            assert(row_views(out@) =~= rows_spinning(before, spinning, address));
        }
        self.rows = out;
    }

    /// Applies `SwitchRssi(address, rssi)`: the device's rows show the
    /// signal strength.
    pub fn switch_rssi(&mut self, address: BtAddress, rssi: i32)
        ensures
            final(self).view_rows() == rows_with_rssi(old(self).view_rows(), address, rssi),
            final(self).current_active == old(self).current_active,
    {
        let ghost before = self.view_rows();
        let mut out: Vec<PairedDeviceRow> = Vec::new();
        let mut i: usize = 0;
        while i < self.rows.len()
            invariant
                before == row_views(self.rows@),
                i <= self.rows.len(),
                out@.len() == i,
                forall|k: int| 0 <= k < i ==> (#[trigger] out@[k])@ == rows_with_rssi(before, address, rssi)[k],
            decreases self.rows.len() - i,
        {
            proof {
                assert(before[i as int] == self.rows@[i as int]@);
            }
            let mut r = self.rows[i].duplicate();
            if r.address == address {
                r.set_rssi(rssi);
            }
            out.push(r);
            proof {
                assert(out@[i as int]@ == rows_with_rssi(before, address, rssi)[i as int]);
            }
            i = i + 1;
        }
        proof {
            assert(row_views(out@) =~= rows_with_rssi(before, address, rssi));
        }
        self.rows = out;
    }

    /// Applies `AddPairedRow(name, address, connected)` (`rows_with_paired`).
    pub fn add_paired_row(&mut self, name: String, address: BtAddress, connected: bool)
        ensures
            final(self).view_rows() == rows_with_paired(old(self).view_rows(), name@, address, connected),
            final(self).current_active == old(self).current_active,
    {
        let ghost before = self.view_rows();
        let ghost updated = before.map_values(
            |r: PairedRowView|
                if r.address == address {
                    with_connection(PairedRowView { title: name@, ..r }, connected)
                } else {
                    r
                },
        );
        let mut out: Vec<PairedDeviceRow> = Vec::new();
        let mut found = false;
        let mut i: usize = 0;
        while i < self.rows.len()
            invariant
                before == row_views(self.rows@),
                i <= self.rows.len(),
                updated.len() == before.len(),
                forall|k: int| 0 <= k < before.len() ==> #[trigger] updated[k] == (if before[k].address
                    == address {
                    with_connection(PairedRowView { title: name@, ..before[k] }, connected)
                } else {
                    before[k]
                }),
                out@.len() == i,
                forall|k: int| 0 <= k < i ==> (#[trigger] out@[k])@ == updated[k],
                found == (exists|k: int| 0 <= k < i && (#[trigger] before[k]).address == address),
            decreases self.rows.len() - i,
        {
            proof {
                assert(before[i as int] == self.rows@[i as int]@);
            }
            let mut r = self.rows[i].duplicate();
            if r.address == address {
                r.set_title(name.clone());
                r.set_connected(connected);
                found = true;
            }
            out.push(r);
            proof {
                assert(out@[i as int]@ == updated[i as int]);
            }
            i = i + 1;
        }
        proof {
            assert(row_views(out@) =~= updated);
        }
        if found {
            self.rows = out;
        } else {
            let mut r = PairedDeviceRow::new(name.as_str(), address);
            r.set_connected(connected);
            self.rows.push(r);
            proof {
                assert(self.view_rows() =~= before.push(with_connection(fresh_row(name@, address), connected)));
            }
        }
    }
}

/// No two rows stand for the same device.
pub open spec fn addresses_unique(rows: Seq<PairedRowView>) -> bool {
    forall|i: int, j: int|
        0 <= i < j < rows.len() ==> (#[trigger] rows[i]).address != (#[trigger] rows[j]).address
}

/// Announcing a paired device never lists it twice: when no two rows stand
/// for the same device, the same holds after `AddPairedRow`, and the device
/// is then listed.
pub proof fn law_paired_devices_listed_once(
    rows: Seq<PairedRowView>,
    name: Seq<char>,
    address: BtAddress,
    connected: bool,
)
    requires
        addresses_unique(rows),
    ensures
        addresses_unique(rows_with_paired(rows, name, address, connected)),
        lists_device(rows_with_paired(rows, name, address, connected), address),
{
    let after = rows_with_paired(rows, name, address, connected);
    if lists_device(rows, address) {
        let w = choose|i: int| 0 <= i < rows.len() && (#[trigger] rows[i]).address == address;
        assert(after[w].address == address);
        assert forall|i: int, j: int| 0 <= i < j < after.len() implies (#[trigger] after[i]).address
            != (#[trigger] after[j]).address by {
            assert(after[i].address == rows[i].address);
            assert(after[j].address == rows[j].address);
        }
    } else {
        assert(after[rows.len() as int].address == address);
        assert forall|i: int, j: int| 0 <= i < j < after.len() implies (#[trigger] after[i]).address
            != (#[trigger] after[j]).address by {
            assert(after[i] == rows[i]);
            if j < rows.len() {
                assert(after[j] == rows[j]);
            }
        }
    }
}

/// A connection change for one device touches only that device's rows: each
/// of them shows the new state and its button, every row of another device
/// stays exactly as it was, and the order and number of rows stay. The
/// `any` address changes every row.
pub proof fn law_switch_touches_only_that_device(
    rows: Seq<PairedRowView>,
    connected: bool,
    address: BtAddress,
    k: int,
)
    requires
        0 <= k < rows.len(),
    ensures
        rows_switched(rows, connected, address).len() == rows.len(),
        address.value != 0 && rows[k].address != address ==> rows_switched(rows, connected, address)[k]
            == rows[k],
        rows[k].address == address || address.value == 0 ==> {
            let r = rows_switched(rows, connected, address)[k];
            &&& r.connected == connected
            &&& r.button_label == (if connected { "Disconnect"@ } else { "Connect"@ })
            &&& r.button_suggested == !connected
            &&& r.address == rows[k].address
            &&& r.title == rows[k].title
            &&& r.subtitle == rows[k].subtitle
            &&& r.spinning == rows[k].spinning
        },
{
}

/// Spinner and signal changes touch only the named device's rows.
pub proof fn law_spinner_and_rssi_touch_only_that_device(
    rows: Seq<PairedRowView>,
    address: BtAddress,
    spinning: bool,
    rssi: i32,
    k: int,
)
    requires
        0 <= k < rows.len(),
    ensures
        rows_spinning(rows, spinning, address).len() == rows.len(),
        rows_with_rssi(rows, address, rssi).len() == rows.len(),
        rows[k].address != address ==> rows_spinning(rows, spinning, address)[k] == rows[k]
            && rows_with_rssi(rows, address, rssi)[k] == rows[k],
        rows[k].address == address ==> rows_spinning(rows, spinning, address)[k] == (PairedRowView {
            spinning: spinning,
            ..rows[k]
        }) && rows_with_rssi(rows, address, rssi)[k] == (PairedRowView {
            subtitle: signed_decimal(rssi as int) + " dBm"@,
            ..rows[k]
        }),
{
}

/// Announcing a paired device: a new device gets one row at the end, with the
/// announced name, address and connection; a listed one keeps its place and
/// gets the announced name and connection; other devices' rows stay.
pub proof fn law_announced_device_row(
    rows: Seq<PairedRowView>,
    name: Seq<char>,
    address: BtAddress,
    connected: bool,
    k: int,
)
    ensures
        !lists_device(rows, address) ==> {
            let after = rows_with_paired(rows, name, address, connected);
            &&& after.len() == rows.len() + 1
            &&& after.drop_last() == rows
            &&& after.last().address == address
            &&& after.last().title == name
            &&& after.last().connected == connected
            &&& after.last().subtitle == "Not in range"@
        },
        lists_device(rows, address) && 0 <= k < rows.len() ==> {
            let after = rows_with_paired(rows, name, address, connected);
            &&& after.len() == rows.len()
            &&& rows[k].address != address ==> after[k] == rows[k]
            &&& rows[k].address == address ==> after[k].title == name && after[k].connected
                == connected && after[k].address == address && after[k].subtitle
                == rows[k].subtitle
        },
{
    if !lists_device(rows, address) {
        assert(rows_with_paired(rows, name, address, connected).drop_last() =~= rows);
    }
}

} // verus!
