use vstd::prelude::*;
use crate::address::BtAddress;

verus! {

/// How urgently a toast is shown.
#[derive(Clone, Copy, Debug, PartialEq, Eq, Structural)]
pub enum ToastPriority {
    Normal,
    High,
}

/// How the confirming answer of a dialog is drawn.
#[derive(Clone, Copy, Debug, PartialEq, Eq, Structural)]
pub enum ResponseAppearance {
    Default,
    Suggested,
    Destructive,
}

/// The device and the adapter (by name) that a pairing agent request is about.
#[derive(Clone, Debug, PartialEq)]
pub struct AgentRequest {
    pub adapter: String,
    pub device: BtAddress,
}

/// What the Bluetooth side asks the window to do.
#[derive(Clone, Debug, PartialEq)]
pub enum Message {
    /// Changes the connected switch's active to `bool` if the `is_current` is true, and sets the corresponding device action row's connected state
    SwitchActive(bool, BtAddress, bool),
    /// Changes the connected switch's spinner spinning state to `bool` for the device at the address
    SwitchActiveSpinner(bool, BtAddress),
    /// Changes the supplied device's RSSI to the supplied value
    SwitchRssi(BtAddress, i32),
    /// Removes the device matching the supplied name
    RemoveDevice(String, BtAddress),
    /// Adds a new row for the device at the address
    AddRow(BtAddress),
    /// Adds a new paired device with already-resolved name, address and connected state
    AddPairedRow(String, BtAddress, bool),
    /// Changes the adapter's powered state to `bool`
    SwitchAdapterPowered(bool),
    /// Changes the adapter's discoverable state to `bool`
    SwitchAdapterDiscoverable(bool),
    /// Displays an error (or a message) with a priority as a toast
    PopupError(String, ToastPriority),
    /// Checks if there are devices and changes the "no bluetooth devices found" image accordingly
    UpdateListBoxImage(),
    /// Requests a pairing pincode
    RequestPinCode(AgentRequest),
    /// Displays a pairing pincode
    DisplayPinCode(AgentRequest, String),
    /// Requests a pairing passkey
    RequestPassKey(AgentRequest),
    /// Displays a pairing passkey
    DisplayPassKey(AgentRequest, u32),
    /// Requests pairing confirmation of a passkey
    RequestConfirmation(AgentRequest, u32),
    /// Requests pairing authorization
    RequestAuthorization(AgentRequest),
    /// Requests service authorization; the text names the service
    AuthorizeService(AgentRequest, String),
    /// Gets a `yes/no` answer from a dialog: title, body, confirming answer
    RequestYesNo(String, String, String, ResponseAppearance),
    /// Invalidates the device list's sorting, forcing it to resort the devices according to various factors
    InvalidateSort(),
    /// Forcefully refreshes the device list
    RefreshDevicesList(),
    /// Updates the battery level of the currently selected device
    UpdateBatteryLevel(i8),
}

/// An agent request as plain values: the adapter's name and the device.
pub struct AgentRequestView {
    pub adapter: Seq<char>,
    pub device: BtAddress,
}

impl View for AgentRequest {
    type V = AgentRequestView;

    open spec fn view(&self) -> AgentRequestView {
        AgentRequestView { adapter: self.adapter@, device: self.device }
    }
}

/// A message with its texts taken as character sequences.
pub enum MessageView {
    SwitchActive(bool, BtAddress, bool),
    SwitchActiveSpinner(bool, BtAddress),
    SwitchRssi(BtAddress, i32),
    RemoveDevice(Seq<char>, BtAddress),
    AddRow(BtAddress),
    AddPairedRow(Seq<char>, BtAddress, bool),
    SwitchAdapterPowered(bool),
    SwitchAdapterDiscoverable(bool),
    PopupError(Seq<char>, ToastPriority),
    UpdateListBoxImage,
    RequestPinCode(AgentRequestView),
    DisplayPinCode(AgentRequestView, Seq<char>),
    RequestPassKey(AgentRequestView),
    DisplayPassKey(AgentRequestView, u32),
    RequestConfirmation(AgentRequestView, u32),
    RequestAuthorization(AgentRequestView),
    AuthorizeService(AgentRequestView, Seq<char>),
    RequestYesNo(Seq<char>, Seq<char>, Seq<char>, ResponseAppearance),
    InvalidateSort,
    RefreshDevicesList,
    UpdateBatteryLevel(i8),
}

impl View for Message {
    type V = MessageView;

    open spec fn view(&self) -> MessageView {
        match self {
            Message::SwitchActive(a, b, c) => MessageView::SwitchActive(*a, *b, *c),
            Message::SwitchActiveSpinner(a, b) => MessageView::SwitchActiveSpinner(*a, *b),
            Message::SwitchRssi(a, b) => MessageView::SwitchRssi(*a, *b),
            Message::RemoveDevice(a, b) => MessageView::RemoveDevice(a@, *b),
            Message::AddRow(a) => MessageView::AddRow(*a),
            Message::AddPairedRow(a, b, c) => MessageView::AddPairedRow(a@, *b, *c),
            Message::SwitchAdapterPowered(a) => MessageView::SwitchAdapterPowered(*a),
            Message::SwitchAdapterDiscoverable(a) => MessageView::SwitchAdapterDiscoverable(*a),
            Message::PopupError(a, b) => MessageView::PopupError(a@, *b),
            Message::UpdateListBoxImage() => MessageView::UpdateListBoxImage,
            Message::RequestPinCode(r) => MessageView::RequestPinCode(r@),
            Message::DisplayPinCode(r, a) => MessageView::DisplayPinCode(r@, a@),
            Message::RequestPassKey(r) => MessageView::RequestPassKey(r@),
            Message::DisplayPassKey(r, a) => MessageView::DisplayPassKey(r@, *a),
            Message::RequestConfirmation(r, a) => MessageView::RequestConfirmation(r@, *a),
            Message::RequestAuthorization(r) => MessageView::RequestAuthorization(r@),
            Message::AuthorizeService(r, a) => MessageView::AuthorizeService(r@, a@),
            Message::RequestYesNo(a, b, c, d) => MessageView::RequestYesNo(a@, b@, c@, *d),
            Message::InvalidateSort() => MessageView::InvalidateSort,
            Message::RefreshDevicesList() => MessageView::RefreshDevicesList,
            Message::UpdateBatteryLevel(a) => MessageView::UpdateBatteryLevel(*a),
        }
    }
}

/// The views of a list of messages, in order.
pub open spec fn message_views(v: Seq<Message>) -> Seq<MessageView> {
    v.map_values(|m: Message| m@)
}

} // verus!
