use vstd::prelude::*;
use crate::address::{alias_is_address, names_an_address, BtAddress};
use crate::bluetooth::message::{
    message_views, AgentRequest, Message, MessageView, ToastPriority,
};
use crate::bluetooth_state::{
    unknown_adapter, unknown_adapter_text, unknown_device_text, BluetoothState,
};
use crate::text::{
    contains, decimal, has_infix, law_text_order_antisymmetric, law_text_order_transitive,
    law_text_order_lexicographic,
    lowercase, order_texts, same_text, text_order, to_lowercase, u32_to_decimal, TextOrder,
};
use crate::widgets::device_action_row::DeviceActionRow;

verus! {

// ---------------------------------------------------------------------------
// Toasts
// ---------------------------------------------------------------------------

/// The toast title for an error or notice text, once lowercased: the first
/// known phrase that the text holds decides it.
pub open spec fn toast_title_text(lowered: Seq<char>) -> Seq<char> {
    if has_infix(lowered, "page-timeout"@) {
        "Failed to connect to device, connection timed out"@
    } else if has_infix(lowered, "already-connected"@) {
        "Device is already connected"@
    } else if has_infix(lowered, "busy"@) {
        "Other operations pending, please try again in a bit"@
    } else if has_infix(lowered, "limit"@) {
        "Reached limit, cannot connect to anymore devices"@
    } else if has_infix(lowered, "connection-timeout"@) {
        "Failed to connect to device, connection timed out"@
    } else if has_infix(lowered, "refused"@) {
        "Connection was refused by target device"@
    } else if has_infix(lowered, "aborted-by-remote"@) {
        "Target device aborted connection"@
    } else if has_infix(lowered, "aborted-by-local"@) {
        "Connection has been aborted"@
    } else if has_infix(lowered, "canceled"@) {
        "Connection was canceled due to unforeseen circumstances"@
    } else if has_infix(lowered, "unknown-error"@) {
        "Connection failed, no idea why"@
    } else if has_infix(lowered, "not-powered"@) || has_infix(lowered, "resource not ready"@) {
        "Adapter is not powered"@
    } else if has_infix(lowered, "not-supported"@) {
        "Connection failed, requested features are not supported"@
    } else if has_infix(lowered, "refreshed"@) {
        "Refreshed devices list"@
    } else if has_infix(lowered, "stopped searching for devices"@) {
        "Stopped searching for devices"@
    } else if has_infix(lowered, "refresh-adapter-failed"@) {
        "Unable to refresh devices list after adapter change"@
    } else {
        "Unknown error occurred"@
    }
}

/// The toast title for a text that is already lowercase.
pub fn toast_title_lowered(lowered: &str) -> (r: String)
    ensures
        r@ == toast_title_text(lowered@),
{
    if contains(lowered, "page-timeout") {
        "Failed to connect to device, connection timed out".to_string()
    } else if contains(lowered, "already-connected") {
        "Device is already connected".to_string()
    } else if contains(lowered, "busy") {
        "Other operations pending, please try again in a bit".to_string()
    } else if contains(lowered, "limit") {
        "Reached limit, cannot connect to anymore devices".to_string()
    } else if contains(lowered, "connection-timeout") {
        "Failed to connect to device, connection timed out".to_string()
    } else if contains(lowered, "refused") {
        "Connection was refused by target device".to_string()
    } else if contains(lowered, "aborted-by-remote") {
        "Target device aborted connection".to_string()
    } else if contains(lowered, "aborted-by-local") {
        "Connection has been aborted".to_string()
    } else if contains(lowered, "canceled") {
        "Connection was canceled due to unforeseen circumstances".to_string()
    } else if contains(lowered, "unknown-error") {
        "Connection failed, no idea why".to_string()
    } else if contains(lowered, "not-powered") || contains(lowered, "resource not ready") {
        "Adapter is not powered".to_string()
    } else if contains(lowered, "not-supported") {
        "Connection failed, requested features are not supported".to_string()
    } else if contains(lowered, "refreshed") {
        "Refreshed devices list".to_string()
    } else if contains(lowered, "stopped searching for devices") {
        "Stopped searching for devices".to_string()
    } else if contains(lowered, "refresh-adapter-failed") {
        "Unable to refresh devices list after adapter change".to_string()
    } else {
        "Unknown error occurred".to_string()
    }
}

/// The toast title for an error or notice text: the text is lowercased
/// (`str::to_lowercase`) and then looked up as `toast_title_text` says.
pub fn toast_title(message: &str) -> (r: String)
    ensures
        r@ == toast_title_text(lowercase(message@)),
{
    let lowered = to_lowercase(message);
    toast_title_lowered(lowered.as_str())
}

/// The markup of a toast's title: bold for a high priority toast, regular otherwise.
pub open spec fn toast_markup_text(title: Seq<char>, priority: ToastPriority) -> Seq<char> {
    (if priority == ToastPriority::High {
        "<span font_weight='bold'>"@
    } else {
        "<span font_weight='regular'>"@
    }) + title + "</span>"@
}

/// Marks up a toast's title for its priority.
pub fn toast_markup(title: &str, priority: ToastPriority) -> (r: String)
    ensures
        r@ == toast_markup_text(title@, priority),
{
    let mut markup = match priority {
        ToastPriority::High => "<span font_weight='bold'>".to_string(),
        _ => "<span font_weight='regular'>".to_string(),
    };
    markup.append(title);
    markup.append("</span>");
    markup
}

/// Whether a toast shows the notification icon: only a high priority one does.
pub fn toast_has_icon(priority: ToastPriority) -> (r: bool)
    ensures
        r == (priority == ToastPriority::High),
{
    match priority {
        ToastPriority::High => true,
        _ => false,
    }
}

// ---------------------------------------------------------------------------
// Sorting the device list
// ---------------------------------------------------------------------------

/// Where one row goes relative to another.
#[derive(Clone, Copy, Debug, PartialEq, Eq, Structural)]
pub enum RowOrder {
    Smaller,
    Equal,
    Larger,
}

/// The order of two rows by their lowercased titles: rows titled `unknown
/// device` go after all others; the rest go by the order of their titles.
pub open spec fn row_order(one: Seq<char>, two: Seq<char>) -> RowOrder {
    if one == "unknown device"@ && two != "unknown device"@ {
        RowOrder::Larger
    } else if two == "unknown device"@ && one != "unknown device"@ {
        RowOrder::Smaller
    } else {
        match text_order(one, two) {
            TextOrder::Before => RowOrder::Smaller,
            TextOrder::After => RowOrder::Larger,
            TextOrder::Same => RowOrder::Equal,
        }
    }
}

/// Orders two rows by their lowercased titles.
pub fn order_rows_lowered(one: &str, two: &str) -> (r: RowOrder)
    ensures
        r == row_order(one@, two@),
{
    let one_unknown = same_text(one, "unknown device");
    let two_unknown = same_text(two, "unknown device");
    if one_unknown && !two_unknown {
        return RowOrder::Larger;
    }
    if two_unknown && !one_unknown {
        return RowOrder::Smaller;
    }
    match order_texts(one, two) {
        TextOrder::Before => RowOrder::Smaller,
        TextOrder::After => RowOrder::Larger,
        TextOrder::Same => RowOrder::Equal,
    }
}

/// The device list's sort function: orders two rows by their titles,
/// lowercased with `str::to_lowercase`.
pub fn sort_rows(title_one: &str, title_two: &str) -> (r: RowOrder)
    ensures
        r == row_order(lowercase(title_one@), lowercase(title_two@)),
{
    let one = to_lowercase(title_one);
    let two = to_lowercase(title_two);
    order_rows_lowered(one.as_str(), two.as_str())
}

impl RowOrder {
    /// The order seen from the other row.
    pub open spec fn flipped(self) -> RowOrder {
        match self {
            RowOrder::Smaller => RowOrder::Larger,
            RowOrder::Equal => RowOrder::Equal,
            RowOrder::Larger => RowOrder::Smaller,
        }
    }
}

/// The sort order is consistent: comparing two rows the other way round gives
/// the flipped order, and two rows are level exactly when their lowercased
/// titles are equal.
pub proof fn law_row_order_antisymmetric(one: Seq<char>, two: Seq<char>)
    ensures
        row_order(two, one) == row_order(one, two).flipped(),
        (row_order(one, two) == RowOrder::Equal) <==> one == two,
{
    law_text_order_antisymmetric(one, two);
}

/// The sort order is transitive.
pub proof fn law_row_order_transitive(a: Seq<char>, b: Seq<char>, c: Seq<char>)
    requires
        row_order(a, b) != RowOrder::Larger,
        row_order(b, c) != RowOrder::Larger,
    ensures
        row_order(a, c) != RowOrder::Larger,
{
    let u = "unknown device"@;
    law_text_order_antisymmetric(a, b);
    law_text_order_antisymmetric(b, c);
    law_text_order_antisymmetric(a, c);
    if a != u && b != u && c != u {
        law_text_order_transitive(a, b, c);
    }
}

/// Named rows are listed alphabetically by code point of their lowercased
/// titles: after a shared beginning, the title whose first differing
/// character comes first is listed first, whatever the titles' lengths.
pub proof fn law_rows_listed_alphabetically(
    p: Seq<char>,
    c1: char,
    c2: char,
    s: Seq<char>,
    t: Seq<char>,
)
    requires
        (c1 as u32) < (c2 as u32),
        p + (seq![c1] + s) != "unknown device"@,
        p + (seq![c2] + t) != "unknown device"@,
    ensures
        row_order(p + (seq![c1] + s), p + (seq![c2] + t)) == RowOrder::Smaller,
        row_order(p + (seq![c2] + t), p + (seq![c1] + s)) == RowOrder::Larger,
{
    law_text_order_lexicographic(p, c1, c2, s, t);
    law_text_order_antisymmetric(p + (seq![c1] + s), p + (seq![c2] + t));
}

/// Rows without a real name go last: a row titled `unknown device` comes
/// after every row titled otherwise.
pub proof fn law_unknown_devices_last(other: Seq<char>)
    requires
        other != "unknown device"@,
    ensures
        row_order("unknown device"@, other) == RowOrder::Larger,
        row_order(other, "unknown device"@) == RowOrder::Smaller,
{
}

// ---------------------------------------------------------------------------
// Removing rows
// ---------------------------------------------------------------------------

/// What a row of the device list is known by: its title and its address.
pub struct RowKey {
    pub title: String,
    pub address: BtAddress,
}

/// A row key as plain values.
pub struct RowKeyView {
    pub title: Seq<char>,
    pub address: BtAddress,
}

impl View for RowKey {
    type V = RowKeyView;

    open spec fn view(&self) -> RowKeyView {
        RowKeyView { title: self.title@, address: self.address }
    }
}

/// The row keys of a list, as plain values.
pub open spec fn row_views(rows: Seq<RowKey>) -> Seq<RowKeyView> {
    rows.map_values(|r: RowKey| r@)
}

/// A row is the one a removal names: same title and same address.
pub open spec fn row_is(row: RowKeyView, name: Seq<char>, address: BtAddress) -> bool {
    row.title == name && row.address == address
}

/// Which rows a removal of (`name`, `address`) takes out of the list: every
/// row with that title and address, and no other.
pub open spec fn removal_mask(rows: Seq<RowKeyView>, name: Seq<char>, address: BtAddress) -> Seq<bool> {
    Seq::new(rows.len(), |i: int| row_is(rows[i], name, address))
}

/// For each row of the list, whether the removal of (`name`, `address`)
/// takes it out: the row of the removed device, found by its title and
/// address.
pub fn removed_rows(rows: &Vec<RowKey>, name: &str, address: BtAddress) -> (r: Vec<bool>)
    ensures
        r@ == removal_mask(row_views(rows@), name@, address),
{
    let ghost all = row_views(rows@);
    let mut mask: Vec<bool> = Vec::new();
    let mut i: usize = 0;
    while i < rows.len()
        invariant
            all == row_views(rows@),
            i <= rows.len(),
            mask@.len() == i,
            forall|k: int| 0 <= k < i ==> #[trigger] mask@[k] == row_is(all[k], name@, address),
        decreases rows.len() - i,
    {
        proof {
            assert(all[i as int] == rows@[i as int]@);
        }
        let matches = same_text(rows[i].title.as_str(), name) && rows[i].address == address;
        mask.push(matches);
        i = i + 1;
    }
    proof {
        assert(mask@ =~= removal_mask(all, name@, address));
    }
    mask
}

// ---------------------------------------------------------------------------
// The empty-list picture
// ---------------------------------------------------------------------------

/// What is visible: the "no devices" picture, and the list itself.
#[derive(Clone, Copy, Debug, PartialEq, Eq, Structural)]
pub struct ListVisibility {
    pub image_visible: bool,
    pub list_visible: bool,
}

/// The list shows when it has a first row; the picture shows otherwise.
pub fn list_visibility(has_rows: bool) -> (r: ListVisibility)
    ensures
        r.list_visible == has_rows,
        r.image_visible == !has_rows,
{
    if has_rows {
        ListVisibility { image_visible: false, list_visible: true }
    } else {
        ListVisibility { image_visible: true, list_visible: false }
    }
}

// ---------------------------------------------------------------------------
// Pairing dialogs
// ---------------------------------------------------------------------------

/// The name a dialog gives a device: its recorded name, or `Unknown Device`.
pub open spec fn device_label(state: BluetoothState, device: BtAddress) -> Seq<char> {
    if state.device_names().contains_key(device.value) {
        state.device_names()[device.value]
    } else {
        unknown_device_text()
    }
}

/// The name a dialog gives an adapter looked up by alias: the recorded name,
/// or `Unknown Adapter`.
pub open spec fn adapter_label(state: BluetoothState, key: Seq<char>) -> Seq<char> {
    if state.adapter_names().contains_key(key) {
        state.adapter_names()[key]
    } else {
        unknown_adapter_text()
    }
}

/// `alias` is an alias under which the adapter named `name` is recorded.
pub open spec fn is_alias_of(state: BluetoothState, alias: Seq<char>, name: Seq<char>) -> bool {
    state.adapter_names().contains_key(alias) && state.adapter_names()[alias] == name
}

/// No alias is recorded for the adapter named `name`.
pub open spec fn has_no_alias(state: BluetoothState, name: Seq<char>) -> bool {
    forall|a: Seq<char>| #[trigger] state.adapter_names().contains_key(a) ==> state.adapter_names()[a]
        != name
}

/// The body of the dialog that asks for a pin code.
pub open spec fn pin_code_request_text(device: Seq<char>, adapter: Seq<char>) -> Seq<char> {
    device + " has requested pairing on "@ + adapter + ", please enter the correct pin code."@
}

/// The body of the dialog that asks for a pass key.
pub open spec fn pass_key_request_text(device: Seq<char>, adapter: Seq<char>) -> Seq<char> {
    device + " has requested pairing on "@ + adapter + ", please enter the correct pass key."@
}

/// The body of the dialog that shows a code to type on the device.
pub open spec fn display_code_text(device: Seq<char>) -> Seq<char> {
    "Please enter this pin code on "@ + device
}

/// The body of the dialog that asks to confirm a pass key.
pub open spec fn confirmation_text(device: Seq<char>, adapter: Seq<char>) -> Seq<char> {
    "Is this the right code for "@ + device + " on "@ + adapter
}

/// The markup of the pass key a confirmation dialog shows.
pub open spec fn confirmation_code_text(passkey: u32) -> Seq<char> {
    "<span font_weight='bold' font_size='32pt'>"@ + decimal(passkey as nat) + "</span>"@
}

/// The body of the dialog that asks to allow a pairing.
pub open spec fn authorization_text(device: Seq<char>, adapter: Seq<char>) -> Seq<char> {
    "Is `"@ + device + "` on `"@ + adapter + "` allowed to pair?"@
}

/// The body of the dialog that asks to allow a service.
pub open spec fn service_authorization_text(
    service: Seq<char>,
    device: Seq<char>,
    adapter: Seq<char>,
) -> Seq<char> {
    "Is <span font_weight='bold' color='#78aeed'>`"@ + service
        + "`</span> allowed to be authorized?\nRequest by <span font_weight='bold'>`"@ + device
        + "`</span> on <span font_weight='bold'>`"@ + adapter + "`</span>."@
}

/// The body of the pin code request dialog: the device by its recorded name,
/// the adapter looked up by the request's adapter in the alias table.
pub fn pin_code_request_body(state: &BluetoothState, request: &AgentRequest) -> (r: String)
    requires
        state.devices is Some,
        state.adapters is Some,
    ensures
        r@ == pin_code_request_text(
            device_label(*state, request.device),
            adapter_label(*state, request.adapter@),
        ),
{
    let mut body = state.device_name(request.device);
    let adapter = state.adapter_name(request.adapter.as_str());
    body.append(" has requested pairing on ");
    body.append(adapter.as_str());
    body.append(", please enter the correct pin code.");
    body
}

/// The body of the pass key request dialog, looked up as for a pin code.
pub fn pass_key_request_body(state: &BluetoothState, request: &AgentRequest) -> (r: String)
    requires
        state.devices is Some,
        state.adapters is Some,
    ensures
        r@ == pass_key_request_text(
            device_label(*state, request.device),
            adapter_label(*state, request.adapter@),
        ),
{
    let mut body = state.device_name(request.device);
    let adapter = state.adapter_name(request.adapter.as_str());
    body.append(" has requested pairing on ");
    body.append(adapter.as_str());
    body.append(", please enter the correct pass key.");
    body
}

/// The body of the dialog that shows a pin code or pass key to type.
pub fn display_code_body(state: &BluetoothState, device: BtAddress) -> (r: String)
    requires
        state.devices is Some,
    ensures
        r@ == display_code_text(device_label(*state, device)),
{
    let name = state.device_name(device);
    let mut body = "Please enter this pin code on ".to_string();
    body.append(name.as_str());
    body
}

/// The body of the dialog that asks to confirm a pass key. The adapter is
/// named by an alias recorded for the request's adapter; `Unknown Adapter`
/// when none is, or when the alias found is empty.
pub fn confirmation_body(state: &BluetoothState, request: &AgentRequest) -> (r: String)
    requires
        state.devices is Some,
        state.adapters is Some,
    ensures
        (exists|a: Seq<char>|
            #![trigger is_alias_of(*state, a, request.adapter@)]
            is_alias_of(*state, a, request.adapter@) && a.len() > 0 && r@ == confirmation_text(
                device_label(*state, request.device),
                a,
            )) || (r@ == confirmation_text(device_label(*state, request.device), unknown_adapter_text())
            && (has_no_alias(*state, request.adapter@) || is_alias_of(
            *state,
            Seq::<char>::empty(),
            request.adapter@,
        ))),
{
    let device = state.device_name(request.device);
    let adapter = match state.adapter_alias(request.adapter.as_str()) {
        Some(a) => {
            if a.as_str().is_empty() {
                proof {
                    assert(a@ =~= Seq::<char>::empty());
                }
                unknown_adapter()
            } else {
                a
            }
        },
        None => unknown_adapter(),
    };
    let mut body = "Is this the right code for ".to_string();
    body.append(device.as_str());
    body.append(" on ");
    body.append(adapter.as_str());
    proof {
        if adapter@ != unknown_adapter_text() {
            assert(is_alias_of(*state, adapter@, request.adapter@));
        }
    }
    body
}

/// The markup that shows the pass key to confirm, in large bold digits.
pub fn confirmation_code_markup(passkey: u32) -> (r: String)
    ensures
        r@ == confirmation_code_text(passkey),
{
    let mut markup = "<span font_weight='bold' font_size='32pt'>".to_string();
    let digits = u32_to_decimal(passkey);
    markup.append(digits.as_str());
    markup.append("</span>");
    markup
}

/// The body of the dialog that asks to allow a pairing, looked up as for a
/// pin code.
pub fn authorization_body(state: &BluetoothState, request: &AgentRequest) -> (r: String)
    requires
        state.devices is Some,
        state.adapters is Some,
    ensures
        r@ == authorization_text(
            device_label(*state, request.device),
            adapter_label(*state, request.adapter@),
        ),
{
    let device = state.device_name(request.device);
    let adapter = state.adapter_name(request.adapter.as_str());
    let mut body = "Is `".to_string();
    body.append(device.as_str());
    body.append("` on `");
    body.append(adapter.as_str());
    body.append("` allowed to pair?");
    body
}

/// The body of the dialog that asks to allow a service. The adapter is named
/// by an alias recorded for the request's adapter, or `Unknown Adapter`.
pub fn service_authorization_body(
    state: &BluetoothState,
    request: &AgentRequest,
    service: &str,
) -> (r: String)
    requires
        state.devices is Some,
        state.adapters is Some,
    ensures
        (exists|a: Seq<char>|
            #![trigger is_alias_of(*state, a, request.adapter@)]
            is_alias_of(*state, a, request.adapter@) && r@ == service_authorization_text(
                service@,
                device_label(*state, request.device),
                a,
            )) || (has_no_alias(*state, request.adapter@) && r@ == service_authorization_text(
            service@,
            device_label(*state, request.device),
            unknown_adapter_text(),
        )),
{
    let device = state.device_name(request.device);
    let found = state.adapter_alias(request.adapter.as_str());
    let ghost found_alias = found is Some;
    let adapter = match found {
        Some(a) => a,
        None => unknown_adapter(),
    };
    let mut body = "Is <span font_weight='bold' color='#78aeed'>`".to_string();
    body.append(service);
    body.append("`</span> allowed to be authorized?\nRequest by <span font_weight='bold'>`");
    body.append(device.as_str());
    body.append("`</span> on <span font_weight='bold'>`");
    body.append(adapter.as_str());
    body.append("`</span>.");
    proof {
        if found_alias {
            assert(is_alias_of(*state, adapter@, request.adapter@));
        }
    }
    body
}

/// The answer id of a yes/no dialog: its confirming word, lowercased.
pub fn yes_no_answer_id(confirm: &str) -> (r: String)
    ensures
        r@ == lowercase(confirm@),
{
    to_lowercase(confirm)
}

// ---------------------------------------------------------------------------
// Outcomes of the window's Bluetooth actions
// ---------------------------------------------------------------------------

/// What the window reports after refreshing the device list: the error as a
/// high priority toast and an update of the empty-list picture, or the
/// `br-adapter-refreshed` notice.
pub open spec fn refresh_report(outcome: Result<(), Seq<char>>) -> Seq<MessageView> {
    match outcome {
        Err(e) => seq![MessageView::PopupError(e, ToastPriority::High), MessageView::UpdateListBoxImage],
        Ok(_) => seq![MessageView::PopupError("br-adapter-refreshed"@, ToastPriority::Normal)],
    }
}

/// The messages that report a refresh of the device list; `outcome` holds
/// the error text of a failed search.
pub fn refresh_messages(outcome: Result<(), String>) -> (r: Vec<Message>)
    ensures
        message_views(r@) == refresh_report(
            match outcome {
                Ok(u) => Ok(u),
                Err(e) => Err(e@),
            },
        ),
{
    let mut r: Vec<Message> = Vec::new();
    match outcome {
        Err(e) => {
            r.push(Message::PopupError(e, ToastPriority::High));
            r.push(Message::UpdateListBoxImage());
        },
        Ok(_) => {
            r.push(Message::PopupError("br-adapter-refreshed".to_string(), ToastPriority::Normal));
        },
    }
    proof {
        assert(message_views(r@) =~= refresh_report(
            match outcome {
                Ok(u) => Ok(u),
                Err(e) => Err(e@),
            },
        ));
    }
    r
}

/// The messages after switching the adapter's power failed: the error as a
/// high priority toast, then the switch set to the power state read back, if
/// it could be read.
pub fn powered_failure_messages(error: String, powered_now: Option<bool>) -> (r: Vec<Message>)
    ensures
        message_views(r@) == (match powered_now {
            Some(p) => seq![
                MessageView::PopupError(error@, ToastPriority::High),
                MessageView::SwitchAdapterPowered(p),
            ],
            None => seq![MessageView::PopupError(error@, ToastPriority::High)],
        }),
{
    let ghost e = error@;
    let mut r: Vec<Message> = Vec::new();
    r.push(Message::PopupError(error, ToastPriority::High));
    match powered_now {
        Some(p) => {
            r.push(Message::SwitchAdapterPowered(p));
        },
        None => {},
    }
    proof {
        assert(message_views(r@) =~= (match powered_now {
            Some(p) => seq![
                MessageView::PopupError(e, ToastPriority::High),
                MessageView::SwitchAdapterPowered(p),
            ],
            None => seq![MessageView::PopupError(e, ToastPriority::High)],
        }));
    }
    r
}

/// The messages after switching discoverability failed: the error, after
/// `Adapter `, as a high priority toast, then the switch turned off.
pub fn discoverable_failure_messages(error: &str) -> (r: Vec<Message>)
    ensures
        message_views(r@) == seq![
            MessageView::PopupError("Adapter "@ + error@, ToastPriority::High),
            MessageView::SwitchAdapterDiscoverable(false),
        ],
{
    let mut text = "Adapter ".to_string();
    text.append(error);
    let mut r: Vec<Message> = Vec::new();
    r.push(Message::PopupError(text, ToastPriority::High));
    r.push(Message::SwitchAdapterDiscoverable(false));
    proof {
        assert(message_views(r@) =~= seq![
            MessageView::PopupError("Adapter "@ + error@, ToastPriority::High),
            MessageView::SwitchAdapterDiscoverable(false),
        ]);
    }
    r
}

// ---------------------------------------------------------------------------
// Adding a device row
// ---------------------------------------------------------------------------

/// The title a new device row shows: its alias, or `Unknown Device` when the
/// alias only spells an address.
pub open spec fn row_title(alias: Seq<char>) -> Seq<char> {
    if names_an_address(alias) {
        unknown_device_text()
    } else {
        alias
    }
}

/// Builds the row for a newly found device from its alias: the row shows
/// `row_title`, stands for the device and can be activated; the device's
/// name is recorded under its address, and the list is asked to sort again.
/// The device table must be present.
pub fn add_child_row(state: &mut BluetoothState, address: BtAddress, alias: String) -> (r: (
    DeviceActionRow,
    Message,
))
    requires
        old(state).devices is Some,
    ensures
        r.0.address == address,
        r.0.title@ == row_title(alias@),
        r.0.activatable,
        r.1@ == MessageView::InvalidateSort,
        final(state).devices is Some,
        final(state).device_names() == old(state).device_names().insert(address.value, row_title(alias@)),
        final(state).adapters == old(state).adapters,
{
    let mut row = DeviceActionRow::new();
    row.set_bluer_address(address);
    let name = if alias_is_address(alias.as_str()) {
        crate::bluetooth_state::unknown_device()
    } else {
        alias
    };
    row.set_title(name.clone());
    row.set_activatable(true);
    state.register_device(address, name);
    (row, Message::InvalidateSort())
}

/// A device that got a row is called by the row's title in later dialogs.
pub proof fn law_row_title_names_device(
    before: BluetoothState,
    after: BluetoothState,
    address: BtAddress,
    alias: Seq<char>,
)
    requires
        after.device_names() == before.device_names().insert(address.value, row_title(alias)),
    ensures
        device_label(after, address) == row_title(alias),
{
}

/// A device whose name was forgotten is called `Unknown Device` in later dialogs.
pub proof fn law_forgotten_device_is_unknown(
    before: BluetoothState,
    after: BluetoothState,
    address: BtAddress,
)
    requires
        after.device_names() == before.device_names().remove(address.value),
    ensures
        device_label(after, address) == unknown_device_text(),
{
}

} // verus!
