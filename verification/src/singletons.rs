use vstd::prelude::*;
use crate::address::BtAddress;
use crate::text::{
    contains, decimal, has_infix, law_parse_ignores_leading_zeros, law_parse_reads_decimal, occurs_at,
    parse_u32_or_zero, parsed_u32, zeros,
};

verus! {

/// The word in a dialog's answer that confirms an entered pin code or pass key.
pub open spec fn confirm_word() -> Seq<char> {
    "confirm"@
}

/// The value a pass key dialog leaves: the number typed when the answer
/// confirms it and the text reads as one, else 0.
pub open spec fn entered_pass_key(confirmed: bool, text: Seq<char>) -> u32 {
    if confirmed {
        match parsed_u32(text) {
            Some(v) => v,
            None => 0u32,
        }
    } else {
        0u32
    }
}

/// The application's shared settings and the state of its pairing dialogs.
pub struct BtmanProperties {
    pub name: String,
    pub current_adapter: String,
    pub address: BtAddress,
    pub displaying_dialog: bool,
    pub pin_code: String,
    pub pass_key: u32,
    pub confirm_authorization: bool,
    pub current_index: i32,
}

impl BtmanProperties {
    /// Nothing chosen yet: empty names, the `any` address, no dialog.
    pub fn new() -> (r: BtmanProperties)
        ensures
            r.name@ == Seq::<char>::empty(),
            r.current_adapter@ == Seq::<char>::empty(),
            r.address.value == 0,
            !r.displaying_dialog,
            r.pin_code@ == Seq::<char>::empty(),
            r.pass_key == 0,
            !r.confirm_authorization,
            r.current_index == 0,
    {
        BtmanProperties {
            name: String::new(),
            current_adapter: String::new(),
            address: BtAddress::any(),
            displaying_dialog: false,
            pin_code: String::new(),
            pass_key: 0,
            confirm_authorization: false,
            current_index: 0,
        }
    }

    /// A dialog is put on screen.
    pub fn begin_dialog(&mut self)
        ensures
            *final(self) == (BtmanProperties { displaying_dialog: true, ..*old(self) }),
    {
        self.displaying_dialog = true;
    }

    /// An informing dialog is closed.
    pub fn end_dialog(&mut self)
        ensures
            *final(self) == (BtmanProperties { displaying_dialog: false, ..*old(self) }),
    {
        self.displaying_dialog = false;
    }

    /// A yes/no dialog is closed with `response`: it was accepted when the
    /// response holds the accepting word. Returns whether it was accepted.
    pub fn finish_choice(&mut self, response: &str, accept: &str) -> (r: bool)
        ensures
            r == has_infix(response@, accept@),
            *final(self) == (BtmanProperties {
                displaying_dialog: false,
                confirm_authorization: r,
                ..*old(self)
            }),
    {
        let accepted = contains(response, accept);
        self.displaying_dialog = false;
        self.confirm_authorization = accepted;
        accepted
    }

    /// A pin code dialog is closed with `response`; the typed text is kept
    /// when the response confirms it, else the pin code becomes empty.
    pub fn finish_pin_code(&mut self, response: &str, typed: String)
        ensures
            final(self).pin_code@ == (if has_infix(response@, confirm_word()) {
                typed@
            } else {
                Seq::<char>::empty()
            }),
            *final(self) == (BtmanProperties {
                displaying_dialog: false,
                pin_code: final(self).pin_code,
                ..*old(self)
            }),
    {
        let confirmed = contains(response, "confirm");
        proof {
            reveal_strlit("confirm");
        }
        self.displaying_dialog = false;
        if confirmed {
            self.pin_code = typed;
        } else {
            self.pin_code = String::new();
        }
    }

    /// A pass key dialog is closed with `response`; the typed number is kept
    /// when the response confirms it, else (or when the text is no number)
    /// the pass key becomes 0.
    pub fn finish_pass_key(&mut self, response: &str, typed: &str)
        ensures
            *final(self) == (BtmanProperties {
                displaying_dialog: false,
                pass_key: entered_pass_key(has_infix(response@, confirm_word()), typed@),
                ..*old(self)
            }),
    {
        let confirmed = contains(response, "confirm");
        proof {
            reveal_strlit("confirm");
        }
        let value: u32 = if confirmed {
            parse_u32_or_zero(typed)
        } else {
            proof {
                reveal_strlit("");
            }
            parse_u32_or_zero("")
        };
        self.displaying_dialog = false;
        self.pass_key = value;
    }

    /// A device row was activated: it becomes the current one.
    pub fn select_row(&mut self, index: i32, address: BtAddress)
        ensures
            *final(self) == (BtmanProperties { current_index: index, address: address, ..*old(self) }),
    {
        self.current_index = index;
        self.address = address;
    }

    /// Whether start-up must ask for the default adapter: no adapter name was saved.
    pub fn startup_needs_default(saved: &str) -> (r: bool)
        ensures
            r == (saved@.len() == 0),
    {
        saved.is_empty()
    }

    /// Start-up with a saved adapter name: it becomes the current adapter.
    pub fn use_saved_adapter(&mut self, saved: String)
        ensures
            *final(self) == (BtmanProperties { current_adapter: saved, ..*old(self) }),
    {
        self.current_adapter = saved;
    }

    /// Start-up with the default adapter: it becomes the current adapter and
    /// the name.
    pub fn use_default_adapter(&mut self, default_name: String)
        ensures
            final(self).current_adapter@ == default_name@,
            final(self).name@ == default_name@,
            *final(self) == (BtmanProperties {
                current_adapter: final(self).current_adapter,
                name: final(self).name,
                ..*old(self)
            }),
    {
        self.current_adapter = default_name.clone();
        self.name = default_name;
    }
}

/// A pass key typed as a number and confirmed is the pass key kept: closing
/// the pass key dialog with its `confirm` answer after typing the decimal
/// notation of `n` leaves `n`.
pub proof fn law_confirmed_pass_key_is_kept(n: u32)
    ensures
        entered_pass_key(has_infix(confirm_word(), confirm_word()), decimal(n as nat)) == n,
{
    let w = confirm_word();
    assert(w.subrange(0, w.len() as int) =~= w);
    assert(occurs_at(w, w, 0));
    law_parse_reads_decimal(n);
}

/// A confirmed pass key keeps whatever number the typed text reads as, and
/// leading zeros do not change it: typing `0…0` before the decimal notation
/// of `n` and confirming leaves `n`; a declined dialog leaves 0.
pub proof fn law_confirmed_pass_key_reads_the_number(text: Seq<char>, k: nat, n: u32)
    ensures
        parsed_u32(text) matches Some(v) ==> entered_pass_key(true, text) == v,
        parsed_u32(text) is None ==> entered_pass_key(true, text) == 0,
        entered_pass_key(true, zeros(k) + decimal(n as nat)) == n,
        entered_pass_key(false, text) == 0,
{
    law_parse_ignores_leading_zeros(k, n);
}

} // verus!
