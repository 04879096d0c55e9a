use vstd::prelude::*;
use crate::address::BtAddress;
use crate::text::same_text;
use std::collections::HashMap;

verus! {

broadcast use vstd::std_specs::hash::group_hash_axioms;

/// The name a dialog shows for a device it has no name for.
pub open spec fn unknown_device_text() -> Seq<char> {
    "Unknown Device"@
}

/// The name a dialog shows for an adapter it has no name for.
pub open spec fn unknown_adapter_text() -> Seq<char> {
    "Unknown Adapter"@
}

/// The name `Unknown Device`.
pub fn unknown_device() -> (r: String)
    ensures
        r@ == unknown_device_text(),
{
    "Unknown Device".to_string()
}

/// The name `Unknown Adapter`.
pub fn unknown_adapter() -> (r: String)
    ensures
        r@ == unknown_adapter_text(),
{
    "Unknown Adapter".to_string()
}

// ---------------------------------------------------------------------------
// Devices
// ---------------------------------------------------------------------------

/// Device address to device name, for the devices listed as rows.
pub struct DeviceTable {
    names: HashMap<u64, String>,
}

impl DeviceTable {
    /// The names, keyed by the address's number.
    pub closed spec fn view(&self) -> Map<u64, Seq<char>> {
        self.names@.map_values(|n: String| n@)
    }

    /// An empty table.
    pub fn new() -> (r: DeviceTable)
        ensures
            r@ == Map::<u64, Seq<char>>::empty(),
    {
        let r = DeviceTable { names: HashMap::new() };
        proof {
            assert(r@ =~= Map::<u64, Seq<char>>::empty());
        }
        r
    }

    /// Whether the device has a name in the table.
    pub fn contains(&self, address: BtAddress) -> (r: bool)
        ensures
            r == self@.contains_key(address.value),
    {
        self.names.contains_key(&address.value)
    }

    /// The device's name, if the table has one.
    pub fn get(&self, address: BtAddress) -> (r: Option<String>)
        ensures
            match r {
                Some(n) => self@.contains_key(address.value) && n@ == self@[address.value],
                None => !self@.contains_key(address.value),
            },
    {
        match self.names.get(&address.value) {
            Some(n) => Some(n.clone()),
            None => None,
        }
    }

    /// Records the device's name, replacing any earlier one.
    pub fn insert(&mut self, address: BtAddress, name: String)
        ensures
            final(self)@ == old(self)@.insert(address.value, name@),
    {
        let ghost n = name@;
        self.names.insert(address.value, name);
        proof {
            assert(final(self)@ =~= old(self)@.insert(address.value, n));
        }
    }

    /// Forgets the device, handing back the name it had.
    pub fn remove(&mut self, address: BtAddress) -> (r: Option<String>)
        ensures
            final(self)@ == old(self)@.remove(address.value),
            match r {
                Some(n) => old(self)@.contains_key(address.value) && n@ == old(self)@[address.value],
                None => !old(self)@.contains_key(address.value),
            },
    {
        let r = self.names.remove(&address.value);
        proof {
            assert(final(self)@ =~= old(self)@.remove(address.value));
        }
        r
    }
}

// ---------------------------------------------------------------------------
// Adapters
// ---------------------------------------------------------------------------

/// The map that a list of (key, value) pairs denotes; a later pair wins.
pub open spec fn pairs_map(s: Seq<(Seq<char>, Seq<char>)>) -> Map<Seq<char>, Seq<char>>
    decreases s.len(),
{
    if s.len() == 0 {
        Map::empty()
    } else {
        pairs_map(s.drop_last()).insert(s.last().0, s.last().1)
    }
}

/// No key occurs twice.
pub open spec fn keys_unique(s: Seq<(Seq<char>, Seq<char>)>) -> bool {
    forall|i: int, j: int| 0 <= i < j < s.len() ==> #[trigger] s[i].0 != #[trigger] s[j].0
}

proof fn lemma_pairs_map_has(s: Seq<(Seq<char>, Seq<char>)>, i: int)
    requires
        keys_unique(s),
        0 <= i < s.len(),
    ensures
        pairs_map(s).contains_key(s[i].0),
        pairs_map(s)[s[i].0] == s[i].1,
    decreases s.len(),
{
    if i < s.len() - 1 {
        let t = s.drop_last();
        assert(t[i] == s[i]);
        assert forall|a: int, b: int| 0 <= a < b < t.len() implies #[trigger] t[a].0 != #[trigger] t[b].0 by {
            assert(t[a] == s[a] && t[b] == s[b]);
        }
        lemma_pairs_map_has(t, i);
        assert(s[i].0 != s.last().0);
    }
}

proof fn lemma_pairs_map_keys(s: Seq<(Seq<char>, Seq<char>)>, k: Seq<char>)
    requires
        pairs_map(s).contains_key(k),
    ensures
        exists|i: int| 0 <= i < s.len() && #[trigger] s[i].0 == k,
    decreases s.len(),
{
    if s.last().0 != k {
        lemma_pairs_map_keys(s.drop_last(), k);
        let i = choose|i: int| 0 <= i < s.drop_last().len() && #[trigger] s.drop_last()[i].0 == k;
        assert(s[i] == s.drop_last()[i]);
    } else {
        assert(s[s.len() - 1].0 == k);
    }
}

/// The (key, value) texts of a list of string pairs.
pub open spec fn entry_pairs(v: Seq<(String, String)>) -> Seq<(Seq<char>, Seq<char>)> {
    v.map_values(|p: (String, String)| (p.0@, p.1@))
}

/// Adapter alias to adapter name.
pub struct AdapterTable {
    entries: Vec<(String, String)>,
}

impl AdapterTable {
    /// The (alias, name) pairs in the order they were added.
    pub closed spec fn pairs(&self) -> Seq<(Seq<char>, Seq<char>)> {
        entry_pairs(self.entries@)
    }

    /// No alias is listed twice.
    #[verifier::type_invariant]
    closed spec fn aliases_unique(self) -> bool {
        keys_unique(self.pairs())
    }

    /// The names, keyed by alias.
    pub closed spec fn view(&self) -> Map<Seq<char>, Seq<char>> {
        pairs_map(self.pairs())
    }

    /// An empty table.
    pub fn new() -> (r: AdapterTable)
        ensures
            r@ == Map::<Seq<char>, Seq<char>>::empty(),
    {
        let r = AdapterTable { entries: Vec::new() };
        proof {
            assert(r.pairs() =~= Seq::<(Seq<char>, Seq<char>)>::empty());
        }
        r
    }

    /// The name of the adapter with this alias, if the table has it.
    pub fn get(&self, alias: &str) -> (r: Option<String>)
        ensures
            match r {
                Some(n) => self@.contains_key(alias@) && n@ == self@[alias@],
                None => !self@.contains_key(alias@),
            },
    {
        proof {
            use_type_invariant(self);
        }
        let mut i: usize = 0;
        while i < self.entries.len()
            invariant
                keys_unique(self.pairs()),
                self.pairs().len() == self.entries.len(),
                i <= self.entries.len(),
                forall|k: int| 0 <= k < i ==> #[trigger] self.pairs()[k].0 != alias@,
            decreases self.entries.len() - i,
        {
            if same_text(self.entries[i].0.as_str(), alias) {
                proof {
                    assert(self.pairs()[i as int].0 == alias@);
                    lemma_pairs_map_has(self.pairs(), i as int);
                }
                return Some(self.entries[i].1.clone());
            }
            proof {
                assert(self.pairs()[i as int].0 != alias@);
            }
            i = i + 1;
        }
        proof {
            if self@.contains_key(alias@) {
                lemma_pairs_map_keys(self.pairs(), alias@);
            }
        }
        None
    }

    /// An alias under which the table lists an adapter of this name, if any.
    pub fn alias_of(&self, name: &str) -> (r: Option<String>)
        ensures
            match r {
                Some(a) => self@.contains_key(a@) && self@[a@] == name@,
                None => forall|a: Seq<char>| #[trigger] self@.contains_key(a) ==> self@[a] != name@,
            },
    {
        proof {
            use_type_invariant(self);
        }
        let mut i: usize = 0;
        while i < self.entries.len()
            invariant
                keys_unique(self.pairs()),
                self.pairs().len() == self.entries.len(),
                i <= self.entries.len(),
                forall|k: int| 0 <= k < i ==> #[trigger] self.pairs()[k].1 != name@,
            decreases self.entries.len() - i,
        {
            if same_text(self.entries[i].1.as_str(), name) {
                proof {
                    lemma_pairs_map_has(self.pairs(), i as int);
                }
                return Some(self.entries[i].0.clone());
            }
            proof {
                assert(self.pairs()[i as int].1 != name@);
            }
            i = i + 1;
        }
        proof {
            assert forall|a: Seq<char>| #[trigger] self@.contains_key(a) implies self@[a] != name@ by {
                lemma_pairs_map_keys(self.pairs(), a);
                let k = choose|k: int| 0 <= k < self.pairs().len() && #[trigger] self.pairs()[k].0 == a;
                lemma_pairs_map_has(self.pairs(), k);
            }
        }
        None
    }

    /// Records the adapter's name under its alias, replacing any earlier one.
    pub fn insert(&mut self, alias: String, name: String)
        ensures
            final(self)@ == old(self)@.insert(alias@, name@),
    {
        proof {
            use_type_invariant(&*self);
        }
        let ghost before = self.pairs();
        let mut entries: Vec<(String, String)> = Vec::new();
        std::mem::swap(&mut entries, &mut self.entries);
        let mut i: usize = 0;
        while i < entries.len()
            invariant
                entry_pairs(entries@) == before,
                before == old(self).pairs(),
                keys_unique(before),
                before.len() == entries.len(),
                i <= entries.len(),
                forall|k: int| 0 <= k < i ==> #[trigger] before[k].0 != alias@,
            decreases entries.len() - i,
        {
            if same_text(entries[i].0.as_str(), alias.as_str()) {
                let ghost after = before.update(i as int, (alias@, name@));
                entries.set(i, (alias, name));
                proof {
                    assert(entry_pairs(entries@) =~= after);
                    assert forall|a: int, b: int| 0 <= a < b < after.len() implies #[trigger] after[a].0
                        != #[trigger] after[b].0 by {
                        assert(after[a].0 == before[a].0);
                        assert(after[b].0 == before[b].0);
                    }
                    assert forall|k: Seq<char>| #![auto] pairs_map(after).contains_key(k)
                        <==> pairs_map(before).insert(alias@, name@).contains_key(k) by {
                        if pairs_map(after).contains_key(k) {
                            lemma_pairs_map_keys(after, k);
                            let j = choose|j: int| 0 <= j < after.len() && #[trigger] after[j].0 == k;
                            if j != i {
                                lemma_pairs_map_has(before, j);
                            }
                        }
                        if pairs_map(before).contains_key(k) {
                            lemma_pairs_map_keys(before, k);
                            let j = choose|j: int| 0 <= j < before.len() && #[trigger] before[j].0 == k;
                            lemma_pairs_map_has(after, j);
                        }
                        if k == alias@ {
                            lemma_pairs_map_has(after, i as int);
                        }
                    }
                    assert forall|k: Seq<char>| #![auto] pairs_map(after).contains_key(k) implies
                        pairs_map(after)[k] == pairs_map(before).insert(alias@, name@)[k] by {
                        lemma_pairs_map_keys(after, k);
                        let j = choose|j: int| 0 <= j < after.len() && #[trigger] after[j].0 == k;
                        lemma_pairs_map_has(after, j);
                        if j != i {
                            assert(after[j] == before[j]);
                            assert(after[i as int].0 == alias@);
                            lemma_pairs_map_has(before, j);
                        } else {
                            assert(k == alias@);
                        }
                    }
                    assert(pairs_map(after) =~= pairs_map(before).insert(alias@, name@));
                }
                self.entries = entries;
                proof {
                    assert(self.pairs() == after);
                    assert(self@ == pairs_map(after));
                    assert(old(self)@ == pairs_map(before));
                }
                return;
            }
            i = i + 1;
        }
        entries.push((alias, name));
        proof {
            let after = entry_pairs(entries@);
            assert(after.drop_last() =~= before);
            assert forall|a: int, b: int| 0 <= a < b < after.len() implies #[trigger] after[a].0
                != #[trigger] after[b].0 by {
                if b < before.len() {
                    assert(after[a] == before[a] && after[b] == before[b]);
                } else {
                    assert(after[a] == before[a]);
                }
            }
        }
        self.entries = entries;
    }
}

// ---------------------------------------------------------------------------
// The shared state
// ---------------------------------------------------------------------------

/// The lookup tables that the window and the Bluetooth tasks share. Each is
/// absent until the window's start-up fills it in.
pub struct BluetoothState {
    pub devices: Option<DeviceTable>,
    pub adapters: Option<AdapterTable>,
}

impl BluetoothState {
    /// Both tables absent.
    pub fn new() -> (r: BluetoothState)
        ensures
            r.devices is None,
            r.adapters is None,
    {
        BluetoothState { devices: None, adapters: None }
    }

    /// The device names, where an absent table counts as empty.
    pub open spec fn device_names(self) -> Map<u64, Seq<char>> {
        match self.devices {
            Some(t) => t@,
            None => Map::empty(),
        }
    }

    /// Start-up: the device table becomes present and empty.
    pub fn reset_devices(&mut self)
        ensures
            final(self).devices is Some,
            final(self).device_names() == Map::<u64, Seq<char>>::empty(),
            final(self).adapters == old(self).adapters,
    {
        self.devices = Some(DeviceTable::new());
    }

    /// Start-up: the adapter table becomes present, holding the given one.
    pub fn set_adapters(&mut self, table: AdapterTable)
        ensures
            final(self).adapters == Some(table),
            final(self).devices == old(self).devices,
    {
        self.adapters = Some(table);
    }

    /// Whether the device has a name recorded.
    pub fn knows_device(&self, address: BtAddress) -> (r: bool)
        ensures
            r == self.device_names().contains_key(address.value),
    {
        match &self.devices {
            Some(t) => t.contains(address),
            None => false,
        }
    }

    /// Records a device's name; the device table must be present.
    pub fn register_device(&mut self, address: BtAddress, name: String)
        requires
            old(self).devices is Some,
        ensures
            final(self).devices is Some,
            final(self).device_names() == old(self).device_names().insert(address.value, name@),
            final(self).adapters == old(self).adapters,
    {
        let mut table = self.devices.take().unwrap();
        table.insert(address, name);
        self.devices = Some(table);
    }

    /// Forgets a device, handing back the name it had (an absent table stays absent).
    pub fn forget_device(&mut self, address: BtAddress) -> (r: Option<String>)
        ensures
            final(self).devices is Some == old(self).devices is Some,
            final(self).device_names() == old(self).device_names().remove(address.value),
            final(self).adapters == old(self).adapters,
            match r {
                Some(n) => old(self).device_names().contains_key(address.value) && n@ == old(
                    self,
                ).device_names()[address.value],
                None => !old(self).device_names().contains_key(address.value),
            },
    {
        match self.devices.take() {
            Some(mut table) => {
                let r = table.remove(address);
                self.devices = Some(table);
                r
            },
            None => {
                proof {
                    assert(old(self).device_names().remove(address.value) =~= Map::<u64, Seq<char>>::empty());
                }
                None
            },
        }
    }

    /// The recorded name of a device, or `Unknown Device`; the device table
    /// must be present.
    pub fn device_name(&self, address: BtAddress) -> (r: String)
        requires
            self.devices is Some,
        ensures
            r@ == (if self.device_names().contains_key(address.value) {
                self.device_names()[address.value]
            } else {
                unknown_device_text()
            }),
    {
        match self.devices.as_ref().unwrap().get(address) {
            Some(n) => n,
            None => unknown_device(),
        }
    }

    /// The adapter names, keyed by alias, where an absent table counts as empty.
    pub open spec fn adapter_names(self) -> Map<Seq<char>, Seq<char>> {
        match self.adapters {
            Some(t) => t@,
            None => Map::empty(),
        }
    }

    /// The adapter name recorded under `key`, or `Unknown Adapter`; the
    /// adapter table must be present.
    pub fn adapter_name(&self, key: &str) -> (r: String)
        requires
            self.adapters is Some,
        ensures
            r@ == (if self.adapter_names().contains_key(key@) {
                self.adapter_names()[key@]
            } else {
                unknown_adapter_text()
            }),
    {
        match self.adapters.as_ref().unwrap().get(key) {
            Some(n) => n,
            None => unknown_adapter(),
        }
    }

    /// An alias under which the adapter of this name is recorded, if any; the
    /// adapter table must be present.
    pub fn adapter_alias(&self, name: &str) -> (r: Option<String>)
        requires
            self.adapters is Some,
        ensures
            match r {
                Some(a) => self.adapter_names().contains_key(a@) && self.adapter_names()[a@] == name@,
                None => forall|a: Seq<char>| #[trigger] self.adapter_names().contains_key(a)
                    ==> self.adapter_names()[a] != name@,
            },
    {
        self.adapters.as_ref().unwrap().alias_of(name)
    }
}

/// Device address to name mapping, shared between the window and the device tasks.
pub fn devices_lut(state: &BluetoothState) -> (r: &Option<DeviceTable>)
    ensures
        r == &state.devices,
{
    &state.devices
}

/// Adapter alias to name mapping, shared between the window and the adapter tasks.
pub fn adapters_lut(state: &BluetoothState) -> (r: &Option<AdapterTable>)
    ensures
        r == &state.adapters,
{
    &state.adapters
}

/// Forgetting a device undoes recording it: recording a name for a device
/// that had none and then forgetting that device gives back the names before.
pub proof fn law_forget_undoes_register(names: Map<u64, Seq<char>>, address: BtAddress, name: Seq<char>)
    requires
        !names.contains_key(address.value),
    ensures
        names.insert(address.value, name).remove(address.value) == names,
{
    assert(names.insert(address.value, name).remove(address.value) =~= names);
}

} // verus!
