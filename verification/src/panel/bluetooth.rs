//! Bluetooth: the adapter state the panel shows, how a BlueZ device's
//! properties become a device entry, and the order of the device list
//! (connected first, then paired, then by name).

use vstd::prelude::*;
use crate::text::{lemma_insert_to_multiset, lemma_lex_total, lemma_lex_trans, lex_le, str_eq, str_lex_le, views};
use crate::panel::network::SwitchRequest;

verus! {

/// Bluetooth device info.
#[derive(Debug, Clone)]
pub struct BluetoothDevice {
    /// Device name (human-readable)
    pub name: String,
    /// MAC address
    pub address: String,
    /// Whether device is paired
    pub paired: bool,
    /// Whether device is currently connected
    pub connected: bool,
    /// Whether device is trusted (auto-connect)
    pub trusted: bool,
    /// Device type icon name (audio-headphones, input-keyboard, etc.)
    pub icon: String,
    /// D-Bus object path
    pub path: String,
}

/// Bluetooth state.
#[derive(Debug, Clone)]
pub struct BluetoothState {
    pub powered: bool,
    pub available: bool,
    pub adapter_path: Option<String>,
    /// Discovered/known devices
    pub devices: Vec<BluetoothDevice>,
    /// Whether discovery is active
    pub discovering: bool,
}

impl Default for BluetoothState {
    fn default() -> (s: Self)
        ensures
            !s.powered,
            !s.available,
            s.adapter_path is None,
            s.devices@.len() == 0,
            !s.discovering,
    {
        BluetoothState {
            powered: false,
            available: false,
            adapter_path: None,
            devices: Vec::new(),
            discovering: false,
        }
    }
}

/// The device entry for a BlueZ device's properties: `None` without an
/// address; the name falls back to the alias and then to
/// "Unknown Device", the icon to "bluetooth", the flags to false.
pub fn parse_device(
    path: &str,
    name: Option<String>,
    alias: Option<String>,
    address: Option<String>,
    paired: Option<bool>,
    connected: Option<bool>,
    trusted: Option<bool>,
    icon: Option<String>,
) -> (r: Option<BluetoothDevice>)
    ensures
        address is None ==> r is None,
        address matches Some(a) ==> (r matches Some(d) && d.address == a && d.path@ == path@
            && d.name@ == (match name {
            Some(n) => n@,
            None => match alias {
                Some(al) => al@,
                None => "Unknown Device"@,
            },
        }) && d.paired == (paired == Some(true)) && d.connected == (connected == Some(true))
            && d.trusted == (trusted == Some(true)) && d.icon@ == (match icon {
            Some(i) => i@,
            None => "bluetooth"@,
        })),
{
    let address = match address {
        Some(a) => a,
        None => return None,
    };
    let name = match name {
        Some(n) => n,
        None => match alias {
            Some(a) => a,
            None => String::from_str("Unknown Device"),
        },
    };
    let icon = match icon {
        Some(i) => i,
        None => String::from_str("bluetooth"),
    };
    Some(
        BluetoothDevice {
            name,
            address,
            paired: match paired {
                Some(true) => true,
                _ => false,
            },
            connected: match connected {
                Some(true) => true,
                _ => false,
            },
            trusted: match trusted {
                Some(true) => true,
                _ => false,
            },
            icon,
            path: String::from_str(path),
        },
    )
}

/// `a` goes before (or ties with) `b`: connected first, then paired, then
/// by name.
pub open spec fn device_precedes(a: BluetoothDevice, b: BluetoothDevice) -> bool {
    ||| (a.connected && !b.connected)
    ||| (a.connected == b.connected && a.paired && !b.paired)
    ||| (a.connected == b.connected && a.paired == b.paired && lex_le(a.name@, b.name@))
}

/// The list is in panel order.
pub open spec fn devices_sorted(ds: Seq<BluetoothDevice>) -> bool {
    forall|i: int, j: int|
        0 <= i < j < ds.len() ==> device_precedes(#[trigger] ds[i], #[trigger] ds[j])
}

proof fn lemma_device_order(a: BluetoothDevice, b: BluetoothDevice, c: BluetoothDevice)
    ensures
        device_precedes(a, b) || device_precedes(b, a),
        device_precedes(a, b) && device_precedes(b, c) ==> device_precedes(a, c),
{
    lemma_lex_total(a.name@, b.name@);
    if device_precedes(a, b) && device_precedes(b, c) && lex_le(a.name@, b.name@) && lex_le(
        b.name@,
        c.name@,
    ) {
        lemma_lex_trans(a.name@, b.name@, c.name@);
    }
}

/// Whether `a` goes before or ties with `b`.
fn precedes(a: &BluetoothDevice, b: &BluetoothDevice) -> (r: bool)
    ensures
        r == device_precedes(*a, *b),
{
    if a.connected != b.connected {
        return a.connected;
    }
    if a.paired != b.paired {
        return a.paired;
    }
    str_lex_le(a.name.as_str(), b.name.as_str())
}

/// Inserts `d` into a sorted list, after every entry that goes before or
/// ties with it.
fn insert_sorted_device(out: &mut Vec<BluetoothDevice>, d: BluetoothDevice)
    requires
        devices_sorted(old(out)@),
    ensures
        devices_sorted(final(out)@),
        final(out)@.to_multiset() =~= old(out)@.to_multiset().insert(d),
{
    let n = out.len();
    let mut p: usize = 0;
    while p < n && precedes(&out[p], &d)
        invariant
            n == out@.len(),
            p <= n,
            forall|k: int| 0 <= k < p ==> device_precedes(#[trigger] out@[k], d),
        decreases n - p,
    {
        p = p + 1;
    }
    let ghost before = out@;
    proof {
        lemma_insert_to_multiset(before, p as int, d);
    }
    out.insert(p, d);
    proof {
        assert forall|i: int, j: int|
            0 <= i < j < out@.len() implies device_precedes(#[trigger] out@[i], #[trigger] out@[j]) by {
            if j < p {
                assert(device_precedes(before[i], before[j]));
            } else if j == p {
                assert(out@[i] == before[i]);
            } else if i == p {
                assert(out@[j] == before[j - 1]);
                lemma_device_order(before[p as int], d, before[j - 1]);
                lemma_device_order(d, before[p as int], before[j - 1]);
                if p as int != j - 1 {
                    assert(device_precedes(before[p as int], before[j - 1]));
                }
            } else if i < p {
                assert(device_precedes(before[i], before[j - 1]));
            } else {
                assert(device_precedes(before[i - 1], before[j - 1]));
            }
        }
    }
}

/// The devices in panel order: connected first, then paired, then by
/// name.
pub fn sort_devices(devices: Vec<BluetoothDevice>) -> (r: Vec<BluetoothDevice>)
    ensures
        devices_sorted(r@),
        r@.to_multiset() =~= devices@.to_multiset(),
{
    let ghost given = devices@;
    let mut rest = devices;
    let mut out: Vec<BluetoothDevice> = Vec::new();
    let ghost mut i: int = 0;
    proof {
        broadcast use vstd::seq_lib::group_to_multiset_ensures;
        broadcast use vstd::multiset::group_multiset_axioms;
        assert(given.take(0) =~= Seq::<BluetoothDevice>::empty());
        assert(out@ =~= Seq::<BluetoothDevice>::empty());
    }
    while rest.len() > 0
        invariant
            0 <= i <= given.len(),
            rest@ == given.skip(i),
            devices_sorted(out@),
            out@.to_multiset() =~= given.take(i).to_multiset(),
        decreases rest@.len(),
    {
        let d = rest.remove(0);
        proof {
            assert(d == given[i]);
            assert(given.take(i + 1) =~= given.take(i).push(d));
            broadcast use vstd::seq_lib::group_to_multiset_ensures;
            assert(rest@ =~= given.skip(i + 1));
        }
        insert_sorted_device(&mut out, d);
        proof {
            i = i + 1;
        }
    }
    proof {
        assert(given.skip(i).len() == 0);
        assert(given.take(i) =~= given);
    }
    out
}

impl BluetoothState {
    /// The value to write to the adapter's `Powered` for a request;
    /// `None` without an adapter or when Bluetooth is not available.
    pub fn power_target(&self, request: SwitchRequest) -> (r: Option<bool>)
        ensures
            (self.adapter_path is None || !self.available) ==> r is None,
            (self.adapter_path is Some && self.available) ==> r == Some(
                match request {
                    SwitchRequest::Toggle => !self.powered,
                    SwitchRequest::On => true,
                    SwitchRequest::Off => false,
                },
            ),
    {
        if self.adapter_path.is_none() || !self.available {
            return None;
        }
        match request {
            SwitchRequest::Toggle => Some(!self.powered),
            SwitchRequest::On => Some(true),
            SwitchRequest::Off => Some(false),
        }
    }

    /// Records the adapter's power once the write succeeded.
    pub fn record_powered(&mut self, powered: bool)
        ensures
            final(self).powered == powered,
            final(self).available == old(self).available,
            final(self).adapter_path == old(self).adapter_path,
            final(self).devices == old(self).devices,
            final(self).discovering == old(self).discovering,
    {
        self.powered = powered;
    }

    /// Whether a device scan is worth doing: Bluetooth available and
    /// powered. When it is not, the list is emptied.
    pub fn prepare_scan(&mut self) -> (go: bool)
        ensures
            go == (old(self).available && old(self).powered),
            go ==> final(self).devices == old(self).devices,
            !go ==> final(self).devices@.len() == 0,
            final(self).powered == old(self).powered,
            final(self).available == old(self).available,
            final(self).adapter_path == old(self).adapter_path,
            final(self).discovering == old(self).discovering,
    {
        if !self.available || !self.powered {
            self.devices.clear();
            return false;
        }
        true
    }

    /// Takes in the scanned devices, in panel order.
    pub fn apply_scan(&mut self, devices: Vec<BluetoothDevice>)
        ensures
            devices_sorted(final(self).devices@),
            final(self).devices@.to_multiset() =~= devices@.to_multiset(),
            final(self).powered == old(self).powered,
            final(self).available == old(self).available,
            final(self).adapter_path == old(self).adapter_path,
            final(self).discovering == old(self).discovering,
    {
        self.devices = sort_devices(devices);
    }

    /// Whether discovery may start: an adapter, available and powered.
    pub fn discovery_may_start(&self) -> (b: bool)
        ensures
            b == (self.adapter_path is Some && self.available && self.powered),
    {
        self.adapter_path.is_some() && self.available && self.powered
    }

    /// Whether there is a discovery to stop: an adapter and discovery on.
    pub fn discovery_to_stop(&self) -> (b: bool)
        ensures
            b == (self.adapter_path is Some && self.discovering),
    {
        self.adapter_path.is_some() && self.discovering
    }

    /// Records whether discovery is on.
    pub fn record_discovering(&mut self, discovering: bool)
        ensures
            final(self).discovering == discovering,
            final(self).powered == old(self).powered,
            final(self).available == old(self).available,
            final(self).adapter_path == old(self).adapter_path,
            final(self).devices == old(self).devices,
    {
        self.discovering = discovering;
    }
}

/// The adapter path tried when BlueZ lists no adapter.
pub fn default_adapter_path() -> (p: &'static str)
    ensures
        p@ == "/org/bluez/hci0"@,
{
    "/org/bluez/hci0"
}

/// BlueZ's adapter interface.
pub open spec fn adapter_interface() -> Seq<char> {
    "org.bluez.Adapter1"@
}

/// The first object, among those BlueZ manages (path and interfaces),
/// that is an adapter.
pub open spec fn first_adapter(objects: Seq<(String, Vec<String>)>, i: int) -> Option<int>
    decreases objects.len() - i,
{
    if i < 0 || i >= objects.len() {
        None
    } else if views(objects[i].1@).contains(adapter_interface()) {
        Some(i)
    } else {
        first_adapter(objects, i + 1)
    }
}

proof fn lemma_first_adapter(objects: Seq<(String, Vec<String>)>, i: int)
    requires
        0 <= i,
    ensures
        first_adapter(objects, i) matches Some(j) ==> i <= j < objects.len(),
    decreases objects.len() - i,
{
    if i < objects.len() && !views(objects[i].1@).contains(adapter_interface()) {
        lemma_first_adapter(objects, i + 1);
    }
}

/// The path of the first adapter among BlueZ's managed objects.
pub fn find_adapter_path(objects: &Vec<(String, Vec<String>)>) -> (r: Option<String>)
    ensures
        match first_adapter(objects@, 0) {
            Some(i) => r matches Some(p) && p@ == objects@[i].0@,
            None => r is None,
        },
{
    proof {
        lemma_first_adapter(objects@, 0);
    }
    let mut i: usize = 0;
    while i < objects.len()
        invariant
            i <= objects@.len(),
            first_adapter(objects@, i as int) == first_adapter(objects@, 0),
        decreases objects@.len() - i,
    {
        let ifaces = &objects[i].1;
        let mut found = false;
        let mut j: usize = 0;
        while j < ifaces.len()
            invariant
                j <= ifaces@.len(),
                found == exists|k: int| 0 <= k < j && #[trigger] ifaces@[k]@ == adapter_interface(),
            decreases ifaces@.len() - j,
        {
            if str_eq(ifaces[j].as_str(), "org.bluez.Adapter1") {
                found = true;
            }
            j = j + 1;
        }
        proof {
            if found {
                let k = choose|k: int| 0 <= k < ifaces@.len() && #[trigger] ifaces@[k]@ == adapter_interface();
                assert(views(ifaces@)[k] == adapter_interface());
            } else {
                assert forall|k: int| 0 <= k < views(ifaces@).len() implies views(ifaces@)[k] != adapter_interface() by {
                    assert(ifaces@[k]@ == views(ifaces@)[k]);
                }
            }
        }
        if found {
            return Some(objects[i].0.clone());
        }
        i = i + 1;
    }
    None
}

} // verus!
