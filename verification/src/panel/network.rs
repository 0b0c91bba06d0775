//! WiFi: the network state that the panel shows, and how the scan results
//! from NetworkManager become the list of access points: hidden networks
//! dropped, one entry per SSID with its strongest signal, the connected
//! network marked and first, the rest by signal strength.

use vstd::prelude::*;
use crate::text::{decode_lossy, lemma_insert_to_multiset, utf8_lossy};

verus! {

/// WiFi access point info.
#[derive(Debug, Clone)]
pub struct AccessPoint {
    /// SSID (network name)
    pub ssid: String,
    /// Signal strength (0-100)
    pub strength: u8,
    /// Whether currently connected
    pub connected: bool,
    /// Security type ("WPA2", "WPA" or "Open")
    pub security: String,
    /// D-Bus object path for this AP
    pub path: String,
}

/// Network state.
#[derive(Debug, Clone)]
pub struct NetworkState {
    pub wifi_enabled: bool,
    pub wifi_available: bool,
    /// Currently connected network SSID
    pub connected_ssid: Option<String>,
    /// Available access points
    pub access_points: Vec<AccessPoint>,
}

impl Default for NetworkState {
    fn default() -> (s: Self)
        ensures
            !s.wifi_enabled,
            !s.wifi_available,
            s.connected_ssid is None,
            s.access_points@.len() == 0,
    {
        NetworkState {
            wifi_enabled: false,
            wifi_available: false,
            connected_ssid: None,
            access_points: Vec::new(),
        }
    }
}

// ---------------------------------------------------------------------
// Security
// ---------------------------------------------------------------------

/// The security label for an access point's RSN (WPA2) and WPA flags.
pub open spec fn security_label_spec(wpa_flags: u32, rsn_flags: u32) -> Seq<char> {
    if rsn_flags > 0 {
        "WPA2"@
    } else if wpa_flags > 0 {
        "WPA"@
    } else {
        "Open"@
    }
}

/// "WPA2" when any RSN flag is set, otherwise "WPA" when any WPA flag is
/// set, otherwise "Open". Missing flags count as zero.
pub fn security_label(wpa_flags: Option<u32>, rsn_flags: Option<u32>) -> (s: String)
    ensures
        s@ == security_label_spec(
            match wpa_flags {
                Some(f) => f,
                None => 0,
            },
            match rsn_flags {
                Some(f) => f,
                None => 0,
            },
        ),
{
    let wpa = match wpa_flags {
        Some(f) => f,
        None => 0,
    };
    let rsn = match rsn_flags {
        Some(f) => f,
        None => 0,
    };
    if rsn > 0 {
        String::from_str("WPA2")
    } else if wpa > 0 {
        String::from_str("WPA")
    } else {
        String::from_str("Open")
    }
}

// ---------------------------------------------------------------------
// SSID bytes
// ---------------------------------------------------------------------

/// The bytes of an SSID from the numbers of its D-Bus array, each taken
/// modulo 256.
pub open spec fn ssid_bytes(numbers: Seq<u64>) -> Seq<u8> {
    numbers.map_values(|n: u64| (n % 256) as u8)
}

/// The SSID for the numbers read from an access point's `Ssid` property:
/// `None` when there are none, otherwise the bytes decoded leniently.
pub fn ssid_from_numbers(numbers: &Vec<u64>) -> (r: Option<String>)
    ensures
        numbers@.len() == 0 ==> r is None,
        numbers@.len() > 0 ==> (r matches Some(s) && s@ == utf8_lossy(ssid_bytes(numbers@))),
{
    if numbers.len() == 0 {
        return None;
    }
    let mut bytes: Vec<u8> = Vec::new();
    let mut i: usize = 0;
    while i < numbers.len()
        invariant
            i <= numbers@.len(),
            bytes@ == ssid_bytes(numbers@.take(i as int)),
        decreases numbers@.len() - i,
    {
        bytes.push((numbers[i] % 256) as u8);
        i = i + 1;
        assert(bytes@ =~= ssid_bytes(numbers@.take(i as int)));
    }
    assert(numbers@.take(i as int) =~= numbers@);
    Some(decode_lossy(bytes.as_slice()))
}

// ---------------------------------------------------------------------
// Deduplication
// ---------------------------------------------------------------------

/// Index of the entry of `aps` with SSID `ssid`, if any.
pub open spec fn find_ssid(aps: Seq<AccessPoint>, ssid: Seq<char>) -> Option<int> {
    if exists|j: int| 0 <= j < aps.len() && (#[trigger] aps[j]).ssid@ == ssid {
        Some(choose|j: int| 0 <= j < aps.len() && (#[trigger] aps[j]).ssid@ == ssid)
    } else {
        None
    }
}

/// Adds one scanned access point to the deduplicated list: a new SSID is
/// appended; a known one is replaced only by a strictly stronger signal.
pub open spec fn dedup_step(out: Seq<AccessPoint>, ap: AccessPoint) -> Seq<AccessPoint> {
    match find_ssid(out, ap.ssid@) {
        Some(j) => if ap.strength > out[j].strength {
            out.update(j, ap)
        } else {
            out
        },
        None => out.push(ap),
    }
}

/// The deduplicated list of `aps`, taken in order.
pub open spec fn dedup_spec(aps: Seq<AccessPoint>) -> Seq<AccessPoint>
    decreases aps.len(),
{
    if aps.len() == 0 {
        Seq::empty()
    } else {
        dedup_step(dedup_spec(aps.drop_last()), aps.last())
    }
}

/// The access points with a non-empty SSID.
pub open spec fn visible_aps(aps: Seq<AccessPoint>) -> Seq<AccessPoint> {
    aps.filter(|a: AccessPoint| a.ssid@.len() > 0)
}

/// No two entries share an SSID.
pub open spec fn unique_ssids(aps: Seq<AccessPoint>) -> bool {
    forall|i: int, j: int|
        0 <= i < aps.len() && 0 <= j < aps.len() && i != j ==> (#[trigger] aps[i]).ssid@
            != (#[trigger] aps[j]).ssid@
}

/// Position of the entry with SSID `ssid`.
fn position_of_ssid(out: &Vec<AccessPoint>, ssid: &String) -> (r: Option<usize>)
    requires
        unique_ssids(out@),
    ensures
        match r {
            Some(j) => find_ssid(out@, ssid@) == Some(j as int),
            None => find_ssid(out@, ssid@) is None,
        },
{
    let n = out.len();
    let mut i: usize = 0;
    while i < n
        invariant
            n == out@.len(),
            i <= n,
            unique_ssids(out@),
            forall|j: int| 0 <= j < i ==> (#[trigger] out@[j]).ssid@ != ssid@,
        decreases n - i,
    {
        if out[i].ssid == *ssid {
            proof {
                let c = choose|j: int| 0 <= j < out@.len() && (#[trigger] out@[j]).ssid@ == ssid@;
                assert(out@[i as int].ssid@ == ssid@);
                if c != i {
                    assert(out@[c].ssid@ != out@[i as int].ssid@);
                }
            }
            return Some(i);
        }
        i = i + 1;
    }
    None
}

proof fn lemma_dedup_step_unique(out: Seq<AccessPoint>, ap: AccessPoint)
    requires
        unique_ssids(out),
    ensures
        unique_ssids(dedup_step(out, ap)),
{
    let r = dedup_step(out, ap);
    match find_ssid(out, ap.ssid@) {
        Some(j) => {
            assert(out[j].ssid@ == ap.ssid@);
            assert forall|a: int, b: int|
                0 <= a < r.len() && 0 <= b < r.len() && a != b implies (#[trigger] r[a]).ssid@
                != (#[trigger] r[b]).ssid@ by {
                assert(out[a].ssid@ != out[b].ssid@);
            }
        },
        None => {
            assert forall|a: int, b: int|
                0 <= a < r.len() && 0 <= b < r.len() && a != b implies (#[trigger] r[a]).ssid@
                != (#[trigger] r[b]).ssid@ by {
                if a < out.len() && b < out.len() {
                    assert(out[a].ssid@ != out[b].ssid@);
                } else if a == out.len() {
                    assert(r[b] == out[b]);
                } else {
                    assert(r[a] == out[a]);
                }
            }
        },
    }
}

proof fn lemma_dedup_unique(aps: Seq<AccessPoint>)
    ensures
        unique_ssids(dedup_spec(aps)),
    decreases aps.len(),
{
    if aps.len() > 0 {
        lemma_dedup_unique(aps.drop_last());
        lemma_dedup_step_unique(dedup_spec(aps.drop_last()), aps.last());
    }
}

/// The scanned access points as the panel lists them: hidden networks
/// (empty SSID) left out, then one entry per SSID, the first one seen with
/// the strongest signal, in the order the SSIDs first appear.
pub fn collect_access_points(aps: Vec<AccessPoint>) -> (r: Vec<AccessPoint>)
    ensures
        r@ == dedup_spec(visible_aps(aps@)),
{
    let ghost given = aps@;
    let mut rest = aps;
    let mut out: Vec<AccessPoint> = Vec::new();
    let ghost mut i: int = 0;
    while rest.len() > 0
        invariant
            0 <= i <= given.len(),
            rest@ == given.skip(i),
            out@ == dedup_spec(visible_aps(given.take(i))),
            unique_ssids(out@),
        decreases rest@.len(),
    {
        let ap = rest.remove(0);
        proof {
            assert(ap == given[i]);
            assert(given.take(i + 1).drop_last() =~= given.take(i));
            assert(given.take(i + 1).last() == ap);
            reveal_with_fuel(Seq::filter, 1);
            assert(rest@ =~= given.skip(i + 1));
        }
        if !ap.ssid.as_str().is_empty() {
            proof {
                assert(visible_aps(given.take(i + 1)) =~= visible_aps(given.take(i)).push(ap));
                assert(visible_aps(given.take(i + 1)).drop_last() =~= visible_aps(given.take(i)));
                lemma_dedup_step_unique(out@, ap);
            }
            match position_of_ssid(&out, &ap.ssid) {
                Some(j) => {
                    if ap.strength > out[j].strength {
                        out.set(j, ap);
                    }
                },
                None => {
                    out.push(ap);
                },
            }
        } else {
            proof {
                assert(visible_aps(given.take(i + 1)) =~= visible_aps(given.take(i)));
            }
        }
        proof {
            i = i + 1;
        }
    }
    proof {
        assert(given.skip(i).len() == 0);
        assert(given.take(i) =~= given);
    }
    out
}

// ---------------------------------------------------------------------
// Connected network and order
// ---------------------------------------------------------------------

/// `a` goes before (or ties with) `b`: connected networks first, then by
/// signal strength, strongest first.
pub open spec fn ap_precedes(a: AccessPoint, b: AccessPoint) -> bool {
    (a.connected && !b.connected) || (a.connected == b.connected && a.strength >= b.strength)
}

/// The list is in panel order.
pub open spec fn aps_sorted(aps: Seq<AccessPoint>) -> bool {
    forall|i: int, j: int|
        0 <= i < j < aps.len() ==> ap_precedes(#[trigger] aps[i], #[trigger] aps[j])
}

/// `ap` with its connected mark set.
pub open spec fn with_connected(ap: AccessPoint, connected: bool) -> AccessPoint {
    AccessPoint { connected, ..ap }
}

/// Whether `ap` is the connected network.
pub open spec fn is_connected_to(ap: AccessPoint, connected_ssid: Option<String>) -> bool {
    match connected_ssid {
        Some(s) => ap.ssid@ == s@,
        None => false,
    }
}

/// Inserts `ap` into a sorted list, after every entry that goes before or
/// ties with it.
fn insert_sorted_ap(out: &mut Vec<AccessPoint>, ap: AccessPoint)
    requires
        aps_sorted(old(out)@),
    ensures
        aps_sorted(final(out)@),
        final(out)@.to_multiset() =~= old(out)@.to_multiset().insert(ap),
        final(out)@.len() == old(out)@.len() + 1,
{
    let n = out.len();
    let mut p: usize = 0;
    while p < n && (out[p].connected && !ap.connected || out[p].connected == ap.connected
        && out[p].strength >= ap.strength)
        invariant
            n == out@.len(),
            p <= n,
            forall|k: int| 0 <= k < p ==> ap_precedes(#[trigger] out@[k], ap),
        decreases n - p,
    {
        p = p + 1;
    }
    let ghost before = out@;
    proof {
        lemma_insert_to_multiset(before, p as int, ap);
    }
    out.insert(p, ap);
    proof {
        assert forall|i: int, j: int|
            0 <= i < j < out@.len() implies ap_precedes(#[trigger] out@[i], #[trigger] out@[j]) by {
            if j < p {
                assert(ap_precedes(before[i], before[j]));
            } else if j == p {
                assert(out@[i] == before[i]);
            } else if i == p {
                assert(out@[j] == before[j - 1]);
                assert(!ap_precedes(before[p as int], ap));
                assert(ap_precedes(before[p as int], before[j - 1]) || p as int == j - 1);
            } else if i < p {
                assert(ap_precedes(before[i], before[j - 1]));
            } else {
                assert(ap_precedes(before[i - 1], before[j - 1]));
            }
        }
    }
}

/// Marks the connected network and puts the list in panel order: the
/// connected network first, then by signal strength, strongest first.
pub fn mark_and_sort_access_points(aps: Vec<AccessPoint>, connected_ssid: &Option<String>) -> (r: Vec<AccessPoint>)
    ensures
        aps_sorted(r@),
        r@.to_multiset() =~= aps@.map_values(
            |a: AccessPoint| with_connected(a, is_connected_to(a, *connected_ssid)),
        ).to_multiset(),
{
    let ghost given = aps@;
    let ghost marked = aps@.map_values(
        |a: AccessPoint| with_connected(a, is_connected_to(a, *connected_ssid)),
    );
    let mut rest = aps;
    let mut out: Vec<AccessPoint> = Vec::new();
    let ghost mut i: int = 0;
    proof {
        broadcast use vstd::seq_lib::group_to_multiset_ensures;
        broadcast use vstd::multiset::group_multiset_axioms;
        assert(marked.take(0) =~= Seq::<AccessPoint>::empty());
        assert(out@ =~= Seq::<AccessPoint>::empty());
    }
    while rest.len() > 0
        invariant
            0 <= i <= given.len(),
            marked == given.map_values(
                |a: AccessPoint| with_connected(a, is_connected_to(a, *connected_ssid)),
            ),
            rest@ == given.skip(i),
            aps_sorted(out@),
            out@.to_multiset() =~= marked.take(i).to_multiset(),
        decreases rest@.len(),
    {
        let mut ap = rest.remove(0);
        let connected = match connected_ssid {
            Some(s) => ap.ssid == *s,
            None => false,
        };
        ap.connected = connected;
        proof {
            assert(ap == marked[i]);
            assert(marked.take(i + 1) =~= marked.take(i).push(ap));
            broadcast use vstd::seq_lib::group_to_multiset_ensures;
            assert(rest@ =~= given.skip(i + 1));
        }
        insert_sorted_ap(&mut out, ap);
        proof {
            i = i + 1;
        }
    }
    proof {
        assert(given.skip(i).len() == 0);
        assert(marked.take(i) =~= marked);
    }
    out
}

// ---------------------------------------------------------------------
// WiFi switch and scanning
// ---------------------------------------------------------------------

/// A change of the WiFi switch.
#[derive(Debug, Clone, Copy, PartialEq, Eq, Structural)]
pub enum SwitchRequest {
    Toggle,
    On,
    Off,
}

impl NetworkState {
    /// The value to write to NetworkManager's `WirelessEnabled` for a
    /// request; `None` when WiFi is not available.
    pub fn wifi_target(&self, request: SwitchRequest) -> (r: Option<bool>)
        ensures
            !self.wifi_available ==> r is None,
            self.wifi_available ==> r == Some(
                match request {
                    SwitchRequest::Toggle => !self.wifi_enabled,
                    SwitchRequest::On => true,
                    SwitchRequest::Off => false,
                },
            ),
    {
        if !self.wifi_available {
            return None;
        }
        match request {
            SwitchRequest::Toggle => Some(!self.wifi_enabled),
            SwitchRequest::On => Some(true),
            SwitchRequest::Off => Some(false),
        }
    }

    /// Records the switch once the write succeeded.
    pub fn record_wifi_enabled(&mut self, enabled: bool)
        ensures
            final(self).wifi_enabled == enabled,
            final(self).wifi_available == old(self).wifi_available,
            final(self).connected_ssid == old(self).connected_ssid,
            final(self).access_points == old(self).access_points,
    {
        self.wifi_enabled = enabled;
    }

    /// Whether a scan is worth doing: WiFi available and enabled. When it
    /// is not, the list is emptied.
    pub fn prepare_scan(&mut self) -> (go: bool)
        ensures
            go == (old(self).wifi_available && old(self).wifi_enabled),
            go ==> final(self).access_points == old(self).access_points,
            !go ==> final(self).access_points@.len() == 0,
            final(self).wifi_enabled == old(self).wifi_enabled,
            final(self).wifi_available == old(self).wifi_available,
            final(self).connected_ssid == old(self).connected_ssid,
    {
        if !self.wifi_available || !self.wifi_enabled {
            self.access_points.clear();
            return false;
        }
        true
    }

    /// Takes in a scan: the connected SSID and the collected access
    /// points, marked and put in panel order.
    pub fn apply_scan(&mut self, aps: Vec<AccessPoint>, connected_ssid: Option<String>)
        ensures
            final(self).connected_ssid == connected_ssid,
            aps_sorted(final(self).access_points@),
            final(self).access_points@.to_multiset() =~= aps@.map_values(
                |a: AccessPoint| with_connected(a, is_connected_to(a, connected_ssid)),
            ).to_multiset(),
            final(self).wifi_enabled == old(self).wifi_enabled,
            final(self).wifi_available == old(self).wifi_available,
    {
        let sorted = mark_and_sort_access_points(aps, &connected_ssid);
        self.connected_ssid = connected_ssid;
        self.access_points = sorted;
    }
}

// ---------------------------------------------------------------------
// Laws
// ---------------------------------------------------------------------

/// Every entry of the deduplicated list comes from the scan.
proof fn lemma_dedup_from_input(aps: Seq<AccessPoint>)
    ensures
        forall|i: int| 0 <= i < dedup_spec(aps).len() ==> aps.contains(#[trigger] dedup_spec(aps)[i]),
    decreases aps.len(),
{
    if aps.len() > 0 {
        lemma_dedup_from_input(aps.drop_last());
        let prev = dedup_spec(aps.drop_last());
        let r = dedup_spec(aps);
        assert forall|i: int| 0 <= i < r.len() implies aps.contains(#[trigger] r[i]) by {
            if r[i] == aps.last() {
                assert(aps[aps.len() - 1] == aps.last());
            } else {
                assert(r[i] == prev[i]);
                assert(aps.drop_last().contains(prev[i]));
                let k = choose|k: int| 0 <= k < aps.drop_last().len() && aps.drop_last()[k] == prev[i];
                assert(aps[k] == prev[i]);
            }
        }
    }
}

/// Every SSID of the scan is listed, with an entry whose strength is the
/// strongest seen for that SSID.
proof fn lemma_dedup_strongest(aps: Seq<AccessPoint>)
    ensures
        forall|k: int|
            0 <= k < aps.len() ==> ((#[trigger] find_ssid(dedup_spec(aps), aps[k].ssid@)) matches Some(j)
                && 0 <= j < dedup_spec(aps).len() && dedup_spec(aps)[j].ssid@ == aps[k].ssid@
                && dedup_spec(aps)[j].strength >= aps[k].strength),
    decreases aps.len(),
{
    if aps.len() > 0 {
        let prefix = aps.drop_last();
        let ap = aps.last();
        lemma_dedup_strongest(prefix);
        lemma_dedup_unique(prefix);
        lemma_dedup_unique(aps);
        let prev = dedup_spec(prefix);
        let r = dedup_spec(aps);
        assert forall|k: int| 0 <= k < aps.len() implies ((#[trigger] find_ssid(r, aps[k].ssid@)) matches Some(j)
            && 0 <= j < r.len() && r[j].ssid@ == aps[k].ssid@ && r[j].strength >= aps[k].strength) by {
            let s = aps[k].ssid@;
            // the entry of r carrying s
            let target: int = if k < aps.len() - 1 {
                let jp = find_ssid(prev, prefix[k].ssid@)->0;
                assert(prefix[k] == aps[k]);
                match find_ssid(prev, ap.ssid@) {
                    Some(jj) => jp,
                    None => jp,
                }
            } else {
                match find_ssid(prev, ap.ssid@) {
                    Some(jj) => jj,
                    None => prev.len() as int,
                }
            };
            assert(0 <= target < r.len() && r[target].ssid@ == s && r[target].strength >= aps[k].strength) by {
                if k < aps.len() - 1 {
                    assert(prefix[k] == aps[k]);
                    let jp = find_ssid(prev, prefix[k].ssid@)->0;
                    match find_ssid(prev, ap.ssid@) {
                        Some(jj) => {
                            if jj == jp && ap.strength > prev[jj].strength {
                                assert(r[jp] == ap);
                            } else if ap.strength > prev[jj].strength {
                                assert(r[jp] == prev[jp]);
                            } else {
                                assert(r == prev);
                            }
                        },
                        None => {
                            assert(r[jp] == prev[jp]);
                        },
                    }
                } else {
                    assert(aps[k] == ap);
                    match find_ssid(prev, ap.ssid@) {
                        Some(jj) => {
                            assert(prev[jj].ssid@ == ap.ssid@);
                        },
                        None => {},
                    }
                }
            }
            assert(find_ssid(r, s) == Some(target)) by {
                let c = choose|j: int| 0 <= j < r.len() && (#[trigger] r[j]).ssid@ == s;
                if c != target {
                    assert(r[c].ssid@ != r[target].ssid@);
                }
            }
        }
    }
}

/// Scan results as listed: no SSID appears twice, no hidden network
/// appears, every entry is one of the scanned access points, and every
/// visible SSID of the scan is listed with the strongest signal seen for
/// it.
pub proof fn law_access_points_deduplicated(aps: Seq<AccessPoint>)
    ensures
        ({
            let r = dedup_spec(visible_aps(aps));
            &&& unique_ssids(r)
            &&& forall|i: int| 0 <= i < r.len() ==> aps.contains(#[trigger] r[i]) && r[i].ssid@.len() > 0
            &&& forall|k: int|
                0 <= k < aps.len() && (#[trigger] aps[k]).ssid@.len() > 0 ==> exists|j: int|
                    0 <= j < r.len() && r[j].ssid@ == aps[k].ssid@ && r[j].strength
                        >= aps[k].strength
        }),
{
    let v = visible_aps(aps);
    let r = dedup_spec(v);
    lemma_dedup_unique(v);
    lemma_dedup_from_input(v);
    lemma_dedup_strongest(v);
    assert forall|i: int| 0 <= i < r.len() implies aps.contains(#[trigger] r[i]) && r[i].ssid@.len() > 0 by {
        broadcast use vstd::seq_lib::group_filter_ensures;
        assert(v.contains(r[i]));
        let k = choose|k: int| 0 <= k < v.len() && v[k] == r[i];
        assert(v[k].ssid@.len() > 0);
        aps.lemma_filter_contains_rev(|a: AccessPoint| a.ssid@.len() > 0, r[i]);
    }
    assert forall|k: int| 0 <= k < aps.len() && (#[trigger] aps[k]).ssid@.len() > 0 implies exists|j: int|
        0 <= j < r.len() && r[j].ssid@ == aps[k].ssid@ && r[j].strength >= aps[k].strength by {
        aps.lemma_filter_contains(|a: AccessPoint| a.ssid@.len() > 0, k);
        let m = choose|m: int| 0 <= m < v.len() && v[m] == aps[k];
        assert(find_ssid(r, v[m].ssid@) is Some);
        let j = find_ssid(r, v[m].ssid@)->0;
        assert(0 <= j < r.len() && r[j].ssid@ == aps[k].ssid@ && r[j].strength >= aps[k].strength);
    }
}

/// NetworkManager's device type of a WiFi device.
pub const DEVICE_TYPE_WIFI: u32 = 2;

/// Whether a NetworkManager device type is WiFi.
pub fn is_wifi_device(device_type: u32) -> (b: bool)
    ensures
        b == (device_type == DEVICE_TYPE_WIFI),
{
    device_type == DEVICE_TYPE_WIFI
}

/// The security label follows the strongest protection offered: any RSN
/// flag makes it "WPA2", whatever the WPA flags say; "WPA" needs WPA
/// flags and no RSN flag; "Open" means neither. The three labels differ,
/// so the label tells the three cases apart.
pub proof fn law_security_label(wpa: u32, rsn: u32, other_wpa: u32)
    ensures
        rsn > 0 ==> security_label_spec(wpa, rsn) == "WPA2"@,
        rsn > 0 ==> security_label_spec(wpa, rsn) == security_label_spec(other_wpa, rsn),
        rsn == 0 && wpa > 0 ==> security_label_spec(wpa, rsn) == "WPA"@,
        rsn == 0 && wpa == 0 ==> security_label_spec(wpa, rsn) == "Open"@,
        "WPA2"@ != "WPA"@ && "WPA2"@ != "Open"@ && "WPA"@ != "Open"@,
{
    reveal_strlit("WPA2");
    reveal_strlit("WPA");
    reveal_strlit("Open");
    assert("WPA2"@.len() != "WPA"@.len());
    assert("WPA"@.len() != "Open"@.len());
    assert("WPA2"@[0] != "Open"@[0]);
}

} // verus!
