use vstd::prelude::*;
use crate::sorting::{SortKey, stable_sort, stable_sorted};

verus! {

/// The mode of a wireless device.
#[derive(Clone, Copy, Debug, PartialEq, Eq, Structural)]
pub enum WifiMode {
    Station,
    Ap,
}

/// A moment as RFC 3339 gives it: whole seconds since the Unix epoch, the nanoseconds past
/// that second, and the offset from UTC in seconds.
pub type Instant = (i64, u32, i32);

/// What chrono's RFC 3339 parser makes of `text`: the instant it names, or nothing when the
/// text is not an RFC 3339 date and time.
pub uninterp spec fn rfc3339_instant(text: Seq<char>) -> Option<Instant>;

/// chrono's `DateTime::parse_from_rfc3339`, taken apart into plain values: the result is
/// named `rfc3339_instant`, which depends on the text alone.  Which texts parse, and to what,
/// is chrono's grammar, which no clause here repeats.
#[verifier::external_body]
fn parse_rfc3339(text: &str) -> (r: Option<Instant>)
    ensures
        r == rfc3339_instant(text@),
{
    match chrono::DateTime::parse_from_rfc3339(text) {
        Ok(d) => Some((d.timestamp(), d.timestamp_subsec_nanos(), d.offset().local_minus_utc())),
        Err(_) => None,
    }
}

/// A network that the wireless daemon remembers.
#[derive(Debug)]
pub struct KnownNetworkInfo {
    pub name: String,
    pub network_type: String,
    pub is_autoconnect: bool,
    pub is_hidden: bool,
    pub last_connected: Option<Instant>,
}

impl Clone for KnownNetworkInfo {
    fn clone(&self) -> (r: Self)
        ensures
            r == *self,
    {
        KnownNetworkInfo {
            name: self.name.clone(),
            network_type: self.network_type.clone(),
            is_autoconnect: self.is_autoconnect,
            is_hidden: self.is_hidden,
            last_connected: self.last_connected,
        }
    }
}

impl KnownNetworkInfo {
    /// A remembered network from the daemon's answers; `last_connected_time` is the daemon's
    /// text for the last connection, if it gave one, and the stored instant is what chrono
    /// parses from it.
    pub fn new(
        name: String,
        network_type: String,
        is_autoconnect: bool,
        is_hidden: bool,
        last_connected_time: Option<String>,
    ) -> (k: KnownNetworkInfo)
        ensures
            k.name == name,
            k.network_type == network_type,
            k.is_autoconnect == is_autoconnect,
            k.is_hidden == is_hidden,
            k.last_connected == match last_connected_time {
                Some(t) => rfc3339_instant(t@),
                None => None,
            },
    {
        let last_connected = match &last_connected_time {
            Some(t) => parse_rfc3339(t.as_str()),
            None => None,
        };
        KnownNetworkInfo { name, network_type, is_autoconnect, is_hidden, last_connected }
    }

    /// The autoconnect setting that toggling asks the daemon for: the opposite of the current.
    pub fn toggled_autoconnect(&self) -> (b: bool)
        ensures
            b == !self.is_autoconnect,
    {
        if self.is_autoconnect {
            false
        } else {
            true
        }
    }
}

/// A network that a scan found.
#[derive(Debug)]
pub struct NetworkInfo {
    pub name: String,
    pub network_type: String,
    pub is_connected: bool,
    pub known_network: Option<KnownNetworkInfo>,
}

impl Clone for NetworkInfo {
    fn clone(&self) -> (r: Self)
        ensures
            r == *self,
    {
        let known_network = match &self.known_network {
            Some(k) => Some(k.clone()),
            None => None,
        };
        NetworkInfo {
            name: self.name.clone(),
            network_type: self.network_type.clone(),
            is_connected: self.is_connected,
            known_network,
        }
    }
}

/// A network with its signal strength, in hundredths of a dBm.
#[derive(Debug)]
pub struct ScoredNetwork {
    pub network: NetworkInfo,
    pub signal: i16,
}

impl Clone for ScoredNetwork {
    fn clone(&self) -> (r: Self)
        ensures
            r == *self,
    {
        ScoredNetwork { network: self.network.clone(), signal: self.signal }
    }
}

impl SortKey for ScoredNetwork {
    /// Stronger signals come first.
    open spec fn sort_key(&self) -> int {
        -(self.signal as int)
    }

    fn key(&self) -> (k: i64) {
        -(self.signal as i64)
    }
}

/// A copy of a list of networks.
pub fn clone_networks(v: &Vec<ScoredNetwork>) -> (r: Vec<ScoredNetwork>)
    ensures
        r@ == v@,
{
    let r = v.clone();
    assert(r@ =~= v@);
    r
}

/// The networks ordered by signal, strongest first; networks of equal signal keep their order.
pub fn sort_by_signal(v: Vec<ScoredNetwork>) -> (r: Vec<ScoredNetwork>)
    ensures
        r@ == stable_sorted(v@),
{
    stable_sort(v)
}

/// What a station scan knows: the networks in range and the remembered ones, each with its
/// signal.
#[derive(Debug)]
pub struct StationSnapshot {
    pub new_networks: Vec<ScoredNetwork>,
    pub known_networks: Vec<ScoredNetwork>,
}

impl StationSnapshot {
    /// The two snapshots list the same networks.
    pub open spec fn same_as(self, other: StationSnapshot) -> bool {
        &&& self.new_networks@ == other.new_networks@
        &&& self.known_networks@ == other.known_networks@
    }
}

/// The network is remembered by the daemon.
pub open spec fn is_known(n: ScoredNetwork) -> bool {
    n.network.known_network is Some
}

impl StationSnapshot {
    /// The station's view of the discovered networks: the remembered ones and the new ones,
    /// each in discovery order.
    pub fn from_discovered(networks: Vec<ScoredNetwork>) -> (s: StationSnapshot)
        ensures
            s.known_networks@ == networks@.filter(|n: ScoredNetwork| is_known(n)),
            s.new_networks@ == networks@.filter(|n: ScoredNetwork| !is_known(n)),
    {
        let ghost all = networks@;
        let mut rest = networks;
        let mut known: Vec<ScoredNetwork> = Vec::new();
        let mut fresh: Vec<ScoredNetwork> = Vec::new();
        let n = rest.len();
        let mut i: usize = 0;
        assert(all.take(0) =~= Seq::<ScoredNetwork>::empty());
        while i < n
            invariant
                n == all.len(),
                i <= n,
                rest@ =~= all.skip(i as int),
                known@ == all.take(i as int).filter(|m: ScoredNetwork| is_known(m)),
                fresh@ == all.take(i as int).filter(|m: ScoredNetwork| !is_known(m)),
            decreases n - i,
        {
            let item = rest.remove(0);
            proof {
                assert(all.take(i + 1) =~= all.take(i as int).push(item));
                all.take(i as int).lemma_filter_push(item, |m: ScoredNetwork| is_known(m));
                all.take(i as int).lemma_filter_push(item, |m: ScoredNetwork| !is_known(m));
            }
            if item.network.known_network.is_some() {
                known.push(item);
            } else {
                fresh.push(item);
            }
            i = i + 1;
        }
        assert(all.take(n as int) =~= all);
        StationSnapshot { new_networks: fresh, known_networks: known }
    }
}

impl Clone for StationSnapshot {
    fn clone(&self) -> (r: Self)
        ensures
            r.same_as(*self),
    {
        StationSnapshot {
            new_networks: clone_networks(&self.new_networks),
            known_networks: clone_networks(&self.known_networks),
        }
    }
}

/// What the wireless daemon reported: the device's mode and, in station mode, the station.
#[derive(Debug)]
pub struct WifiSnapshot {
    pub mode: WifiMode,
    pub station: Option<StationSnapshot>,
}

impl WifiSnapshot {
    /// The two snapshots report the same mode and the same station.
    pub open spec fn same_as(self, other: WifiSnapshot) -> bool {
        &&& self.mode == other.mode
        &&& match (self.station, other.station) {
            (Some(a), Some(b)) => a.same_as(b),
            (None, None) => true,
            _ => false,
        }
    }
}

impl Clone for WifiSnapshot {
    fn clone(&self) -> (r: Self)
        ensures
            r.same_as(*self),
    {
        let station = match &self.station {
            Some(s) => Some(s.clone()),
            None => None,
        };
        WifiSnapshot { mode: self.mode, station }
    }
}

/// Snapshots compare equal whatever they hold: a snapshot stands for a live connection to the
/// daemon, which has no meaningful equality.
impl PartialEq for WifiSnapshot {
    fn eq(&self, other: &Self) -> (r: bool) {
        true
    }
}

impl vstd::std_specs::cmp::PartialEqSpecImpl for WifiSnapshot {
    open spec fn obeys_eq_spec() -> bool {
        true
    }

    open spec fn eq_spec(&self, other: &Self) -> bool {
        true
    }
}

/// What becomes of the station when a device is refreshed.
#[derive(Clone, Copy, Debug, PartialEq, Eq, Structural)]
pub enum StationChange {
    /// The device stays a station: the existing station, if any, is refreshed.
    RefreshExisting,
    /// The device turned from access point into station: a station is created anew.
    Recreate,
    /// The device turned from station into access point: the station is dropped.
    Remove,
    /// Nothing to do.
    Keep,
}

/// The change of station for a device that was in mode `previous` and now is in `current`.
pub open spec fn spec_station_change(previous: WifiMode, current: WifiMode) -> StationChange {
    match (current, previous) {
        (WifiMode::Station, WifiMode::Station) => StationChange::RefreshExisting,
        (WifiMode::Station, WifiMode::Ap) => StationChange::Recreate,
        (WifiMode::Ap, WifiMode::Station) => StationChange::Remove,
        (WifiMode::Ap, WifiMode::Ap) => StationChange::Keep,
    }
}

/// A wireless device as the daemon describes it.
#[derive(Clone, Debug)]
pub struct DeviceInfo {
    pub name: String,
    pub address: String,
    pub mode: WifiMode,
    pub is_powered: bool,
}

impl DeviceInfo {
    /// Takes in a fresh reading of the power and the mode, and says what becomes of the
    /// station: the reading replaces the stored power and mode, name and address stay.
    pub fn refresh(&mut self, is_powered: bool, current_mode: WifiMode) -> (change: StationChange)
        ensures
            change == spec_station_change(old(self).mode, current_mode),
            final(self).mode == current_mode,
            final(self).is_powered == is_powered,
            final(self).name == old(self).name,
            final(self).address == old(self).address,
    {
        self.is_powered = is_powered;
        let change = match current_mode {
            WifiMode::Station => match self.mode {
                WifiMode::Station => StationChange::RefreshExisting,
                WifiMode::Ap => StationChange::Recreate,
            },
            WifiMode::Ap => match self.mode {
                WifiMode::Station => StationChange::Remove,
                WifiMode::Ap => StationChange::Keep,
            },
        };
        self.mode = current_mode;
        change
    }
}

} // verus!
