//! The records of one snapshot, the raw readings they are made from, and the
//! provider of those readings.
use vstd::prelude::*;
use crate::naming::{disk_name, disk_name_of, fs_title, mount_title, name_or_placeholder, or_placeholder};
use crate::units::{get_prettybytes, pretty_text};

verus! {

broadcast use vstd::string::group_string_axioms;

/// A byte count and its text, as seen in contracts.
pub open spec fn qv(q: (u64, String)) -> (u64, Seq<char>) {
    (q.0, q.1@)
}

/// A byte count paired with `pretty_text` of it.
pub open spec fn pretty_pair(bytes: u64) -> (u64, Seq<char>) {
    (bytes, pretty_text(bytes))
}

pub fn clone_pair(q: &(u64, String)) -> (r: (u64, String))
    ensures
        qv(r) == qv(*q),
{
    (q.0, q.1.clone())
}

pub open spec fn opt_seq(o: Option<String>) -> Option<Seq<char>> {
    match o {
        Some(s) => Some(s@),
        None => None,
    }
}

/// One address bound to an interface: `v6` and `value` order it as the IP
/// address it is (every IPv4 address before every IPv6 one, then by value);
/// `text` is how the provider writes it.
pub struct IpAddress {
    pub v6: bool,
    pub value: u128,
    pub text: String,
}

pub struct IpModel {
    pub v6: bool,
    pub value: u128,
    pub text: Seq<char>,
}

impl View for IpAddress {
    type V = IpModel;

    open spec fn view(&self) -> IpModel {
        IpModel { v6: self.v6, value: self.value, text: self.text@ }
    }
}

impl Clone for IpAddress {
    fn clone(&self) -> (r: Self)
        ensures
            r@ == self@,
    {
        IpAddress { v6: self.v6, value: self.value, text: self.text.clone() }
    }
}

pub open spec fn ips_view(v: Seq<IpAddress>) -> Seq<IpModel> {
    v.map_values(|a: IpAddress| a@)
}

/// Information about a network interface.
pub struct NetIfaceInfo {
    pub name: String,
    pub tx_bytes: (u64, String),
    pub rx_bytes: (u64, String),
    pub mac: [u8; 6],
    pub networks: Vec<IpAddress>,
}

pub struct NetModel {
    pub name: Seq<char>,
    pub tx_bytes: (u64, Seq<char>),
    pub rx_bytes: (u64, Seq<char>),
    pub mac: [u8; 6],
    pub networks: Seq<IpModel>,
}

impl View for NetIfaceInfo {
    type V = NetModel;

    open spec fn view(&self) -> NetModel {
        NetModel {
            name: self.name@,
            tx_bytes: qv(self.tx_bytes),
            rx_bytes: qv(self.rx_bytes),
            mac: self.mac,
            networks: ips_view(self.networks@),
        }
    }
}

impl Clone for NetIfaceInfo {
    fn clone(&self) -> (r: Self)
        ensures
            r@ == self@,
    {
        let networks = self.networks.clone();
        assert(ips_view(networks@) =~= ips_view(self.networks@));
        NetIfaceInfo {
            name: self.name.clone(),
            tx_bytes: clone_pair(&self.tx_bytes),
            rx_bytes: clone_pair(&self.rx_bytes),
            mac: self.mac,
            networks,
        }
    }
}

/// Information about a CPU core; `usage` is the bit pattern of the
/// single-precision percentage that the provider reported.
pub struct CoreInfo {
    pub name: String,
    pub brand: String,
    pub usage: u32,
}

pub struct CoreModel {
    pub name: Seq<char>,
    pub brand: Seq<char>,
    pub usage: u32,
}

impl View for CoreInfo {
    type V = CoreModel;

    open spec fn view(&self) -> CoreModel {
        CoreModel { name: self.name@, brand: self.brand@, usage: self.usage }
    }
}

impl Clone for CoreInfo {
    fn clone(&self) -> (r: Self)
        ensures
            r@ == self@,
    {
        CoreInfo { name: self.name.clone(), brand: self.brand.clone(), usage: self.usage }
    }
}

/// A component temperature; `celsius` is the bit pattern of the
/// single-precision reading.
pub struct ThermalReading {
    pub label: String,
    pub celsius: u32,
}

pub struct ThermalModel {
    pub label: Seq<char>,
    pub celsius: u32,
}

impl View for ThermalReading {
    type V = ThermalModel;

    open spec fn view(&self) -> ThermalModel {
        ThermalModel { label: self.label@, celsius: self.celsius }
    }
}

impl Clone for ThermalReading {
    fn clone(&self) -> (r: Self)
        ensures
            r@ == self@,
    {
        ThermalReading { label: self.label.clone(), celsius: self.celsius }
    }
}

/// Information about a disk from a single refresh interval.
pub struct DiskInfo {
    pub name: String,
    pub fs: String,
    pub mnt: String,
    pub total: (u64, String),
    pub avail: (u64, String),
    pub read: (u64, String),
    pub written: (u64, String),
}

pub struct DiskModel {
    pub name: Seq<char>,
    pub fs: Seq<char>,
    pub mnt: Seq<char>,
    pub total: (u64, Seq<char>),
    pub avail: (u64, Seq<char>),
    pub read: (u64, Seq<char>),
    pub written: (u64, Seq<char>),
}

impl View for DiskInfo {
    type V = DiskModel;

    open spec fn view(&self) -> DiskModel {
        DiskModel {
            name: self.name@,
            fs: self.fs@,
            mnt: self.mnt@,
            total: qv(self.total),
            avail: qv(self.avail),
            read: qv(self.read),
            written: qv(self.written),
        }
    }
}

impl Clone for DiskInfo {
    fn clone(&self) -> (r: Self)
        ensures
            r@ == self@,
    {
        DiskInfo {
            name: self.name.clone(),
            fs: self.fs.clone(),
            mnt: self.mnt.clone(),
            total: clone_pair(&self.total),
            avail: clone_pair(&self.avail),
            read: clone_pair(&self.read),
            written: clone_pair(&self.written),
        }
    }
}

/// Raw memory and swap counters, in bytes.
#[derive(Clone, Copy, Debug, PartialEq, Eq, Structural)]
pub struct MemoryReading {
    pub used: u64,
    pub available: u64,
    pub free: u64,
    pub swap_used: u64,
}

/// The global CPU usage (bit pattern of a single-precision percentage) and
/// the cores.
pub struct CpuReading {
    pub average: u32,
    pub cores: Vec<CoreInfo>,
}

/// One interface as the provider sees it: counters since its previous
/// network refresh, hardware address and bound addresses.
pub struct NetReading {
    pub name: String,
    pub transmitted: u64,
    pub received: u64,
    pub mac: [u8; 6],
    pub networks: Vec<IpAddress>,
}

/// One mounted volume as the provider sees it; a string is `None` where the
/// OS string could not be decoded.
pub struct DiskReading {
    pub name: Option<String>,
    pub fs: Option<String>,
    pub mnt: Option<String>,
    pub total: u64,
    pub avail: u64,
    pub read: u64,
    pub written: u64,
}

/// The record an interface reading becomes.
pub open spec fn net_model_of(r: NetReading) -> NetModel {
    NetModel {
        name: r.name@,
        tx_bytes: pretty_pair(r.transmitted),
        rx_bytes: pretty_pair(r.received),
        mac: r.mac,
        networks: ips_view(r.networks@),
    }
}

/// The record a volume reading becomes at enumeration index `i`.
pub open spec fn disk_model_of(r: DiskReading, i: nat) -> DiskModel {
    DiskModel {
        name: disk_name_of(opt_seq(r.name), i),
        fs: or_placeholder(opt_seq(r.fs), i, fs_title()),
        mnt: or_placeholder(opt_seq(r.mnt), i, mount_title()),
        total: pretty_pair(r.total),
        avail: pretty_pair(r.avail),
        read: pretty_pair(r.read),
        written: pretty_pair(r.written),
    }
}

/// Makes the record of one interface.
pub fn net_iface_from(r: &NetReading) -> (n: NetIfaceInfo)
    ensures
        n@ == net_model_of(*r),
{
    let networks = r.networks.clone();
    assert(ips_view(networks@) =~= ips_view(r.networks@));
    NetIfaceInfo {
        name: r.name.clone(),
        tx_bytes: get_prettybytes(r.transmitted),
        rx_bytes: get_prettybytes(r.received),
        mac: r.mac,
        networks,
    }
}

/// Makes the record of the volume at enumeration index `i`, with the
/// placeholder names of that index where a string is missing.
pub fn disk_info_from(r: &DiskReading, i: u64) -> (d: DiskInfo)
    ensures
        d@ == disk_model_of(*r, i as nat),
{
    proof {
        reveal_strlit("unknown fs ");
        reveal_strlit("mount ");
        assert("unknown fs "@ =~= fs_title());
        assert("mount "@ =~= mount_title());
    }
    DiskInfo {
        name: disk_name(&r.name, i),
        fs: name_or_placeholder(&r.fs, i, "unknown fs "),
        mnt: name_or_placeholder(&r.mnt, i, "mount "),
        total: get_prettybytes(r.total),
        avail: get_prettybytes(r.avail),
        read: get_prettybytes(r.read),
        written: get_prettybytes(r.written),
    }
}

/// The source of raw readings, one operation per domain. `None` means that
/// the domain could not be read this time.
pub trait MetricProvider {
    fn memory(&mut self) -> Option<MemoryReading>;

    fn thermals(&mut self) -> Option<Vec<ThermalReading>>;

    fn networks(&mut self) -> Option<Vec<NetReading>>;

    fn cpu(&mut self) -> Option<CpuReading>;

    fn disks(&mut self) -> Option<Vec<DiskReading>>;
}

} // verus!
