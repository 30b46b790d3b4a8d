//! The snapshot engine: owns the one live snapshot, applies each domain's
//! readings to it, and hands out copies.
use vstd::prelude::*;
use crate::metrics::{
    clone_pair, disk_info_from, disk_model_of, net_iface_from, net_model_of, pretty_pair, qv,
    CoreInfo, CoreModel, CpuReading, DiskInfo, DiskModel, DiskReading, MemoryReading,
    MetricProvider, NetIfaceInfo, NetModel, NetReading, ThermalModel, ThermalReading,
};
use crate::units::get_prettybytes;

verus! {

broadcast use vstd::string::group_string_axioms;

/// The snapshot as seen in contracts.
pub struct Snapshot {
    pub mem_used: (u64, Seq<char>),
    pub mem_avail: (u64, Seq<char>),
    pub mem_free: (u64, Seq<char>),
    pub swap_used: (u64, Seq<char>),
    pub cpu_avg: u32,
    pub net_interfaces: Seq<NetModel>,
    pub cores: Seq<CoreModel>,
    pub component_temps: Seq<ThermalModel>,
    pub diskinfos: Seq<DiskModel>,
}

/// The readings of one refresh, one per domain, `None` where it failed.
pub struct Readings {
    pub memory: Option<MemoryReading>,
    pub thermals: Option<Seq<ThermalModel>>,
    pub networks: Option<Seq<NetReading>>,
    pub cpu: Option<(u32, Seq<CoreModel>)>,
    pub disks: Option<Seq<DiskReading>>,
}

/// The text a byte quantity holds before its first reading.
pub open spec fn not_available() -> Seq<char> {
    seq!['N', '/', 'A']
}

/// The snapshot before any refresh.
pub open spec fn initial_snapshot() -> Snapshot {
    Snapshot {
        mem_used: (0, not_available()),
        mem_avail: (0, not_available()),
        mem_free: (0, not_available()),
        swap_used: (0, not_available()),
        cpu_avg: 0,
        net_interfaces: Seq::empty(),
        cores: Seq::empty(),
        component_temps: Seq::empty(),
        diskinfos: Seq::empty(),
    }
}

pub open spec fn with_memory(s: Snapshot, m: MemoryReading) -> Snapshot {
    Snapshot {
        mem_used: pretty_pair(m.used),
        mem_avail: pretty_pair(m.available),
        mem_free: pretty_pair(m.free),
        swap_used: pretty_pair(m.swap_used),
        ..s
    }
}

pub open spec fn with_thermals(s: Snapshot, t: Seq<ThermalModel>) -> Snapshot {
    Snapshot { component_temps: t, ..s }
}

pub open spec fn with_networks(s: Snapshot, n: Seq<NetReading>) -> Snapshot {
    Snapshot { net_interfaces: n.map_values(|r: NetReading| net_model_of(r)), ..s }
}

pub open spec fn with_cpu(s: Snapshot, avg: u32, cores: Seq<CoreModel>) -> Snapshot {
    Snapshot { cpu_avg: avg, cores, ..s }
}

pub open spec fn with_disks(s: Snapshot, d: Seq<DiskReading>) -> Snapshot {
    Snapshot { diskinfos: d.map(|i: int, r: DiskReading| disk_model_of(r, i as nat)), ..s }
}

/// One refresh: each domain that answered replaces its fields, in the order
/// memory, thermal, network, cpu, disks; a domain that failed keeps them.
pub open spec fn refreshed(s: Snapshot, r: Readings) -> Snapshot {
    let s1 = match r.memory {
        Some(m) => with_memory(s, m),
        None => s,
    };
    let s2 = match r.thermals {
        Some(t) => with_thermals(s1, t),
        None => s1,
    };
    let s3 = match r.networks {
        Some(n) => with_networks(s2, n),
        None => s2,
    };
    let s4 = match r.cpu {
        Some(c) => with_cpu(s3, c.0, c.1),
        None => s3,
    };
    match r.disks {
        Some(d) => with_disks(s4, d),
        None => s4,
    }
}

pub open spec fn memory_fields(s: Snapshot) -> ((u64, Seq<char>), (u64, Seq<char>), (u64, Seq<char>), (u64, Seq<char>)) {
    (s.mem_used, s.mem_avail, s.mem_free, s.swap_used)
}

pub open spec fn cpu_fields(s: Snapshot) -> (u32, Seq<CoreModel>) {
    (s.cpu_avg, s.cores)
}

/// A refresh keeps every field of a domain that failed and gives every
/// domain that answered the fields made from its reading alone.
pub proof fn lemma_refresh_domains(s: Snapshot, r: Readings)
    ensures
        memory_fields(refreshed(s, r)) == match r.memory {
            Some(m) => memory_fields(with_memory(s, m)),
            None => memory_fields(s),
        },
        refreshed(s, r).component_temps == match r.thermals {
            Some(t) => t,
            None => s.component_temps,
        },
        refreshed(s, r).net_interfaces == match r.networks {
            Some(n) => n.map_values(|x: NetReading| net_model_of(x)),
            None => s.net_interfaces,
        },
        cpu_fields(refreshed(s, r)) == match r.cpu {
            Some(c) => c,
            None => cpu_fields(s),
        },
        refreshed(s, r).diskinfos == match r.disks {
            Some(d) => d.map(|i: int, x: DiskReading| disk_model_of(x, i as nat)),
            None => s.diskinfos,
        },
{
}

/// The snapshot engine. Many fields show placeholder values until the first
/// refresh.
pub struct SystemBase {
    mem_used: (u64, String),
    mem_avail: (u64, String),
    mem_free: (u64, String),
    swap_used: (u64, String),
    cpu_avg: u32,
    net_interfaces: Vec<NetIfaceInfo>,
    cores: Vec<CoreInfo>,
    component_temps: Vec<ThermalReading>,
    diskinfos: Vec<DiskInfo>,
}

impl View for SystemBase {
    type V = Snapshot;

    closed spec fn view(&self) -> Snapshot {
        Snapshot {
            mem_used: qv(self.mem_used),
            mem_avail: qv(self.mem_avail),
            mem_free: qv(self.mem_free),
            swap_used: qv(self.swap_used),
            cpu_avg: self.cpu_avg,
            net_interfaces: self.net_interfaces@.map_values(|n: NetIfaceInfo| n@),
            cores: self.cores@.map_values(|c: CoreInfo| c@),
            component_temps: self.component_temps@.map_values(|t: ThermalReading| t@),
            diskinfos: self.diskinfos@.map_values(|d: DiskInfo| d@),
        }
    }
}

fn not_available_string() -> (r: String)
    ensures
        r@ == not_available(),
{
    proof {
        reveal_strlit("N/A");
    }
    let r = String::from_str("N/A");
    assert(r@ =~= not_available());
    r
}

fn clone_cores(v: &Vec<CoreInfo>) -> (r: Vec<CoreInfo>)
    ensures
        r@.map_values(|c: CoreInfo| c@) == v@.map_values(|c: CoreInfo| c@),
{
    let r = v.clone();
    assert(r@.map_values(|c: CoreInfo| c@) =~= v@.map_values(|c: CoreInfo| c@));
    r
}

fn clone_thermals(v: &Vec<ThermalReading>) -> (r: Vec<ThermalReading>)
    ensures
        r@.map_values(|t: ThermalReading| t@) == v@.map_values(|t: ThermalReading| t@),
{
    let r = v.clone();
    assert(r@.map_values(|t: ThermalReading| t@) =~= v@.map_values(|t: ThermalReading| t@));
    r
}

impl SystemBase {
    /// The snapshot before any refresh: counts of zero shown as `N/A`, no
    /// interfaces, cores, readings or disks.
    pub fn new() -> (r: SystemBase)
        ensures
            r@ == initial_snapshot(),
    {
        let r = SystemBase {
            mem_used: (0, not_available_string()),
            mem_avail: (0, not_available_string()),
            mem_free: (0, not_available_string()),
            swap_used: (0, not_available_string()),
            cpu_avg: 0,
            net_interfaces: Vec::new(),
            cores: Vec::new(),
            component_temps: Vec::new(),
            diskinfos: Vec::new(),
        };
        assert(r@.net_interfaces =~= Seq::<NetModel>::empty());
        assert(r@.cores =~= Seq::<CoreModel>::empty());
        assert(r@.component_temps =~= Seq::<ThermalModel>::empty());
        assert(r@.diskinfos =~= Seq::<DiskModel>::empty());
        r
    }

    /// Replaces the memory and swap fields.
    pub fn apply_memory(&mut self, m: MemoryReading)
        ensures
            final(self)@ == with_memory(old(self)@, m),
    {
        self.mem_used = get_prettybytes(m.used);
        self.mem_avail = get_prettybytes(m.available);
        self.mem_free = get_prettybytes(m.free);
        self.swap_used = get_prettybytes(m.swap_used);
    }

    /// Replaces the component temperatures.
    pub fn apply_thermals(&mut self, t: Vec<ThermalReading>)
        ensures
            final(self)@ == with_thermals(old(self)@, t@.map_values(|x: ThermalReading| x@)),
    {
        self.component_temps = t;
    }

    /// Replaces the interfaces with the records of `n`, in its order.
    pub fn apply_networks(&mut self, n: &Vec<NetReading>)
        ensures
            final(self)@ == with_networks(old(self)@, n@),
    {
        let mut out: Vec<NetIfaceInfo> = Vec::new();
        let mut i: usize = 0;
        while i < n.len()
            invariant
                i <= n@.len(),
                out@.len() == i,
                forall|k: int| 0 <= k < i ==> (#[trigger] out@[k])@ == net_model_of(n@[k]),
            decreases n@.len() - i,
        {
            out.push(net_iface_from(&n[i]));
            i = i + 1;
        }
        assert(out@.map_values(|x: NetIfaceInfo| x@) =~= n@.map_values(|r: NetReading| net_model_of(r)));
        self.net_interfaces = out;
    }

    /// Replaces the CPU average and the cores.
    pub fn apply_cpu(&mut self, c: CpuReading)
        ensures
            final(self)@ == with_cpu(old(self)@, c.average, c.cores@.map_values(|x: CoreInfo| x@)),
    {
        self.cpu_avg = c.average;
        self.cores = c.cores;
    }

    /// Replaces the disks with the records of `d`, each named with its index
    /// in `d` where the OS gave no usable name.
    pub fn apply_disks(&mut self, d: &Vec<DiskReading>)
        ensures
            final(self)@ == with_disks(old(self)@, d@),
    {
        let mut out: Vec<DiskInfo> = Vec::new();
        let mut i: usize = 0;
        while i < d.len()
            invariant
                i <= d@.len(),
                out@.len() == i,
                forall|k: int| 0 <= k < i ==> (#[trigger] out@[k])@ == disk_model_of(d@[k], k as nat),
            decreases d@.len() - i,
        {
            out.push(disk_info_from(&d[i], i as u64));
            i = i + 1;
        }
        assert(out@.map_values(|x: DiskInfo| x@) =~= d@.map(|k: int, r: DiskReading| disk_model_of(r, k as nat)));
        self.diskinfos = out;
    }

    /// Asks the provider for each domain in the order memory, thermal,
    /// network, cpu, disks, and applies each answer as it comes; a domain
    /// that fails keeps its previous fields.
    pub fn refresh<P: MetricProvider>(&mut self, provider: &mut P)
        ensures
            exists|r: Readings| final(self)@ == refreshed(old(self)@, r),
    {
        let ghost mut r = Readings {
            memory: None,
            thermals: None,
            networks: None,
            cpu: None,
            disks: None,
        };
        if let Some(m) = provider.memory() {
            self.apply_memory(m);
            proof {
                r.memory = Some(m);
            }
        }
        if let Some(t) = provider.thermals() {
            proof {
                r.thermals = Some(t@.map_values(|x: ThermalReading| x@));
            }
            self.apply_thermals(t);
        }
        if let Some(n) = provider.networks() {
            self.apply_networks(&n);
            proof {
                r.networks = Some(n@);
            }
        }
        if let Some(c) = provider.cpu() {
            proof {
                r.cpu = Some((c.average, c.cores@.map_values(|x: CoreInfo| x@)));
            }
            self.apply_cpu(c);
        }
        if let Some(d) = provider.disks() {
            self.apply_disks(&d);
            proof {
                r.disks = Some(d@);
            }
        }
        assert(final(self)@ == refreshed(old(self)@, r));
    }

    /// The global CPU usage, as the bit pattern of a single-precision percentage.
    pub fn get_cpu_avg(&self) -> (r: u32)
        ensures
            r == self@.cpu_avg,
    {
        self.cpu_avg
    }

    pub fn get_mem_used(&self) -> (r: (u64, String))
        ensures
            qv(r) == self@.mem_used,
    {
        clone_pair(&self.mem_used)
    }

    pub fn get_mem_avail(&self) -> (r: (u64, String))
        ensures
            qv(r) == self@.mem_avail,
    {
        clone_pair(&self.mem_avail)
    }

    pub fn get_mem_free(&self) -> (r: (u64, String))
        ensures
            qv(r) == self@.mem_free,
    {
        clone_pair(&self.mem_free)
    }

    pub fn get_swap_used(&self) -> (r: (u64, String))
        ensures
            qv(r) == self@.swap_used,
    {
        clone_pair(&self.swap_used)
    }

    pub fn get_network_interfaces(&self) -> (r: Vec<NetIfaceInfo>)
        ensures
            r@.map_values(|n: NetIfaceInfo| n@) == self@.net_interfaces,
    {
        let r = self.net_interfaces.clone();
        assert(r@.map_values(|n: NetIfaceInfo| n@) =~= self@.net_interfaces);
        r
    }

    pub fn get_cores(&self) -> (r: Vec<CoreInfo>)
        ensures
            r@.map_values(|c: CoreInfo| c@) == self@.cores,
    {
        clone_cores(&self.cores)
    }

    pub fn get_comp_temps(&self) -> (r: Vec<ThermalReading>)
        ensures
            r@.map_values(|t: ThermalReading| t@) == self@.component_temps,
    {
        clone_thermals(&self.component_temps)
    }

    pub fn get_disks(&self) -> (r: Vec<DiskInfo>)
        ensures
            r@.map_values(|d: DiskInfo| d@) == self@.diskinfos,
    {
        let r = self.diskinfos.clone();
        assert(r@.map_values(|d: DiskInfo| d@) =~= self@.diskinfos);
        r
    }
}

} // verus!
