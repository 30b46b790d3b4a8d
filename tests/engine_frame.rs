use overtopr::control::{Action, LoopState};
use overtopr::metrics::{
    CoreInfo, CpuReading, DiskReading, IpAddress, MemoryReading, MetricProvider, NetReading,
    ThermalReading,
};
use overtopr::percent::Tone;
use overtopr::render::{mac_string, print_all, print_div, print_mem, refresh_and_print, Piece};
use overtopr::system_base::SystemBase;

#[derive(Default)]
struct Fake {
    calls: Vec<&'static str>,
    fail_memory: bool,
    fail_thermal: bool,
    fail_networks: bool,
    fail_cpu: bool,
    fail_disks: bool,
    temps: Vec<(String, f32)>,
    swap: u64,
    round: u64,
}

impl MetricProvider for Fake {
    fn memory(&mut self) -> Option<MemoryReading> {
        self.calls.push("memory");
        self.round += 1;
        if self.fail_memory {
            return None;
        }
        Some(MemoryReading { used: 2048 * self.round, available: 4096, free: 1024, swap_used: self.swap })
    }

    fn thermals(&mut self) -> Option<Vec<ThermalReading>> {
        self.calls.push("thermal");
        if self.fail_thermal {
            return None;
        }
        Some(
            self.temps
                .iter()
                .map(|(l, c)| ThermalReading { label: l.clone(), celsius: c.to_bits() })
                .collect(),
        )
    }

    fn networks(&mut self) -> Option<Vec<NetReading>> {
        self.calls.push("network");
        if self.fail_networks {
            return None;
        }
        Some(vec![
            NetReading {
                name: String::from("eth0"),
                transmitted: 1536,
                received: 10,
                mac: [0x00, 0x1a, 0x2b, 0x3c, 0x4d, 0xfe],
                networks: vec![
                    IpAddress { v6: true, value: 1, text: String::from("::1") },
                    IpAddress { v6: false, value: 0x0a000002, text: String::from("10.0.0.2") },
                ],
            },
            NetReading {
                name: String::from("wlan0"),
                transmitted: 0,
                received: 0,
                mac: [0; 6],
                networks: vec![],
            },
        ])
    }

    fn cpu(&mut self) -> Option<CpuReading> {
        self.calls.push("cpu");
        if self.fail_cpu {
            return None;
        }
        let cores = (0..5)
            .map(|i| CoreInfo {
                name: format!("cpu{i}"),
                brand: String::from("Acme 9000"),
                usage: (i as f32 * 20.0).to_bits(),
            })
            .collect();
        Some(CpuReading { average: 37.6f32.to_bits(), cores })
    }

    fn disks(&mut self) -> Option<Vec<DiskReading>> {
        self.calls.push("disks");
        if self.fail_disks {
            return None;
        }
        Some(vec![
            DiskReading {
                name: Some(String::from("nvme0n1p2")),
                fs: Some(String::from("ext4")),
                mnt: Some(String::from("/")),
                total: 4096,
                avail: 1024,
                read: 0,
                written: 512,
            },
            DiskReading { name: None, fs: None, mnt: None, total: 0, avail: 0, read: 0, written: 0 },
            DiskReading {
                name: Some(String::new()),
                fs: Some(String::from("vfat")),
                mnt: None,
                total: 100,
                avail: 200,
                read: 1,
                written: 1,
            },
        ])
    }
}

fn texts(frame: &[Piece]) -> Vec<String> {
    frame
        .iter()
        .map(|p| match p {
            Piece::Text { text, .. } => text.clone(),
            Piece::Celsius { bits } => format!("<{}>", f32::from_bits(*bits)),
        })
        .collect()
}

fn joined(frame: &[Piece]) -> String {
    texts(frame).concat()
}

#[test]
fn new_snapshot_shows_placeholders() {
    let base = SystemBase::new();
    assert_eq!(base.get_mem_used(), (0, String::from("N/A")));
    assert_eq!(base.get_swap_used(), (0, String::from("N/A")));
    assert_eq!(base.get_cpu_avg(), 0);
    assert!(base.get_cores().is_empty());
    assert!(base.get_disks().is_empty());
    assert!(base.get_network_interfaces().is_empty());
    assert!(base.get_comp_temps().is_empty());
}

#[test]
fn refresh_asks_domains_in_fixed_order() {
    let mut base = SystemBase::new();
    let mut p = Fake::default();
    base.refresh(&mut p);
    assert_eq!(p.calls, vec!["memory", "thermal", "network", "cpu", "disks"]);
    assert_eq!(base.get_mem_used(), (2048, String::from("2.00 KiB")));
    assert_eq!(base.get_mem_avail(), (4096, String::from("4.00 KiB")));
    assert_eq!(base.get_mem_free(), (1024, String::from("1.00 KiB")));
    assert_eq!(base.get_swap_used(), (0, String::from("0.00 B")));
    assert_eq!(base.get_cpu_avg(), 37.6f32.to_bits());
    assert_eq!(base.get_cores().len(), 5);
    let nets = base.get_network_interfaces();
    assert_eq!(nets[0].name, "eth0");
    assert_eq!(nets[0].tx_bytes, (1536, String::from("1.50 KiB")));
    assert_eq!(nets[0].rx_bytes, (10, String::from("10.00 B")));
    let disks = base.get_disks();
    assert_eq!(disks.len(), 3);
    assert_eq!(disks[0].name, "nvme0n1p2");
    assert_eq!(disks[1].name, "Disk 1");
    assert_eq!(disks[1].fs, "unknown fs 1");
    assert_eq!(disks[1].mnt, "mount 1");
    assert_eq!(disks[2].name, "Disk 2");
    assert_eq!(disks[2].fs, "vfat");
    assert_eq!(disks[2].mnt, "mount 2");
    assert_eq!(disks[0].written, (512, String::from("512.00 B")));
}

#[test]
fn one_failed_domain_keeps_its_fields() {
    let mut base = SystemBase::new();
    let mut p = Fake { temps: vec![(String::from("cpu"), 40.0)], ..Fake::default() };
    base.refresh(&mut p);
    let disks_before = base.get_disks().len();
    p.fail_disks = true;
    p.temps = vec![(String::from("gpu"), 55.5), (String::from("cpu"), 41.0)];
    base.refresh(&mut p);
    assert_eq!(base.get_disks().len(), disks_before);
    assert_eq!(base.get_disks()[1].name, "Disk 1");
    assert_eq!(base.get_mem_used().0, 4096);
    assert_eq!(base.get_comp_temps().len(), 2);

    let mut q = Fake { fail_memory: true, ..Fake::default() };
    let mut fresh = SystemBase::new();
    fresh.refresh(&mut q);
    assert_eq!(fresh.get_mem_used(), (0, String::from("N/A")));
    assert_eq!(fresh.get_disks().len(), 3);
    assert_eq!(fresh.get_network_interfaces().len(), 2);
}

#[test]
fn every_domain_failing_changes_nothing() {
    let mut base = SystemBase::new();
    let mut p = Fake {
        fail_memory: true,
        fail_thermal: true,
        fail_networks: true,
        fail_cpu: true,
        fail_disks: true,
        ..Fake::default()
    };
    base.refresh(&mut p);
    assert_eq!(base.get_mem_free(), (0, String::from("N/A")));
    assert!(base.get_cores().is_empty());
    assert_eq!(p.calls.len(), 5);
}

#[test]
fn no_thermal_readings_no_thermal_section() {
    let mut base = SystemBase::new();
    let mut p = Fake::default();
    base.refresh(&mut p);
    let mut out = Vec::new();
    print_all(&mut out, &base);
    let all = joined(&out);
    assert!(!all.contains("Thermal"));
    assert!(!out.iter().any(|x| matches!(x, Piece::Celsius { .. })));
    assert!(all.contains("CPU"));
    assert!(all.contains("RAM and Swap"));
    assert!(all.contains("Disk"));
    assert!(all.contains("Network Interfaces"));
}

#[test]
fn thermal_section_sorted_by_label_descending() {
    let mut base = SystemBase::new();
    let mut p = Fake {
        temps: vec![(String::from("acpitz"), 30.0), (String::from("nvme"), 41.5), (String::from("k10temp"), 52.25)],
        ..Fake::default()
    };
    base.refresh(&mut p);
    let mut out = Vec::new();
    print_all(&mut out, &base);
    let all = joined(&out);
    assert!(all.contains("Thermal---"));
    let a = all.find("\u{b0}C - nvme").unwrap();
    let b = all.find("\u{b0}C - k10temp").unwrap();
    let c = all.find("\u{b0}C - acpitz").unwrap();
    assert!(a < b && b < c);
    assert!(all.contains("<41.5>\u{b0}C - nvme \n"));
}

#[test]
fn header_is_padded_to_width() {
    let mut out = Vec::new();
    print_div(&mut out, String::from("CPU"));
    let t = texts(&out);
    assert_eq!(t[0], "CPU");
    assert_eq!(t[1], "-".repeat(65));
    assert_eq!(t[2], "\n");
    assert!(matches!(out[0], Piece::Text { tone: Tone::Bold, .. }));
    let mut long = Vec::new();
    print_div(&mut long, "x".repeat(80));
    assert_eq!(texts(&long)[1], "");
}

#[test]
fn swap_line_is_red_when_swapping() {
    let mut base = SystemBase::new();
    let mut p = Fake { swap: 1, ..Fake::default() };
    base.refresh(&mut p);
    let mut out = Vec::new();
    print_mem(&mut out, &base);
    let swap = out
        .iter()
        .find_map(|x| match x {
            Piece::Text { text, tone } if text == "1.00 B" => Some(*tone),
            _ => None,
        })
        .unwrap();
    assert_eq!(swap, Tone::Alert);
    let all = joined(&out);
    assert!(all.contains("Used: 2.00 KiB\n"));
    assert!(all.contains("Estimated RAM Usage: 50%\n"));
}

#[test]
fn full_frame_layout() {
    let mut base = SystemBase::new();
    let mut p = Fake::default();
    base.refresh(&mut p);
    let mut out = Vec::new();
    print_all(&mut out, &base);
    let all = joined(&out);
    assert!(all.starts_with("overtopr\nCPU-"));
    assert!(all.contains("CPU avg: 38%\n"));
    assert!(all.contains("[ cpu0 - 0% ] [ cpu1 - 20% ] [ cpu2 - 40% ] [ cpu3 - 60% ] \n[ cpu4 - 80% ] "));
    assert!(all.contains("  brand: Acme 9000 - 5 cores\n"));
    assert!(all.contains("nvme0n1p2 - ext4 - / \n  75% used.  1.00 KiB Available of 4.00 KiB total\n"));
    assert!(all.contains("  I/O r:0.00 B / w:512.00 B\n"));
    assert!(all.contains("Disk 1 - unknown fs 1 - mount 1 \n  NaN% used. "));
    assert!(all.contains("Disk 2 - vfat - mount 2 \n  0% used. "));
    let w = all.find(" wlan0 - 00:00:00:00:00:00\n").unwrap();
    let e = all.find("\n eth0 - 00:1a:2b:3c:4d:fe\n  tx: 1.50 KiB - rx: 10.00 B \n  IP: 10.0.0.2,  IP: ::1,").unwrap();
    assert!(w < e);
    assert!(all.ends_with("\n----- Ctrl-C to exit -----\n"));
}

#[test]
fn render_comes_before_refresh() {
    let mut base = SystemBase::new();
    let mut p = Fake::default();
    let first = refresh_and_print(&mut base, &mut p);
    assert!(joined(&first).contains("Used: N/A\n"));
    assert_eq!(base.get_mem_used().1, "2.00 KiB");
    let second = refresh_and_print(&mut base, &mut p);
    assert!(joined(&second).contains("Used: 2.00 KiB\n"));
}

#[test]
fn mac_text() {
    assert_eq!(mac_string([0xde, 0xad, 0xbe, 0xef, 0x00, 0x01]), "de:ad:be:ef:00:01");
}

#[test]
fn interrupt_during_sleep_exits_after_clear() {
    let mut s = LoopState::new();
    assert_eq!(s.last, Action::Render);
    assert_eq!(s.advance(false), Action::Sleep);
    assert_eq!(s.advance(false), Action::Clear);
    assert_eq!(s.advance(false), Action::Refresh);
    assert_eq!(s.advance(false), Action::Render);
    assert_eq!(s.advance(true), Action::Sleep);
    assert_eq!(s.advance(true), Action::Clear);
    assert_eq!(s.advance(true), Action::Exit);
    assert_eq!(s.advance(true), Action::Exit);
    assert_eq!(s.advance(false), Action::Exit);
}

#[test]
fn loop_counts_render_and_refresh_passes() {
    let mut s = LoopState::new();
    let mut renders = 1;
    let mut refreshes = 0;
    for step in 0..40 {
        let flag = step >= 29;
        match s.advance(flag) {
            Action::Render => renders += 1,
            Action::Refresh => refreshes += 1,
            Action::Exit => break,
            _ => {}
        }
        assert!(renders <= refreshes + 1);
    }
    assert_eq!(s.last, Action::Exit);
    assert_eq!(renders, refreshes + 1);
}
