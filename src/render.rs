//! The renderer: lays a snapshot out as a frame of styled pieces of text.
//! Printing the frame, and writing single-precision temperatures, is left to
//! the terminal front end.
use vstd::prelude::*;
use crate::percent::{
    ratio_percent, ratio_rounded, round_bits, rounded_of, rounded_string, rounded_text,
    rounded_tone, tone_of, Tone,
};
use crate::metrics::{
    CoreInfo, CoreModel, DiskInfo, DiskModel, IpAddress, IpModel, MetricProvider, NetIfaceInfo,
    NetModel, ThermalModel, ThermalReading,
};
use crate::order::{
    asc_order, desc_order, lemma_asc_order_len, lemma_desc_order_len, order_asc, order_desc,
};
use crate::system_base::{refreshed, SystemBase, Snapshot};
use crate::text::{dec_digits, hex_pair, push_decimal, push_hex_pair};

verus! {

broadcast use vstd::string::group_string_axioms;

/// One piece of a frame: text in a tone, or a temperature reading (the bit
/// pattern of a single-precision value in degrees Celsius).
pub enum Piece {
    Text { text: String, tone: Tone },
    Celsius { bits: u32 },
}

pub enum PieceModel {
    Text(Seq<char>, Tone),
    Celsius(u32),
}

impl View for Piece {
    type V = PieceModel;

    open spec fn view(&self) -> PieceModel {
        match self {
            Piece::Text { text, tone } => PieceModel::Text(text@, *tone),
            Piece::Celsius { bits } => PieceModel::Celsius(*bits),
        }
    }
}

/// A frame as seen in contracts.
pub open spec fn frame(v: Seq<Piece>) -> Seq<PieceModel> {
    v.map_values(|p: Piece| p@)
}

pub open spec fn plain(s: Seq<char>) -> PieceModel {
    PieceModel::Text(s, Tone::Plain)
}

pub open spec fn newline() -> PieceModel {
    plain(seq!['\n'])
}

/// Width of a section header line.
pub const HEADER_WIDTH: u64 = 68;

/// The dashes that pad a header of `n` characters to the full width.
pub open spec fn dashes(n: nat) -> Seq<char> {
    Seq::new(if n < HEADER_WIDTH { (HEADER_WIDTH - n) as nat } else { 0 }, |i: int| '-')
}

/// A section header: the title in bold, dashes to the full width, a newline.
pub open spec fn div_pieces(title: Seq<char>) -> Seq<PieceModel> {
    seq![PieceModel::Text(title, Tone::Bold), plain(dashes(title.len())), newline()]
}

/// A percentage sample: its rounded value in the colour of its tier, then `%`.
pub open spec fn percent_pieces(bits: u32) -> Seq<PieceModel> {
    seq![
        PieceModel::Text(rounded_text(rounded_of(bits)), rounded_tone(rounded_of(bits))),
        plain("%"@),
    ]
}

/// The rounded percentage that `used` makes of `total`, coloured by tier, then `%`.
pub open spec fn fraction_pieces(used: u64, total: u64) -> Seq<PieceModel> {
    seq![
        PieceModel::Text(rounded_text(ratio_rounded(used, total)), rounded_tone(ratio_rounded(used, total))),
        plain("%"@),
    ]
}

/// The two-tier swap policy: any swap in use is an alert.
pub open spec fn swap_tone(raw: u64) -> Tone {
    if raw > 0 {
        Tone::Alert
    } else {
        Tone::Nominal
    }
}

/// The memory and swap section.
pub open spec fn mem_pieces(s: Snapshot) -> Seq<PieceModel> {
    div_pieces("RAM and Swap"@) + seq![
        plain("Used: "@ + s.mem_used.1 + "\n"@),
        plain("Available: "@ + s.mem_avail.1 + "\n"@),
        plain("Free: "@ + s.mem_free.1 + "\n"@),
        plain("Estimated RAM Usage: "@),
    ] + fraction_pieces(s.mem_used.0, s.mem_avail.0) + seq![
        newline(),
        plain("Swap Used: "@),
        PieceModel::Text(s.swap_used.1, swap_tone(s.swap_used.0)),
        newline(),
    ]
}

/// Appends one piece of text.
pub fn put(out: &mut Vec<Piece>, text: String, tone: Tone)
    ensures
        frame(final(out)@) == frame(old(out)@).push(PieceModel::Text(text@, tone)),
{
    out.push(Piece::Text { text, tone });
    assert(frame(final(out)@) =~= frame(old(out)@).push(PieceModel::Text(text@, tone)));
}

/// Appends a literal in the plain tone.
pub fn put_str(out: &mut Vec<Piece>, text: &str)
    ensures
        frame(final(out)@) == frame(old(out)@).push(plain(text@)),
{
    put(out, String::from_str(text), Tone::Plain);
}

fn put_celsius(out: &mut Vec<Piece>, bits: u32)
    ensures
        frame(final(out)@) == frame(old(out)@).push(PieceModel::Celsius(bits)),
{
    out.push(Piece::Celsius { bits });
    assert(frame(final(out)@) =~= frame(old(out)@).push(PieceModel::Celsius(bits)));
}

fn put_newline(out: &mut Vec<Piece>)
    ensures
        frame(final(out)@) == frame(old(out)@).push(newline()),
{
    proof {
        reveal_strlit("\n");
        assert("\n"@ =~= seq!['\n']);
    }
    put_str(out, "\n");
}

/// The concatenation of three texts.
pub fn join3(a: &str, b: &str, c: &str) -> (r: String)
    ensures
        r@ == a@ + b@ + c@,
{
    let mut r = String::from_str(a);
    r.append(b);
    r.append(c);
    r
}

/// Appends a section header for `dtitle`.
pub fn print_div(out: &mut Vec<Piece>, dtitle: String)
    ensures
        frame(final(out)@) == frame(old(out)@) + div_pieces(dtitle@),
{
    let ghost start = frame(old(out)@);
    let tlen = dtitle.as_str().unicode_len();
    let count: usize = if tlen < 68 { 68 - tlen } else { 0 };
    let mut dash = String::new();
    let mut i: usize = 0;
    proof {
        reveal_strlit("-");
        assert("-"@ =~= seq!['-']);
    }
    while i < count
        invariant
            i <= count,
            "-"@ == seq!['-'],
            dash@ == Seq::new(i as nat, |k: int| '-'),
        decreases count - i,
    {
        dash.append("-");
        i = i + 1;
        assert(dash@ =~= Seq::new(i as nat, |k: int| '-'));
    }
    let ghost t = dtitle@;
    put(out, dtitle, Tone::Bold);
    put(out, dash, Tone::Plain);
    put_newline(out);
    assert(dashes(t.len()) =~= Seq::new(count as nat, |k: int| '-'));
    assert(frame(out@) =~= start + div_pieces(t));
}

/// Appends a percentage sample, rounded and coloured by tier.
pub fn print_percent(out: &mut Vec<Piece>, usage: u32)
    ensures
        frame(final(out)@) == frame(old(out)@) + percent_pieces(usage),
{
    let r = round_bits(usage);
    put(out, rounded_string(r), tone_of(r));
    put_str(out, "%");
    assert(frame(final(out)@) =~= frame(old(out)@) + percent_pieces(usage));
}

/// Appends the rounded percentage that `used` makes of `avail`, coloured by tier.
pub fn print_fraction(out: &mut Vec<Piece>, used: (u64, String), avail: (u64, String))
    ensures
        frame(final(out)@) == frame(old(out)@) + fraction_pieces(used.0, avail.0),
{
    let r = ratio_percent(used.0, avail.0);
    put(out, rounded_string(r), tone_of(r));
    put_str(out, "%");
    assert(frame(final(out)@) =~= frame(old(out)@) + fraction_pieces(used.0, avail.0));
}

/// No swap in use is always nominal, and any swap in use, however little,
/// is always an alert.
pub proof fn lemma_swap_tiers(raw: u64)
    ensures
        raw == 0 ==> swap_tone(raw) == Tone::Nominal,
        raw > 0 ==> swap_tone(raw) == Tone::Alert,
{
}

/// The tone of the swap figure.
pub fn swap_tone_of(raw: u64) -> (t: Tone)
    ensures
        t == swap_tone(raw),
{
    if raw > 0 {
        Tone::Alert
    } else {
        Tone::Nominal
    }
}

/// Appends the memory and swap section.
pub fn print_mem(out: &mut Vec<Piece>, base: &SystemBase)
    ensures
        frame(final(out)@) == frame(old(out)@) + mem_pieces(base@),
{
    let ghost start = frame(old(out)@);
    print_div(out, String::from_str("RAM and Swap"));
    let used = base.get_mem_used();
    let avail = base.get_mem_avail();
    let free = base.get_mem_free();
    put(out, join3("Used: ", used.1.as_str(), "\n"), Tone::Plain);
    put(out, join3("Available: ", avail.1.as_str(), "\n"), Tone::Plain);
    put(out, join3("Free: ", free.1.as_str(), "\n"), Tone::Plain);
    put_str(out, "Estimated RAM Usage: ");
    print_fraction(out, used, avail);
    put_newline(out);
    let swap = base.get_swap_used();
    put_str(out, "Swap Used: ");
    let tone = swap_tone_of(swap.0);
    put(out, swap.1, tone);
    put_newline(out);
    assert(frame(out@) =~= start + mem_pieces(base@));
}

/// One core: `[ name - usage% ]`, and a line break after every fourth core
/// (`i` counts from one).
pub open spec fn core_row(c: CoreModel, i: nat) -> Seq<PieceModel> {
    seq![plain("[ "@ + c.name + " - "@)] + percent_pieces(c.usage) + seq![plain(" ] "@)] + if i % 4 == 0 {
        seq![newline()]
    } else {
        Seq::<PieceModel>::empty()
    }
}

pub open spec fn core_rows(cores: Seq<CoreModel>) -> Seq<PieceModel>
    decreases cores.len(),
{
    if cores.len() == 0 {
        Seq::empty()
    } else {
        core_rows(cores.drop_last()) + core_row(cores.last(), cores.len())
    }
}

/// The brand shown for the CPU: that of the last core.
pub open spec fn cpu_brand(cores: Seq<CoreModel>) -> Seq<char> {
    if cores.len() == 0 {
        Seq::empty()
    } else {
        cores.last().brand
    }
}

/// The CPU section: the average, the cores in rows of four, the brand and
/// the number of cores.
pub open spec fn cpu_pieces(s: Snapshot) -> Seq<PieceModel> {
    div_pieces("CPU"@) + seq![plain("CPU avg: "@)] + percent_pieces(s.cpu_avg) + seq![
        newline(),
        plain("CPU Cores information:\n"@),
    ] + core_rows(s.cores) + (if (s.cores.len() + 1) % 4 == 0 {
        seq![newline()]
    } else {
        Seq::<PieceModel>::empty()
    }) + seq![plain("  brand: "@ + cpu_brand(s.cores) + " - "@ + dec_digits(s.cores.len()) + " cores\n"@)]
}

/// Appends the CPU section.
pub fn print_cpu(out: &mut Vec<Piece>, base: &SystemBase)
    ensures
        frame(final(out)@) == frame(old(out)@) + cpu_pieces(base@),
{
    let ghost start = frame(old(out)@);
    print_div(out, String::from_str("CPU"));
    put_str(out, "CPU avg: ");
    print_percent(out, base.get_cpu_avg());
    put_newline(out);
    put_str(out, "CPU Cores information:\n");
    let ghost head = frame(out@);
    let cores = base.get_cores();
    let ghost cs = cores@.map_values(|c: CoreInfo| c@);
    let mut brand = String::new();
    let mut i: usize = 0;
    while i < cores.len()
        invariant
            i <= cores@.len(),
            cs == cores@.map_values(|c: CoreInfo| c@),
            frame(out@) == head + core_rows(cs.take(i as int)),
            brand@ == cpu_brand(cs.take(i as int)),
        decreases cores@.len() - i,
    {
        let c = &cores[i];
        brand = c.brand.clone();
        put(out, join3("[ ", c.name.as_str(), " - "), Tone::Plain);
        print_percent(out, c.usage);
        put_str(out, " ] ");
        if (i + 1) % 4 == 0 {
            put_newline(out);
        }
        assert(cs.take(i + 1).drop_last() =~= cs.take(i as int));
        i = i + 1;
        assert(frame(out@) =~= head + core_rows(cs.take(i as int)));
    }
    assert(cs.take(i as int) =~= cs);
    if i % 4 == 3 {
        put_newline(out);
    }
    let mut last = String::from_str("  brand: ");
    last.append(brand.as_str());
    last.append(" - ");
    push_decimal(&mut last, i as u128);
    last.append(" cores\n");
    put(out, last, Tone::Plain);
    assert(frame(out@) =~= start + cpu_pieces(base@));
}

/// The labels of the readings, in order.
pub open spec fn labels(t: Seq<ThermalModel>) -> Seq<Seq<char>> {
    t.map_values(|x: ThermalModel| x.label)
}

/// One reading: the temperature, then `°C - label`.
pub open spec fn thermal_row(t: ThermalModel) -> Seq<PieceModel> {
    seq![PieceModel::Celsius(t.celsius), plain("\u{b0}C - "@ + t.label + " \n"@)]
}

pub open spec fn thermal_rows(t: Seq<ThermalModel>, o: Seq<usize>) -> Seq<PieceModel>
    decreases o.len(),
{
    if o.len() == 0 {
        Seq::empty()
    } else {
        thermal_rows(t, o.drop_last()) + thermal_row(t[o.last() as int])
    }
}

/// The thermal section, readings in descending order of label; nothing at
/// all when there are no readings.
pub open spec fn temp_pieces(t: Seq<ThermalModel>) -> Seq<PieceModel> {
    if t.len() == 0 {
        Seq::empty()
    } else {
        div_pieces("Thermal"@) + thermal_rows(t, desc_order(labels(t), t.len()))
    }
}

/// Appends the thermal section, if there are readings.
pub fn print_temp(out: &mut Vec<Piece>, base: &SystemBase)
    ensures
        frame(final(out)@) == frame(old(out)@) + temp_pieces(base@.component_temps),
{
    let ghost start = frame(old(out)@);
    let temps = base.get_comp_temps();
    let ghost ts = temps@.map_values(|t: ThermalReading| t@);
    if temps.len() == 0 {
        assert(frame(out@) =~= start + temp_pieces(ts));
        return;
    }
    print_div(out, String::from_str("Thermal"));
    let ghost head = frame(out@);
    let mut names: Vec<String> = Vec::new();
    let mut k: usize = 0;
    while k < temps.len()
        invariant
            k <= temps@.len(),
            names@.len() == k,
            forall|j: int| 0 <= j < k ==> (#[trigger] names@[j])@ == temps@[j].label@,
        decreases temps@.len() - k,
    {
        names.push(temps[k].label.clone());
        k = k + 1;
    }
    assert(names@.map_values(|s: String| s@) =~= labels(ts));
    let order = order_desc(&names);
    proof {
        lemma_desc_order_len(labels(ts), ts.len());
    }
    let mut i: usize = 0;
    while i < order.len()
        invariant
            ts == temps@.map_values(|t: ThermalReading| t@),
            order@ == desc_order(labels(ts), ts.len()),
            order@.len() == temps@.len(),
            forall|t: int| 0 <= t < order@.len() ==> (#[trigger] order@[t]) < temps@.len(),
            i <= order@.len(),
            frame(out@) == head + thermal_rows(ts, order@.take(i as int)),
        decreases order@.len() - i,
    {
        let t = &temps[order[i]];
        assert(ts[order@[i as int] as int] == temps@[order@[i as int] as int]@);
        put_celsius(out, t.celsius);
        put(out, join3("\u{b0}C - ", t.label.as_str(), " \n"), Tone::Plain);
        assert(order@.take(i + 1).drop_last() =~= order@.take(i as int));
        i = i + 1;
        assert(frame(out@) =~= head + thermal_rows(ts, order@.take(i as int)));
    }
    assert(order@.take(i as int) =~= order@);
    assert(frame(out@) =~= start + temp_pieces(ts));
}

/// `a - b`, or zero when `b` is larger.
pub open spec fn sat_sub(a: u64, b: u64) -> u64 {
    if a >= b {
        (a - b) as u64
    } else {
        0
    }
}

/// One disk: its names, the share of its space in use, the space left, and
/// the bytes read and written since the previous refresh.
pub open spec fn disk_row(d: DiskModel) -> Seq<PieceModel> {
    seq![plain(d.name + " - "@ + d.fs + " - "@ + d.mnt + " \n"@), plain("  "@)]
        + fraction_pieces(sat_sub(d.total.0, d.avail.0), d.total.0) + seq![
        plain(" used. "@),
        plain(" "@ + d.avail.1 + " Available of "@ + d.total.1 + " total\n"@),
        plain("  I/O r:"@ + d.read.1 + " / w:"@ + d.written.1 + "\n"@),
    ]
}

pub open spec fn disk_rows(ds: Seq<DiskModel>) -> Seq<PieceModel>
    decreases ds.len(),
{
    if ds.len() == 0 {
        Seq::empty()
    } else {
        disk_rows(ds.drop_last()) + disk_row(ds.last())
    }
}

/// The disk section, disks in the order the provider gave them.
pub open spec fn disk_pieces(s: Snapshot) -> Seq<PieceModel> {
    div_pieces("Disk"@) + disk_rows(s.diskinfos)
}

fn print_disk_row(out: &mut Vec<Piece>, d: &DiskInfo)
    ensures
        frame(final(out)@) == frame(old(out)@) + disk_row(d@),
{
    let ghost start = frame(old(out)@);
    let mut names = join3(d.name.as_str(), " - ", d.fs.as_str());
    names.append(" - ");
    names.append(d.mnt.as_str());
    names.append(" \n");
    put(out, names, Tone::Plain);
    put_str(out, "  ");
    let used: u64 = if d.total.0 >= d.avail.0 { d.total.0 - d.avail.0 } else { 0 };
    print_fraction(out, (used, String::new()), (d.total.0, String::new()));
    put_str(out, " used. ");
    let mut space = join3(" ", d.avail.1.as_str(), " Available of ");
    space.append(d.total.1.as_str());
    space.append(" total\n");
    put(out, space, Tone::Plain);
    let mut io = join3("  I/O r:", d.read.1.as_str(), " / w:");
    io.append(d.written.1.as_str());
    io.append("\n");
    put(out, io, Tone::Plain);
    assert(frame(out@) =~= start + disk_row(d@));
}

/// Appends the disk section.
pub fn print_disk(out: &mut Vec<Piece>, base: &SystemBase)
    ensures
        frame(final(out)@) == frame(old(out)@) + disk_pieces(base@),
{
    let ghost start = frame(old(out)@);
    print_div(out, String::from_str("Disk"));
    let ghost head = frame(out@);
    let disks = base.get_disks();
    let ghost ds = disks@.map_values(|d: DiskInfo| d@);
    let mut i: usize = 0;
    while i < disks.len()
        invariant
            i <= disks@.len(),
            ds == disks@.map_values(|d: DiskInfo| d@),
            frame(out@) == head + disk_rows(ds.take(i as int)),
        decreases disks@.len() - i,
    {
        print_disk_row(out, &disks[i]);
        assert(ds.take(i + 1).drop_last() =~= ds.take(i as int));
        i = i + 1;
        assert(frame(out@) =~= head + disk_rows(ds.take(i as int)));
    }
    assert(ds.take(i as int) =~= ds);
    assert(frame(out@) =~= start + disk_pieces(base@));
}

/// A hardware address as six pairs of lower-case hex digits joined by colons.
pub open spec fn mac_text(m: [u8; 6]) -> Seq<char> {
    hex_pair(m@[0]) + seq![':'] + hex_pair(m@[1]) + seq![':'] + hex_pair(m@[2]) + seq![':']
        + hex_pair(m@[3]) + seq![':'] + hex_pair(m@[4]) + seq![':'] + hex_pair(m@[5])
}

/// The text of a hardware address.
pub fn mac_string(m: [u8; 6]) -> (r: String)
    ensures
        r@ == mac_text(m),
{
    proof {
        reveal_strlit(":");
        assert(":"@ =~= seq![':']);
    }
    let mut r = String::new();
    push_hex_pair(&mut r, m[0]);
    r.append(":");
    push_hex_pair(&mut r, m[1]);
    r.append(":");
    push_hex_pair(&mut r, m[2]);
    r.append(":");
    push_hex_pair(&mut r, m[3]);
    r.append(":");
    push_hex_pair(&mut r, m[4]);
    r.append(":");
    push_hex_pair(&mut r, m[5]);
    assert(r@ =~= mac_text(m));
    r
}

pub open spec fn ip_keys(ips: Seq<IpModel>) -> Seq<(bool, u128)> {
    ips.map_values(|a: IpModel| (a.v6, a.value))
}

pub open spec fn ip_rows(ips: Seq<IpModel>, o: Seq<usize>) -> Seq<PieceModel>
    decreases o.len(),
{
    if o.len() == 0 {
        Seq::empty()
    } else {
        ip_rows(ips, o.drop_last()) + seq![plain("  IP: "@ + ips[o.last() as int].text + ","@)]
    }
}

/// One interface, with a blank line before all but the first: name and
/// hardware address, bytes sent and received, then its addresses in
/// ascending order.
pub open spec fn net_row(n: NetModel, first: bool) -> Seq<PieceModel> {
    (if first {
        Seq::<PieceModel>::empty()
    } else {
        seq![newline()]
    }) + seq![
        plain(" "@ + n.name + " - "@ + mac_text(n.mac) + "\n"@),
        plain("  tx: "@ + n.tx_bytes.1 + " - rx: "@ + n.rx_bytes.1 + " \n"@),
    ] + ip_rows(n.networks, asc_order(ip_keys(n.networks), n.networks.len()))
}

pub open spec fn net_rows(ns: Seq<NetModel>, o: Seq<usize>) -> Seq<PieceModel>
    decreases o.len(),
{
    if o.len() == 0 {
        Seq::empty()
    } else {
        net_rows(ns, o.drop_last()) + net_row(ns[o.last() as int], o.len() == 1)
    }
}

pub open spec fn iface_names(ns: Seq<NetModel>) -> Seq<Seq<char>> {
    ns.map_values(|n: NetModel| n.name)
}

/// The network section, interfaces in descending order of name.
pub open spec fn net_pieces(s: Snapshot) -> Seq<PieceModel> {
    div_pieces("Network Interfaces"@) + net_rows(
        s.net_interfaces,
        desc_order(iface_names(s.net_interfaces), s.net_interfaces.len()),
    )
}

fn print_iface(out: &mut Vec<Piece>, n: &NetIfaceInfo, first: bool)
    ensures
        frame(final(out)@) == frame(old(out)@) + net_row(n@, first),
{
    let ghost start = frame(old(out)@);
    if !first {
        put_newline(out);
    }
    let mut head = join3(" ", n.name.as_str(), " - ");
    let mac = mac_string(n.mac);
    head.append(mac.as_str());
    head.append("\n");
    put(out, head, Tone::Plain);
    let mut counts = join3("  tx: ", n.tx_bytes.1.as_str(), " - rx: ");
    counts.append(n.rx_bytes.1.as_str());
    counts.append(" \n");
    put(out, counts, Tone::Plain);
    let ghost mid = frame(out@);
    let ghost ips = n@.networks;
    let mut keys: Vec<(bool, u128)> = Vec::new();
    let mut k: usize = 0;
    while k < n.networks.len()
        invariant
            k <= n.networks@.len(),
            keys@.len() == k,
            forall|j: int| 0 <= j < k ==> #[trigger] keys@[j] == (n.networks@[j].v6, n.networks@[j].value),
        decreases n.networks@.len() - k,
    {
        keys.push((n.networks[k].v6, n.networks[k].value));
        k = k + 1;
    }
    assert(keys@ =~= ip_keys(ips));
    let order = order_asc(&keys);
    proof {
        lemma_asc_order_len(ip_keys(ips), ips.len());
    }
    let mut i: usize = 0;
    while i < order.len()
        invariant
            ips == n.networks@.map_values(|a: IpAddress| a@),
            order@ == asc_order(ip_keys(ips), ips.len()),
            order@.len() == n.networks@.len(),
            forall|t: int| 0 <= t < order@.len() ==> (#[trigger] order@[t]) < n.networks@.len(),
            i <= order@.len(),
            frame(out@) == mid + ip_rows(ips, order@.take(i as int)),
        decreases order@.len() - i,
    {
        let a = &n.networks[order[i]];
        assert(ips[order@[i as int] as int] == n.networks@[order@[i as int] as int]@);
        put(out, join3("  IP: ", a.text.as_str(), ","), Tone::Plain);
        assert(order@.take(i + 1).drop_last() =~= order@.take(i as int));
        i = i + 1;
        assert(frame(out@) =~= mid + ip_rows(ips, order@.take(i as int)));
    }
    assert(order@.take(i as int) =~= order@);
    assert(frame(out@) =~= start + net_row(n@, first));
}

/// Appends the network section.
pub fn print_net(out: &mut Vec<Piece>, base: &SystemBase)
    ensures
        frame(final(out)@) == frame(old(out)@) + net_pieces(base@),
{
    let ghost start = frame(old(out)@);
    print_div(out, String::from_str("Network Interfaces"));
    let ghost head = frame(out@);
    let ifaces = base.get_network_interfaces();
    let ghost ns = ifaces@.map_values(|n: NetIfaceInfo| n@);
    let mut names: Vec<String> = Vec::new();
    let mut k: usize = 0;
    while k < ifaces.len()
        invariant
            k <= ifaces@.len(),
            names@.len() == k,
            forall|j: int| 0 <= j < k ==> (#[trigger] names@[j])@ == ifaces@[j].name@,
        decreases ifaces@.len() - k,
    {
        names.push(ifaces[k].name.clone());
        k = k + 1;
    }
    assert(names@.map_values(|s: String| s@) =~= iface_names(ns));
    let order = order_desc(&names);
    proof {
        lemma_desc_order_len(iface_names(ns), ns.len());
    }
    let mut i: usize = 0;
    while i < order.len()
        invariant
            ns == ifaces@.map_values(|n: NetIfaceInfo| n@),
            order@ == desc_order(iface_names(ns), ns.len()),
            order@.len() == ifaces@.len(),
            forall|t: int| 0 <= t < order@.len() ==> (#[trigger] order@[t]) < ifaces@.len(),
            i <= order@.len(),
            frame(out@) == head + net_rows(ns, order@.take(i as int)),
        decreases order@.len() - i,
    {
        assert(ns[order@[i as int] as int] == ifaces@[order@[i as int] as int]@);
        print_iface(out, &ifaces[order[i]], i == 0);
        assert(order@.take(i + 1).drop_last() =~= order@.take(i as int));
        i = i + 1;
        assert(frame(out@) =~= head + net_rows(ns, order@.take(i as int)));
    }
    assert(order@.take(i as int) =~= order@);
    assert(frame(out@) =~= start + net_pieces(base@));
}

/// The whole frame for a snapshot: banner, CPU, memory, thermal (only when
/// there are readings), disks, network, and the exit hint.
pub open spec fn render_pieces(s: Snapshot) -> Seq<PieceModel> {
    seq![PieceModel::Text("overtopr"@, Tone::Banner), newline()] + cpu_pieces(s) + mem_pieces(s)
        + temp_pieces(s.component_temps) + disk_pieces(s) + net_pieces(s) + seq![
        newline(),
        plain("----- Ctrl-C to exit -----\n"@),
    ]
}

/// With no thermal readings the frame has no thermal section at all, not
/// even its header.
pub proof fn lemma_no_thermal_section(s: Snapshot)
    requires
        s.component_temps.len() == 0,
    ensures
        render_pieces(s) == seq![PieceModel::Text("overtopr"@, Tone::Banner), newline()] + cpu_pieces(s)
            + mem_pieces(s) + disk_pieces(s) + net_pieces(s) + seq![
            newline(),
            plain("----- Ctrl-C to exit -----\n"@),
        ],
{
    assert(temp_pieces(s.component_temps) =~= Seq::<PieceModel>::empty());
    let pre = seq![PieceModel::Text("overtopr"@, Tone::Banner), newline()] + cpu_pieces(s) + mem_pieces(s);
    assert(pre + Seq::<PieceModel>::empty() =~= pre);
}

/// Appends the whole frame for the current snapshot.
pub fn print_all(out: &mut Vec<Piece>, base: &SystemBase)
    ensures
        frame(final(out)@) == frame(old(out)@) + render_pieces(base@),
{
    let ghost start = frame(old(out)@);
    put(out, String::from_str("overtopr"), Tone::Banner);
    put_newline(out);
    print_cpu(out, base);
    print_mem(out, base);
    print_temp(out, base);
    print_disk(out, base);
    print_net(out, base);
    put_newline(out);
    put_str(out, "----- Ctrl-C to exit -----\n");
    assert(frame(out@) =~= start + render_pieces(base@));
}

/// One cycle's work on the snapshot: renders it into a fresh frame, then
/// refreshes it from the provider, so that the screen shows the previous
/// data while the next is gathered.
pub fn refresh_and_print<P: MetricProvider>(base: &mut SystemBase, provider: &mut P) -> (r: Vec<Piece>)
    ensures
        frame(r@) == render_pieces(old(base)@),
        exists|rd| final(base)@ == refreshed(old(base)@, rd),
{
    let mut out: Vec<Piece> = Vec::new();
    print_all(&mut out, base);
    assert(frame(out@) =~= render_pieces(old(base)@));
    base.refresh(provider);
    out
}

} // verus!
