//! The graphics-adapter fact: name, driver version, and memory.

use vstd::prelude::*;

use crate::size::human_seq;
use crate::size::human_size;
use crate::strutil::ascii_lower;
use crate::strutil::contains_seq;
use crate::strutil::find_from;
use crate::strutil::find_char;
use crate::strutil::lines_seq;
use crate::strutil::lower_seq;
use crate::strutil::split_lines;
use crate::strutil::starts_with_seq;
use crate::strutil::str_contains;
use crate::strutil::str_trim;
use crate::strutil::trim_seq;

verus! {

/// One graphics adapter. Zero memory and an empty version are left out of
/// the rendering.
#[derive(Debug, Clone)]
pub struct Gpu {
    pub name: String,
    pub version: String,
    pub ram: u32,
}

/// The line the formatter prints for an adapter: the name, the memory in
/// human-readable units when known, and the driver version when known.
pub open spec fn gpu_seq(name: Seq<char>, version: Seq<char>, ram: int) -> Seq<char> {
    name + (if ram > 0 {
        " ("@ + human_seq(ram) + ")"@
    } else {
        Seq::<char>::empty()
    }) + (if version.len() > 0 {
        " @ ("@ + version + ")"@
    } else {
        Seq::<char>::empty()
    })
}

impl Gpu {
    /// Renders the adapter line.
    pub fn render(&self) -> (r: String)
        ensures
            r@ == gpu_seq(self.name@, self.version@, self.ram as int),
    {
        let mut r: String = String::new();
        r.append(self.name.as_str());
        if self.ram > 0 {
            r.append(" (");
            r.append(human_size(self.ram as u64).as_str());
            r.append(")");
        }
        if self.version.as_str().unicode_len() > 0 {
            r.append(" @ (");
            r.append(self.version.as_str());
            r.append(")");
        }
        proof {
            assert(r@ =~= gpu_seq(self.name@, self.version@, self.ram as int));
        }
        r
    }
}

/// What one line of the identifier database is: a vendor heading, a device
/// entry under the current vendor, or neither. Comments and blank lines are
/// neither; a leading tab marks a device entry.
pub open spec fn is_vendor_line(l: Seq<char>) -> bool {
    l.len() > 0 && l[0] != '#' && l[0] != '\t' && find_from(l, ' ', 0) < l.len()
}

pub open spec fn is_device_line(l: Seq<char>) -> bool {
    l.len() > 0 && l[0] == '\t' && find_from(trim_seq(l), ' ', 0) < trim_seq(l).len()
}

/// The identifier and name of a heading or entry line: the trimmed, ASCII
/// lower-cased text before the first space, and the trimmed text after it.
pub open spec fn pci_id_of(l: Seq<char>) -> Seq<char> {
    lower_seq(trim_seq(l.take(find_from(l, ' ', 0))))
}

pub open spec fn pci_name_of(l: Seq<char>) -> Seq<char> {
    trim_seq(l.skip(find_from(l, ' ', 0) + 1))
}

/// The vendor whose section line `i` belongs to: the identifier of the last
/// heading before it.
pub open spec fn cur_vendor(ls: Seq<Seq<char>>, i: int) -> Option<Seq<char>>
    decreases i,
{
    if i <= 0 {
        None
    } else if is_vendor_line(ls[i - 1]) {
        Some(pci_id_of(ls[i - 1]))
    } else {
        cur_vendor(ls, i - 1)
    }
}

/// The vendor names of the first `i` lines: identifier and name per heading.
pub open spec fn vendors_of(ls: Seq<Seq<char>>, i: int) -> Seq<(Seq<char>, Seq<char>)>
    decreases i,
{
    if i <= 0 {
        Seq::empty()
    } else {
        vendors_of(ls, i - 1) + if is_vendor_line(ls[i - 1]) {
            seq![(pci_id_of(ls[i - 1]), pci_name_of(ls[i - 1]))]
        } else {
            Seq::empty()
        }
    }
}

/// The device names of the first `i` lines: vendor and device identifiers
/// and the device name, per entry that stands under a heading. The trimmed
/// entry line carries the identifier and name.
pub open spec fn devices_of(ls: Seq<Seq<char>>, i: int) -> Seq<((Seq<char>, Seq<char>), Seq<char>)>
    decreases i,
{
    if i <= 0 {
        Seq::empty()
    } else {
        devices_of(ls, i - 1) + if is_device_line(ls[i - 1]) && cur_vendor(ls, i - 1) is Some {
            seq![
                (
                    (cur_vendor(ls, i - 1)->Some_0, pci_id_of(trim_seq(ls[i - 1]))),
                    pci_name_of(trim_seq(ls[i - 1])),
                ),
            ]
        } else {
            Seq::empty()
        }
    }
}

/// The parsed identifier database: vendor names and device names.
#[derive(Debug)]
pub struct PciIds {
    pub vendors: Vec<(String, String)>,
    pub devices: Vec<((String, String), String)>,
}

pub open spec fn vendors_view(p: PciIds) -> Seq<(Seq<char>, Seq<char>)> {
    p.vendors@.map_values(|e: (String, String)| (e.0@, e.1@))
}

pub open spec fn devices_view(p: PciIds) -> Seq<((Seq<char>, Seq<char>), Seq<char>)> {
    p.devices@.map_values(|e: ((String, String), String)| ((e.0.0@, e.0.1@), e.1@))
}

fn pci_split(l: &str) -> (r: Option<(String, String)>)
    ensures
        match r {
            Some(p) => find_from(l@, ' ', 0) < l@.len() && p.0@ == pci_id_of(l@) && p.1@
                == pci_name_of(l@),
            None => find_from(l@, ' ', 0) == l@.len(),
        },
{
    let len: usize = l.unicode_len();
    match find_char(l, ' ') {
        Some(j) => {
            let id: String = ascii_lower(str_trim(l.substring_char(0, j)));
            let name: &str = str_trim(l.substring_char(j + 1, len));
            proof {
                assert(l@.subrange(0, j as int) =~= l@.take(find_from(l@, ' ', 0)));
                assert(l@.subrange(j + 1, len as int) =~= l@.skip(find_from(l@, ' ', 0) + 1));
            }
            Some((id, name.to_owned()))
        },
        None => None,
    }
}

/// Parses the identifier database: headings name vendors, tab-led entries
/// name devices of the vendor above them; comments and blank lines are
/// skipped.
pub fn parse_pci_ids(content: &str) -> (r: PciIds)
    ensures
        vendors_view(r) == vendors_of(lines_seq(content@), lines_seq(content@).len() as int),
        devices_view(r) == devices_of(lines_seq(content@), lines_seq(content@).len() as int),
{
    let lines: Vec<String> = split_lines(content);
    let ghost ls = lines_seq(content@);
    let total: usize = lines.len();
    let mut vendors: Vec<(String, String)> = Vec::new();
    let mut devices: Vec<((String, String), String)> = Vec::new();
    let mut cur: Option<String> = None;
    let mut i: usize = 0;
    proof {
        assert(vendors@.map_values(|e: (String, String)| (e.0@, e.1@)) =~= vendors_of(ls, 0));
        assert(devices@.map_values(|e: ((String, String), String)| ((e.0.0@, e.0.1@), e.1@))
            =~= devices_of(ls, 0));
    }
    while i < total
        invariant
            ls == lines_seq(content@),
            lines@.map_values(|t: String| t@) == ls,
            total == ls.len(),
            i <= total,
            vendors@.map_values(|e: (String, String)| (e.0@, e.1@)) == vendors_of(ls, i as int),
            devices@.map_values(|e: ((String, String), String)| ((e.0.0@, e.0.1@), e.1@))
                == devices_of(ls, i as int),
            match cur {
                Some(v) => cur_vendor(ls, i as int) == Some(v@),
                None => cur_vendor(ls, i as int) is None,
            },
        decreases total - i,
    {
        let line: &str = lines[i].as_str();
        let len: usize = line.unicode_len();
        if len == 0 || line.get_char(0) == '#' {
            proof {
                assert(vendors@.map_values(|e: (String, String)| (e.0@, e.1@)) =~= vendors_of(
                    ls,
                    i + 1,
                ));
                assert(devices@.map_values(
                    |e: ((String, String), String)| ((e.0.0@, e.0.1@), e.1@),
                ) =~= devices_of(ls, i + 1));
            }
        } else if line.get_char(0) != '\t' {
            match pci_split(line) {
                Some(p) => {
                    cur = Some(p.0.clone());
                    vendors.push(p);
                    proof {
                        assert(vendors@.map_values(|e: (String, String)| (e.0@, e.1@))
                            =~= vendors_of(ls, i + 1));
                        assert(devices@.map_values(
                            |e: ((String, String), String)| ((e.0.0@, e.0.1@), e.1@),
                        ) =~= devices_of(ls, i + 1));
                    }
                },
                None => {
                    proof {
                        assert(vendors@.map_values(|e: (String, String)| (e.0@, e.1@))
                            =~= vendors_of(ls, i + 1));
                        assert(devices@.map_values(
                            |e: ((String, String), String)| ((e.0.0@, e.0.1@), e.1@),
                        ) =~= devices_of(ls, i + 1));
                    }
                },
            }
        } else {
            let trimmed: &str = str_trim(line);
            match (pci_split(trimmed), &cur) {
                (Some(p), Some(v)) => {
                    devices.push(((v.clone(), p.0), p.1));
                    proof {
                        assert(vendors@.map_values(|e: (String, String)| (e.0@, e.1@))
                            =~= vendors_of(ls, i + 1));
                        assert(devices@.map_values(
                            |e: ((String, String), String)| ((e.0.0@, e.0.1@), e.1@),
                        ) =~= devices_of(ls, i + 1));
                    }
                },
                _ => {
                    proof {
                        assert(vendors@.map_values(|e: (String, String)| (e.0@, e.1@))
                            =~= vendors_of(ls, i + 1));
                        assert(devices@.map_values(
                            |e: ((String, String), String)| ((e.0.0@, e.0.1@), e.1@),
                        ) =~= devices_of(ls, i + 1));
                    }
                },
            }
        }
        i = i + 1;
    }
    PciIds { vendors, devices }
}

/// The value of the last vendor entry with the given identifier.
pub open spec fn vendor_lookup(es: Seq<(Seq<char>, Seq<char>)>, id: Seq<char>) -> Option<
    Seq<char>,
>
    decreases es.len(),
{
    if es.len() == 0 {
        None
    } else if es.last().0 == id {
        Some(es.last().1)
    } else {
        vendor_lookup(es.drop_last(), id)
    }
}

/// The value of the last device entry with the given identifier pair.
pub open spec fn device_lookup(
    es: Seq<((Seq<char>, Seq<char>), Seq<char>)>,
    v: Seq<char>,
    d: Seq<char>,
) -> Option<Seq<char>>
    decreases es.len(),
{
    if es.len() == 0 {
        None
    } else if es.last().0.0 == v && es.last().0.1 == d {
        Some(es.last().1)
    } else {
        device_lookup(es.drop_last(), v, d)
    }
}

fn vendor_get<'a>(p: &'a PciIds, id: &str) -> (r: Option<&'a String>)
    ensures
        match r {
            Some(v) => vendor_lookup(vendors_view(*p), id@) == Some(v@),
            None => vendor_lookup(vendors_view(*p), id@) is None,
        },
{
    let ghost es = vendors_view(*p);
    let mut i: usize = p.vendors.len();
    proof {
        assert(es.take(i as int) =~= es);
    }
    while i > 0
        invariant
            es == vendors_view(*p),
            i <= p.vendors@.len(),
            es.len() == p.vendors@.len(),
            vendor_lookup(es, id@) == vendor_lookup(es.take(i as int), id@),
        decreases i,
    {
        i = i - 1;
        proof {
            assert(es.take(i + 1).drop_last() =~= es.take(i as int));
            assert(es.take(i + 1).last() == es[i as int]);
        }
        if crate::strutil::str_eq(p.vendors[i].0.as_str(), id) {
            return Some(&p.vendors[i].1);
        }
    }
    proof {
        assert(es.take(0) =~= Seq::<(Seq<char>, Seq<char>)>::empty());
    }
    None
}

fn device_get<'a>(p: &'a PciIds, v: &str, d: &str) -> (r: Option<&'a String>)
    ensures
        match r {
            Some(n) => device_lookup(devices_view(*p), v@, d@) == Some(n@),
            None => device_lookup(devices_view(*p), v@, d@) is None,
        },
{
    let ghost es = devices_view(*p);
    let mut i: usize = p.devices.len();
    proof {
        assert(es.take(i as int) =~= es);
    }
    while i > 0
        invariant
            es == devices_view(*p),
            i <= p.devices@.len(),
            es.len() == p.devices@.len(),
            device_lookup(es, v@, d@) == device_lookup(es.take(i as int), v@, d@),
        decreases i,
    {
        i = i - 1;
        proof {
            assert(es.take(i + 1).drop_last() =~= es.take(i as int));
            assert(es.take(i + 1).last() == es[i as int]);
        }
        if crate::strutil::str_eq(p.devices[i].0.0.as_str(), v) && crate::strutil::str_eq(
            p.devices[i].0.1.as_str(),
            d,
        ) {
            return Some(&p.devices[i].1);
        }
    }
    proof {
        assert(es.take(0) =~= Seq::<((Seq<char>, Seq<char>), Seq<char>)>::empty());
    }
    None
}

/// `s` without any leading `0x` marks, trimmed and ASCII lower-cased — the
/// normal form of a raw identifier read from the device tree.
pub open spec fn norm_id(s: Seq<char>) -> Seq<char>
    decreases s.len(),
{
    if starts_with_seq(s, "0x"@) && s.len() >= 2 {
        norm_id(s.skip(2))
    } else {
        lower_seq(trim_seq(s))
    }
}

/// Normalizes a raw identifier: strips its `0x` marks, trims it and
/// lower-cases it.
pub fn normalize_pci_id(s: &str) -> (r: String)
    ensures
        r@ == norm_id(s@),
    decreases s@.len(),
{
    proof {
        reveal_strlit("0x");
    }
    let len: usize = s.unicode_len();
    if len >= 2 && s.get_char(0) == '0' && s.get_char(1) == 'x' {
        proof {
            assert(s@.subrange(0, 2) =~= "0x"@);
            assert(s@.subrange(2, len as int) =~= s@.skip(2));
        }
        normalize_pci_id(s.substring_char(2, len))
    } else {
        proof {
            if starts_with_seq(s@, "0x"@) && s@.len() >= 2 {
                assert(s@.subrange(0, 2)[0] == '0' && s@.subrange(0, 2)[1] == 'x');
                assert(false);
            }
        }
        ascii_lower(str_trim(s))
    }
}

/// Whether a device name marks a graphics device.
pub open spec fn is_graphics_name(n: Seq<char>) -> bool {
    contains_seq(n, "Display"@) || contains_seq(n, "3D"@) || contains_seq(n, "VGA"@)
}

/// The adapters that the identifier pairs name, in order: the pairs whose
/// vendor and device both have names and whose device name marks graphics.
pub open spec fn gpus_of(
    ids: PciIds,
    cards: Seq<(Seq<char>, Seq<char>)>,
    i: int,
) -> Seq<(Seq<char>, Seq<char>)>
    decreases i,
{
    if i <= 0 {
        Seq::empty()
    } else {
        gpus_of(ids, cards, i - 1) + {
            let v = norm_id(cards[i - 1].0);
            let d = norm_id(cards[i - 1].1);
            match (vendor_lookup(vendors_view(ids), v), device_lookup(devices_view(ids), v, d)) {
                (Some(vn), Some(dn)) => if is_graphics_name(dn) {
                    seq![(vn, dn)]
                } else {
                    Seq::empty()
                },
                _ => Seq::empty(),
            }
        }
    }
}

/// Resolves raw vendor/device identifier pairs against the identifier
/// database: each pair both of whose identifiers are known and whose device
/// name marks a graphics device becomes one adapter, the vendor name as its
/// name and the device name as its version; memory stays unknown.
pub fn gpus_from_pci(ids: &PciIds, cards: &Vec<(String, String)>) -> (r: Vec<Gpu>)
    ensures
        r@.map_values(|g: Gpu| (g.name@, g.version@)) == gpus_of(
            *ids,
            cards@.map_values(|c: (String, String)| (c.0@, c.1@)),
            cards@.len() as int,
        ),
        forall|k: int| 0 <= k < r@.len() ==> (#[trigger] r@[k]).ram == 0,
{
    let ghost cs = cards@.map_values(|c: (String, String)| (c.0@, c.1@));
    let n: usize = cards.len();
    let mut out: Vec<Gpu> = Vec::new();
    let mut i: usize = 0;
    proof {
        assert(out@.map_values(|g: Gpu| (g.name@, g.version@)) =~= gpus_of(*ids, cs, 0));
    }
    while i < n
        invariant
            cs == cards@.map_values(|c: (String, String)| (c.0@, c.1@)),
            n == cards@.len(),
            i <= n,
            out@.map_values(|g: Gpu| (g.name@, g.version@)) == gpus_of(*ids, cs, i as int),
            forall|k: int| 0 <= k < out@.len() ==> (#[trigger] out@[k]).ram == 0,
        decreases n - i,
    {
        proof {
            assert(cs[i as int] == (cards@[i as int].0@, cards@[i as int].1@));
        }
        let v: String = normalize_pci_id(cards[i].0.as_str());
        let d: String = normalize_pci_id(cards[i].1.as_str());
        match (vendor_get(ids, v.as_str()), device_get(ids, v.as_str(), d.as_str())) {
            (Some(vn), Some(dn)) => {
                if str_contains(dn.as_str(), "Display") || str_contains(dn.as_str(), "3D")
                    || str_contains(dn.as_str(), "VGA") {
                    let g: Gpu = Gpu { name: vn.clone(), version: dn.clone(), ram: 0 };
                    out.push(g);
                    proof {
                        assert(out@.map_values(|g: Gpu| (g.name@, g.version@)) =~= gpus_of(
                            *ids,
                            cs,
                            i + 1,
                        ));
                    }
                } else {
                    proof {
                        assert(out@.map_values(|g: Gpu| (g.name@, g.version@)) =~= gpus_of(
                            *ids,
                            cs,
                            i + 1,
                        ));
                    }
                }
            },
            _ => {
                proof {
                    assert(out@.map_values(|g: Gpu| (g.name@, g.version@)) =~= gpus_of(
                        *ids,
                        cs,
                        i + 1,
                    ));
                }
            },
        }
        i = i + 1;
    }
    out
}

} // verus!
