//! The network fact: one entry per interface, with addresses and state.

use vstd::prelude::*;

use crate::strutil::contains_seq;
use crate::strutil::find_from;
use crate::strutil::find_sub_from;
use crate::strutil::find_char;
use crate::strutil::first_token;
use crate::strutil::lines_seq;
use crate::strutil::split_lines;
use crate::strutil::split_tokens;
use crate::strutil::str_contains;
use crate::strutil::str_find;
use crate::strutil::str_first_token;
use crate::strutil::str_trim;
use crate::strutil::tokens_of;
use crate::strutil::trim_end_char_seq;
use crate::strutil::trim_seq;

verus! {

/// One network interface.
#[derive(Debug)]
pub struct NetworkInfo {
    pub interface_name: String,
    pub ipv4_address: Option<String>,
    pub ipv6_address: Option<String>,
    pub mac_address: Option<String>,
    pub is_up: bool,
}

fn clone_opt_string(o: &Option<String>) -> (r: Option<String>)
    ensures
        r == *o,
{
    match o {
        Some(s) => Some(s.clone()),
        None => None,
    }
}

impl Clone for NetworkInfo {
    /// An exact copy of the interface entry.
    fn clone(&self) -> (r: Self)
        ensures
            r == *self,
    {
        NetworkInfo {
            interface_name: self.interface_name.clone(),
            ipv4_address: clone_opt_string(&self.ipv4_address),
            ipv6_address: clone_opt_string(&self.ipv6_address),
            mac_address: clone_opt_string(&self.mac_address),
            is_up: self.is_up,
        }
    }
}

/// Whether an interface counts as active: it is up and has an IPv4 address.
pub open spec fn is_active(n: NetworkInfo) -> bool {
    n.is_up && n.ipv4_address is Some
}

/// The line the formatter prints for one interface: name, state, and the
/// addresses that are known.
pub open spec fn network_seq(n: NetworkInfo) -> Seq<char> {
    n.interface_name@ + " ("@ + (if n.is_up {
        "UP"@
    } else {
        "DOWN"@
    }) + ")"@ + (match n.ipv4_address {
        Some(ip) => " IPv4: "@ + ip@,
        None => Seq::<char>::empty(),
    }) + (match n.mac_address {
        Some(mac) => " MAC: "@ + mac@,
        None => Seq::<char>::empty(),
    })
}

impl NetworkInfo {
    /// Renders the interface line.
    pub fn render(&self) -> (r: String)
        ensures
            r@ == network_seq(*self),
    {
        let mut r: String = String::new();
        r.append(self.interface_name.as_str());
        r.append(" (");
        if self.is_up {
            r.append("UP");
        } else {
            r.append("DOWN");
        }
        r.append(")");
        match &self.ipv4_address {
            Some(ip) => {
                r.append(" IPv4: ");
                r.append(ip.as_str());
            },
            None => {},
        }
        match &self.mac_address {
            Some(mac) => {
                r.append(" MAC: ");
                r.append(mac.as_str());
            },
            None => {},
        }
        proof {
            assert(r@ =~= network_seq(*self));
        }
        r
    }
}

/// The active interfaces among `s`, in their input order.
pub open spec fn active_of(s: Seq<NetworkInfo>) -> Seq<NetworkInfo>
    decreases s.len(),
{
    if s.len() == 0 {
        Seq::empty()
    } else {
        active_of(s.drop_last()) + if is_active(s.last()) {
            seq![s.last()]
        } else {
            Seq::empty()
        }
    }
}

/// Keeps only the active interfaces: those that are up and have an IPv4
/// address, in their input order.
pub fn filter_active(v: &Vec<NetworkInfo>) -> (r: Vec<NetworkInfo>)
    ensures
        r@ == active_of(v@),
{
    let mut out: Vec<NetworkInfo> = Vec::new();
    let n: usize = v.len();
    let mut i: usize = 0;
    proof {
        assert(v@.take(0) =~= Seq::<NetworkInfo>::empty());
    }
    while i < n
        invariant
            n == v@.len(),
            i <= n,
            out@ == active_of(v@.take(i as int)),
        decreases n - i,
    {
        proof {
            assert(v@.take(i + 1).drop_last() =~= v@.take(i as int));
            assert(v@.take(i + 1).last() == v@[i as int]);
        }
        let x: &NetworkInfo = &v[i];
        if x.is_up && x.ipv4_address.is_some() {
            out.push(x.clone());
            proof {
                assert(out@ =~= active_of(v@.take(i + 1)));
            }
        } else {
            proof {
                assert(out@ =~= active_of(v@.take(i + 1)));
            }
        }
        i = i + 1;
    }
    proof {
        assert(v@.take(n as int) =~= v@);
    }
    out
}

/// The view of an interface entry: every field as plain values.
pub open spec fn ni_view(n: NetworkInfo) -> (
    Seq<char>,
    Option<Seq<char>>,
    Option<Seq<char>>,
    Option<Seq<char>>,
    bool,
) {
    (n.interface_name@, opt_view(n.ipv4_address), opt_view(n.ipv6_address), opt_view(
        n.mac_address,
    ), n.is_up)
}

pub open spec fn opt_view(o: Option<String>) -> Option<Seq<char>> {
    match o {
        Some(s) => Some(s@),
        None => None,
    }
}

/// The address part of one token: what stands before any slash, once a
/// trailing comma is stripped.
pub open spec fn addr_of(t: Seq<char>) -> Seq<char> {
    let c = trim_end_char_seq(t, ',');
    c.take(find_from(c, '/', 0))
}

/// The last IPv4-looking address among the tokens before `i`: it holds a
/// dot and no colon.
pub open spec fn last_v4(tk: Seq<Seq<char>>, i: int) -> Option<Seq<char>>
    decreases i,
{
    if i <= 2 {
        None
    } else {
        let a = addr_of(tk[i - 1]);
        if !contains_seq(a, ":"@) && contains_seq(a, "."@) {
            Some(a)
        } else {
            last_v4(tk, i - 1)
        }
    }
}

/// The last IPv6-looking address among the tokens before `i`: it holds a
/// colon.
pub open spec fn last_v6(tk: Seq<Seq<char>>, i: int) -> Option<Seq<char>>
    decreases i,
{
    if i <= 2 {
        None
    } else {
        let a = addr_of(tk[i - 1]);
        if contains_seq(a, ":"@) {
            Some(a)
        } else {
            last_v6(tk, i - 1)
        }
    }
}

/// The interface entry one status line yields, where the line has at least
/// a name, a state and an address column: the name, the addresses, no
/// hardware address, and whether the state column says up.
pub open spec fn line_entry(line: Seq<char>) -> Option<
    (Seq<char>, Option<Seq<char>>, Option<Seq<char>>, Option<Seq<char>>, bool),
> {
    let tk = tokens_of(line);
    if tk.len() >= 3 {
        Some(
            (
                tk[0],
                last_v4(tk, tk.len() as int),
                last_v6(tk, tk.len() as int),
                None,
                contains_seq(tk[1], "UP"@),
            ),
        )
    } else {
        None
    }
}

/// The entries of the first `i` lines of interface-status output.
pub open spec fn net_entries(ls: Seq<Seq<char>>, i: int) -> Seq<
    (Seq<char>, Option<Seq<char>>, Option<Seq<char>>, Option<Seq<char>>, bool),
>
    decreases i,
{
    if i <= 0 {
        Seq::empty()
    } else {
        net_entries(ls, i - 1) + (match line_entry(ls[i - 1]) {
            Some(e) => seq![e],
            None => Seq::empty(),
        })
    }
}

fn str_trim_end_char(s: &str, c: char) -> (r: &str)
    ensures
        r@ == trim_end_char_seq(s@, c),
{
    let len: usize = s.unicode_len();
    let mut end: usize = len;
    proof {
        assert(s@.subrange(0, len as int) =~= s@);
    }
    while end > 0 && s.get_char(end - 1) == c
        invariant
            len == s@.len(),
            end <= len,
            trim_end_char_seq(s@, c) == trim_end_char_seq(s@.subrange(0, end as int), c),
        decreases end,
    {
        proof {
            assert(s@.subrange(0, end as int).drop_last() =~= s@.subrange(0, end - 1));
        }
        end = end - 1;
    }
    proof {
        if end > 0 {
            assert(trim_end_char_seq(s@.subrange(0, end as int), c) == s@.subrange(0, end as int));
        } else {
            assert(s@.subrange(0, 0) =~= Seq::<char>::empty());
        }
    }
    s.substring_char(0, end)
}

fn addr_of_exec(t: &str) -> (r: String)
    ensures
        r@ == addr_of(t@),
{
    let c: &str = str_trim_end_char(t, ',');
    let clen: usize = c.unicode_len();
    let cut: usize = match find_char(c, '/') {
        Some(i) => i,
        None => clen,
    };
    proof {
        assert(c@.subrange(0, cut as int) =~= c@.take(find_from(c@, '/', 0)));
    }
    c.substring_char(0, cut).to_owned()
}

/// Parses interface-status output, one interface per line: the name column,
/// whether the state column says up, and the last address of each family.
/// Lines with fewer than three columns are skipped.
pub fn parse_ip_brief(output: &str) -> (r: Vec<NetworkInfo>)
    ensures
        r@.map_values(|n: NetworkInfo| ni_view(n)) == net_entries(
            lines_seq(output@),
            lines_seq(output@).len() as int,
        ),
{
    let lines: Vec<String> = split_lines(output);
    let ghost ls = lines_seq(output@);
    let total: usize = lines.len();
    let mut out: Vec<NetworkInfo> = Vec::new();
    let mut i: usize = 0;
    proof {
        assert(out@.map_values(|n: NetworkInfo| ni_view(n)) =~= net_entries(ls, 0));
    }
    while i < total
        invariant
            ls == lines_seq(output@),
            lines@.map_values(|t: String| t@) == ls,
            total == ls.len(),
            i <= total,
            out@.map_values(|n: NetworkInfo| ni_view(n)) == net_entries(ls, i as int),
        decreases total - i,
    {
        let tokens: Vec<String> = split_tokens(lines[i].as_str());
        let ghost tk = tokens_of(ls[i as int]);
        let n: usize = tokens.len();
        if n >= 3 {
            let is_up: bool = str_contains(tokens[1].as_str(), "UP");
            let mut ipv4: Option<String> = None;
            let mut ipv6: Option<String> = None;
            let mut j: usize = 2;
            while j < n
                invariant
                    tokens@.map_values(|t: String| t@) == tk,
                    n == tk.len(),
                    2 <= j <= n,
                    opt_view(ipv4) == last_v4(tk, j as int),
                    opt_view(ipv6) == last_v6(tk, j as int),
                decreases n - j,
            {
                let a: String = addr_of_exec(tokens[j].as_str());
                if str_contains(a.as_str(), ":") {
                    ipv6 = Some(a);
                } else if str_contains(a.as_str(), ".") {
                    ipv4 = Some(a);
                }
                j = j + 1;
            }
            let entry: NetworkInfo = NetworkInfo {
                interface_name: tokens[0].clone(),
                ipv4_address: ipv4,
                ipv6_address: ipv6,
                mac_address: None,
                is_up,
            };
            out.push(entry);
            proof {
                assert(out@.map_values(|n2: NetworkInfo| ni_view(n2)) =~= net_entries(ls, i + 1));
            }
        } else {
            proof {
                assert(out@.map_values(|n2: NetworkInfo| ni_view(n2)) =~= net_entries(ls, i + 1));
            }
        }
        i = i + 1;
    }
    out
}

/// Whether a line of interface-listing output opens a new interface: it is
/// not indented.
pub open spec fn if_header(l: Seq<char>) -> bool {
    l.len() == 0 || (l[0] != ' ' && l[0] != '\t')
}

/// The name a header line carries: what stands before its first colon,
/// trimmed.
pub open spec fn if_name(l: Seq<char>) -> Seq<char> {
    trim_seq(l.take(find_from(l, ':', 0)))
}

/// The address a detail line sets for a field marker: the first token after
/// the marker's first occurrence, where the line holds the marker and a
/// token follows it.
pub open spec fn marker_value(l: Seq<char>, marker: Seq<char>) -> Option<Seq<char>> {
    let i = find_sub_from(l, marker, 0);
    if i < l.len() {
        let tok = first_token(l.skip(i + marker.len()));
        if tok.len() > 0 {
            Some(tok)
        } else {
            None
        }
    } else {
        None
    }
}

/// Whether a detail line sets the IPv4 address: it holds `inet ` and not
/// `inet6`.
pub open spec fn sets_v4(l: Seq<char>) -> bool {
    contains_seq(l, "inet "@) && !contains_seq(l, "inet6"@) && marker_value(l, "inet "@) is Some
}

pub open spec fn sets_v6(l: Seq<char>) -> bool {
    !(contains_seq(l, "inet "@) && !contains_seq(l, "inet6"@)) && contains_seq(l, "inet6 "@)
        && marker_value(l, "inet6 "@) is Some
}

pub open spec fn sets_mac(l: Seq<char>) -> bool {
    !(contains_seq(l, "inet "@) && !contains_seq(l, "inet6"@)) && !contains_seq(l, "inet6 "@)
        && contains_seq(l, "ether "@) && marker_value(l, "ether "@) is Some
}

/// The IPv4 address the detail lines in `(j, k)` leave behind: the last one
/// set.
pub open spec fn if_v4(ls: Seq<Seq<char>>, j: int, k: int) -> Option<Seq<char>>
    decreases k - j,
{
    if k <= j + 1 {
        None
    } else if sets_v4(ls[k - 1]) {
        marker_value(ls[k - 1], "inet "@)
    } else {
        if_v4(ls, j, k - 1)
    }
}

pub open spec fn if_v6(ls: Seq<Seq<char>>, j: int, k: int) -> Option<Seq<char>>
    decreases k - j,
{
    if k <= j + 1 {
        None
    } else if sets_v6(ls[k - 1]) {
        marker_value(ls[k - 1], "inet6 "@)
    } else {
        if_v6(ls, j, k - 1)
    }
}

pub open spec fn if_mac(ls: Seq<Seq<char>>, j: int, k: int) -> Option<Seq<char>>
    decreases k - j,
{
    if k <= j + 1 {
        None
    } else if sets_mac(ls[k - 1]) {
        marker_value(ls[k - 1], "ether "@)
    } else {
        if_mac(ls, j, k - 1)
    }
}

/// The interface that header line `j` and its detail lines up to `k` give.
pub open spec fn if_entry(ls: Seq<Seq<char>>, j: int, k: int) -> (
    Seq<char>,
    Option<Seq<char>>,
    Option<Seq<char>>,
    Option<Seq<char>>,
    bool,
) {
    (
        if_name(ls[j]),
        if_v4(ls, j, k),
        if_v6(ls, j, k),
        if_mac(ls, j, k),
        contains_seq(ls[j], "UP"@),
    )
}

/// The index of the last header line strictly before `i`.
pub open spec fn prev_header(ls: Seq<Seq<char>>, i: int) -> Option<int>
    decreases i,
{
    if i <= 0 {
        None
    } else if if_header(ls[i - 1]) {
        Some(i - 1)
    } else {
        prev_header(ls, i - 1)
    }
}

/// The interfaces completed strictly before line `i`: one per header line
/// that another header has closed.
pub open spec fn if_entries(ls: Seq<Seq<char>>, i: int) -> Seq<
    (Seq<char>, Option<Seq<char>>, Option<Seq<char>>, Option<Seq<char>>, bool),
>
    decreases i,
{
    if i <= 0 {
        Seq::empty()
    } else {
        if_entries(ls, i - 1) + if if_header(ls[i - 1]) && prev_header(ls, i - 1) is Some {
            seq![if_entry(ls, prev_header(ls, i - 1)->Some_0, i - 1)]
        } else {
            Seq::empty()
        }
    }
}

/// All the interfaces the output lists: those closed by a later header, and
/// the one the last header leaves open.
pub open spec fn ifconfig_entries(ls: Seq<Seq<char>>) -> Seq<
    (Seq<char>, Option<Seq<char>>, Option<Seq<char>>, Option<Seq<char>>, bool),
> {
    if_entries(ls, ls.len() as int) + if prev_header(ls, ls.len() as int) is Some {
        seq![if_entry(ls, prev_header(ls, ls.len() as int)->Some_0, ls.len() as int)]
    } else {
        Seq::empty()
    }
}

proof fn lemma_prev_header_bounds(ls: Seq<Seq<char>>, i: int)
    requires
        prev_header(ls, i) is Some,
    ensures
        0 <= prev_header(ls, i)->Some_0 < i,
    decreases i,
{
    if i > 0 && !if_header(ls[i - 1]) {
        lemma_prev_header_bounds(ls, i - 1);
    }
}

fn marker_value_exec(l: &str, marker: &str) -> (r: Option<String>)
    requires
        marker@.len() > 0,
    ensures
        match r {
            Some(v) => marker_value(l@, marker@) == Some(v@),
            None => marker_value(l@, marker@) is None,
        },
{
    let len: usize = l.unicode_len();
    let mlen: usize = marker.unicode_len();
    match str_find(l, marker) {
        Some(i) => {
            let rest: &str = l.substring_char(i + mlen, len);
            proof {
                assert(l@.subrange(i + mlen, len as int) =~= l@.skip(
                    find_sub_from(l@, marker@, 0) + marker@.len(),
                ));
            }
            let tok: &str = str_first_token(rest);
            if tok.unicode_len() > 0 {
                Some(tok.to_owned())
            } else {
                None
            }
        },
        None => None,
    }
}

/// Parses interface-listing output of the older, indented form: a line
/// without indentation opens an interface — its name stands before the
/// colon and its state is up when the line says `UP` — and the indented
/// lines after it set the addresses, the last value of each field winning.
pub fn parse_ifconfig(output: &str) -> (r: Vec<NetworkInfo>)
    ensures
        r@.map_values(|n: NetworkInfo| ni_view(n)) == ifconfig_entries(lines_seq(output@)),
{
    let lines: Vec<String> = split_lines(output);
    let ghost ls = lines_seq(output@);
    let total: usize = lines.len();
    let mut out: Vec<NetworkInfo> = Vec::new();
    let mut cur: Option<NetworkInfo> = None;
    let ghost mut hdr: int = 0;
    let mut i: usize = 0;
    proof {
        assert(out@.map_values(|n: NetworkInfo| ni_view(n)) =~= if_entries(ls, 0));
        reveal_strlit("inet ");
        reveal_strlit("inet6");
        reveal_strlit("inet6 ");
        reveal_strlit("ether ");
    }
    while i < total
        invariant
            ls == lines_seq(output@),
            lines@.map_values(|t: String| t@) == ls,
            total == ls.len(),
            i <= total,
            "inet "@.len() > 0 && "inet6 "@.len() > 0 && "ether "@.len() > 0,
            out@.map_values(|n: NetworkInfo| ni_view(n)) == if_entries(ls, i as int),
            match cur {
                Some(c) => prev_header(ls, i as int) == Some(hdr) && ni_view(c) == if_entry(
                    ls,
                    hdr,
                    i as int,
                ),
                None => prev_header(ls, i as int) is None,
            },
        decreases total - i,
    {
        let line: &str = lines[i].as_str();
        let len: usize = line.unicode_len();
        let is_hdr: bool = if len == 0 {
            true
        } else {
            let c: char = line.get_char(0);
            c != ' ' && c != '\t'
        };
        if is_hdr {
            let ghost prev_out = out@.map_values(|n: NetworkInfo| ni_view(n));
            match cur {
                Some(c) => {
                    out.push(c);
                    proof {
                        assert(out@.map_values(|n: NetworkInfo| ni_view(n)) =~= prev_out.push(
                            if_entry(ls, hdr, i as int),
                        ));
                        assert(out@.map_values(|n: NetworkInfo| ni_view(n)) =~= if_entries(
                            ls,
                            i + 1,
                        ));
                    }
                },
                None => {
                    proof {
                        assert(out@.map_values(|n: NetworkInfo| ni_view(n)) =~= if_entries(
                            ls,
                            i + 1,
                        ));
                    }
                },
            }
            let cut: usize = match find_char(line, ':') {
                Some(j) => j,
                None => len,
            };
            let name: &str = str_trim(line.substring_char(0, cut));
            proof {
                assert(line@.subrange(0, cut as int) =~= line@.take(find_from(line@, ':', 0)));
            }
            let is_up: bool = str_contains(line, "UP");
            cur = Some(
                NetworkInfo {
                    interface_name: name.to_owned(),
                    ipv4_address: None,
                    ipv6_address: None,
                    mac_address: None,
                    is_up,
                },
            );
            proof {
                hdr = i as int;
                assert(if_header(ls[i as int]));
                assert(prev_header(ls, i + 1) == Some(i as int));
                assert(if_v4(ls, i as int, i + 1) is None);
                assert(cur matches Some(c2) && ni_view(c2) == if_entry(ls, i as int, i + 1));
            }
        } else {
            proof {
                if prev_header(ls, i as int) is Some {
                    lemma_prev_header_bounds(ls, i as int);
                }
            }
            match &mut cur {
                Some(c) => {
                    let has4: bool = str_contains(line, "inet ") && !str_contains(line, "inet6");
                    let has6: bool = !has4 && str_contains(line, "inet6 ");
                    let hasmac: bool = !has4 && !has6 && str_contains(line, "ether ");
                    if has4 {
                        match marker_value_exec(line, "inet ") {
                            Some(v) => {
                                c.ipv4_address = Some(v);
                            },
                            None => {},
                        }
                    } else if has6 {
                        match marker_value_exec(line, "inet6 ") {
                            Some(v) => {
                                c.ipv6_address = Some(v);
                            },
                            None => {},
                        }
                    } else if hasmac {
                        match marker_value_exec(line, "ether ") {
                            Some(v) => {
                                c.mac_address = Some(v);
                            },
                            None => {},
                        }
                    }
                    proof {
                        assert(!if_header(ls[i as int]));
                        assert(prev_header(ls, i + 1) == Some(hdr));
                        assert(ni_view(*c) == if_entry(ls, hdr, i + 1));
                        assert(out@.map_values(|n: NetworkInfo| ni_view(n)) =~= if_entries(
                            ls,
                            i + 1,
                        ));
                    }
                },
                None => {
                    proof {
                        assert(out@.map_values(|n: NetworkInfo| ni_view(n)) =~= if_entries(
                            ls,
                            i + 1,
                        ));
                    }
                },
            }
        }
        i = i + 1;
    }
    match cur {
        Some(c) => {
            let ghost prev_out = out@.map_values(|n: NetworkInfo| ni_view(n));
            out.push(c);
            proof {
                assert(out@.map_values(|n: NetworkInfo| ni_view(n)) =~= prev_out.push(
                    if_entry(ls, hdr, total as int),
                ));
                assert(out@.map_values(|n: NetworkInfo| ni_view(n)) =~= ifconfig_entries(ls));
            }
        },
        None => {
            proof {
                assert(out@.map_values(|n: NetworkInfo| ni_view(n)) =~= ifconfig_entries(ls));
            }
        },
    }
    out
}

} // verus!
