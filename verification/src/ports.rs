//! Port mappings and their one-line notation.

use crate::decimal::{decimal_nat, unsigned_to_decimal};
use vstd::prelude::*;
use vstd::string::StringExecFns;

verus! {

/// One port of a container, as the daemon reports it.
///
/// Every field may be missing: a container can expose a port without
/// binding it on the host.
#[derive(Debug, Clone, PartialEq, Eq)]
pub struct PortMapping {
    /// Host address the port is bound to.
    pub ip: Option<String>,
    /// Port inside the container.
    pub private_port: Option<u16>,
    /// Port on the host.
    pub public_port: Option<u16>,
    /// Protocol, such as `tcp` or `udp`.
    pub port_type: Option<String>,
}

/// The mathematical content of a [`PortMapping`].
pub struct PortMappingView {
    pub ip: Option<Seq<char>>,
    pub private_port: Option<u16>,
    pub public_port: Option<u16>,
    pub port_type: Option<Seq<char>>,
}

impl View for PortMapping {
    type V = PortMappingView;

    open spec fn view(&self) -> PortMappingView {
        PortMappingView {
            ip: match self.ip {
                Some(s) => Some(s@),
                None => None,
            },
            private_port: self.private_port,
            public_port: self.public_port,
            port_type: match self.port_type {
                Some(s) => Some(s@),
                None => None,
            },
        }
    }
}

/// The views of a list of port mappings, in order.
pub open spec fn port_views(ports: Seq<PortMapping>) -> Seq<PortMappingView> {
    Seq::new(ports.len(), |i: int| ports[i]@)
}

/// A missing text counts as the empty text.
pub open spec fn text_or_empty(text: Option<Seq<char>>) -> Seq<char> {
    match text {
        Some(s) => s,
        None => Seq::empty(),
    }
}

/// A missing port counts as port 0.
pub open spec fn port_or_zero(port: Option<u16>) -> nat {
    match port {
        Some(p) => p as nat,
        None => 0,
    }
}

/// Whether the short notation leaves the host port out: the two ports are
/// the same number, or only the container's port is known.
pub open spec fn host_port_elided(p: PortMappingView) -> bool {
    ||| port_or_zero(p.private_port) == port_or_zero(p.public_port)
    ||| (p.private_port is Some && p.public_port is None)
}

/// The short notation: `<private>/<type>` where the host port is elided,
/// `<private>-><public>/<type>` otherwise.
pub open spec fn short_port_entry(p: PortMappingView) -> Seq<char> {
    if host_port_elided(p) {
        decimal_nat(port_or_zero(p.private_port)) + seq!['/'] + text_or_empty(p.port_type)
    } else {
        decimal_nat(port_or_zero(p.private_port)) + seq!['-', '>'] + decimal_nat(
            port_or_zero(p.public_port),
        ) + seq!['/'] + text_or_empty(p.port_type)
    }
}

/// The full notation: always `<ip>:<private>-><public>/<type>`.
pub open spec fn full_port_entry(p: PortMappingView) -> Seq<char> {
    text_or_empty(p.ip) + seq![':'] + decimal_nat(port_or_zero(p.private_port)) + seq!['-', '>']
        + decimal_nat(port_or_zero(p.public_port)) + seq!['/'] + text_or_empty(p.port_type)
}

/// The notation of one mapping: short when `truncate` is set, full otherwise.
pub open spec fn port_entry(p: PortMappingView, truncate: bool) -> Seq<char> {
    if truncate {
        short_port_entry(p)
    } else {
        full_port_entry(p)
    }
}

/// The entries of `ports`, in order, with `", "` between neighbours.
pub open spec fn ports_text(ports: Seq<PortMappingView>, truncate: bool) -> Seq<char>
    decreases ports.len(),
{
    if ports.len() == 0 {
        Seq::empty()
    } else if ports.len() == 1 {
        port_entry(ports[0], truncate)
    } else {
        ports_text(ports.drop_last(), truncate) + seq![',', ' '] + port_entry(
            ports.last(),
            truncate,
        )
    }
}

/// No mapping is written as the empty text, a single one as its own entry.
pub proof fn lemma_ports_text_small(ports: Seq<PortMappingView>, truncate: bool)
    ensures
        ports.len() == 0 ==> ports_text(ports, truncate) == Seq::<char>::empty(),
        ports.len() == 1 ==> ports_text(ports, truncate) == port_entry(ports[0], truncate),
{
}

fn port_number(port: &Option<u16>) -> (n: u64)
    ensures
        n == port_or_zero(*port),
{
    match port {
        Some(p) => *p as u64,
        None => 0,
    }
}

fn append_optional(text: &mut String, part: &Option<String>)
    ensures
        final(text)@ == old(text)@ + text_or_empty(
            match *part {
                Some(s) => Some(s@),
                None => None,
            },
        ),
{
    if let Some(s) = part {
        text.append(s.as_str());
    }
}

/// Writes one port mapping: in the short notation when `truncate` is set,
/// in the full notation otherwise.
pub fn format_port(p: &PortMapping, truncate: bool) -> (text: String)
    ensures
        text@ == port_entry(p@, truncate),
{
    proof {
        reveal_strlit(":");
        reveal_strlit("->");
        reveal_strlit("/");
    }
    let private: u64 = port_number(&p.private_port);
    let public: u64 = port_number(&p.public_port);
    let elided = private == public || (p.private_port.is_some() && p.public_port.is_none());
    let mut text = String::new();
    if !truncate {
        append_optional(&mut text, &p.ip);
        text.append(":");
    }
    text.append(unsigned_to_decimal(private).as_str());
    if !truncate || !elided {
        text.append("->");
        text.append(unsigned_to_decimal(public).as_str());
    }
    text.append("/");
    append_optional(&mut text, &p.port_type);
    text
}

/// Writes all port mappings of a container on one line, in the order of the
/// list, separated by `", "`.
pub fn format_ports(ports: &Vec<PortMapping>, truncate: bool) -> (text: String)
    ensures
        text@ == ports_text(port_views(ports@), truncate),
{
    proof {
        reveal_strlit(", ");
    }
    let ghost views = port_views(ports@);
    let mut text = String::new();
    let mut i: usize = 0;
    while i < ports.len()
        invariant
            i <= ports.len(),
            views == port_views(ports@),
            text@ == ports_text(views.take(i as int), truncate),
            ", "@ == seq![',', ' '],
        decreases ports.len() - i,
    {
        let entry = format_port(&ports[i], truncate);
        if i > 0 {
            text.append(", ");
        }
        text.append(entry.as_str());
        assert(views.take(i as int + 1).drop_last() =~= views.take(i as int));
        i += 1;
    }
    assert(views.take(i as int) =~= views);
    text
}

} // verus!
