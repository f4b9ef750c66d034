//! Listener bootstrap decisions: which acceptors to construct and join,
//! given the resolved configuration and the platform.
//!
//! The decision is order-sensitive: the sentinel domain `local` forces
//! automatic certificate management off, automatic certificate management
//! forces transport security on, and the address family chosen depends on
//! both the platform and whether the IPv6 address is the unspecified one.

use vstd::prelude::*;

verus! {

/// An address to bind, as a plain value: IPv4 as its 32-bit form, IPv6 as
/// its 128-bit form. The unspecified address of either family is zero.
#[derive(Clone, Copy, Debug, PartialEq, Eq, Structural)]
pub enum IpAddress {
    V4(u32),
    V6(u128),
}

/// An address together with the port to bind it at.
#[derive(Clone, Copy, Debug, PartialEq, Eq, Structural)]
pub enum SockAddr {
    V4 { addr: u32, port: u16 },
    V6 { addr: u128, port: u16 },
}

/// The resolved listen configuration, after command-line overrides.
#[derive(Debug)]
pub struct ListenerSpec {
    /// The address to listen at. An IPv6 address here asks for dual-stack
    /// service: the IPv4 side is then the unspecified address.
    pub ip: IpAddress,
    /// The port to listen at, for every acceptor.
    pub port: u16,
    /// The domain certificates are managed for; the sentinel `local` forces
    /// automatic certificate management off.
    pub domain: String,
    /// Whether transport security was configured.
    pub tls: bool,
    /// Whether automatic certificate management was configured.
    pub acme: bool,
}

/// One of the three transport strategies of the decision table.
#[derive(Clone, Copy, Debug, PartialEq, Eq, Structural)]
pub enum Strategy {
    /// Certificates obtained and renewed automatically for the configured
    /// domain, with a QUIC-capable acceptor.
    Acme,
    /// Certificate and key loaded from fixed files, TCP joined with QUIC;
    /// missing files are a fatal misconfiguration.
    Tls,
    /// A plain TCP acceptor.
    Plain,
}

/// One acceptor to construct; a plan joins all of its acceptors into one
/// logical listener.
#[derive(Clone, Copy, Debug, PartialEq, Eq, Structural)]
pub enum Acceptor {
    /// TCP with automatically managed certificates and a QUIC side.
    AcmeQuic { addr: SockAddr },
    /// QUIC with certificates from the fixed files.
    TlsQuic { addr: SockAddr },
    /// TCP with certificates from the fixed files.
    TlsTcp { addr: SockAddr },
    /// Plain TCP.
    Tcp { addr: SockAddr },
}

/// Everything the startup sequence needs to bring the listener up: the
/// acceptors to bind and join, in order, and whether the fixed certificate
/// and key files must be present before anything is bound.
#[derive(Debug)]
pub struct ListenerPlan {
    /// The acceptors to construct and join, in order.
    pub acceptors: Vec<Acceptor>,
    /// True when the certificate and key files must be readable; their
    /// absence is then fatal, before any bind.
    pub requires_cert_files: bool,
}

/// Is the configured domain the sentinel `local`?
pub open spec fn spec_domain_is_local(s: ListenerSpec) -> bool {
    s.domain@ == "local"@
}

/// Whether certificates are managed automatically: as configured, except
/// that the `local` domain forces it off.
pub open spec fn spec_effective_acme(s: ListenerSpec) -> bool {
    if spec_domain_is_local(s) {
        false
    } else {
        s.acme
    }
}

/// Whether transport security is on: as configured, except that automatic
/// certificate management forces it on.
pub open spec fn spec_effective_tls(s: ListenerSpec) -> bool {
    if spec_domain_is_local(s) {
        s.tls
    } else if s.acme {
        true
    } else {
        s.tls
    }
}

/// The strategy the decision table selects.
pub open spec fn spec_strategy(s: ListenerSpec) -> Strategy {
    if spec_effective_acme(s) {
        Strategy::Acme
    } else if spec_effective_tls(s) {
        Strategy::Tls
    } else {
        Strategy::Plain
    }
}

/// The IPv4 side of the configured address: the address itself, or the
/// unspecified address when an IPv6 address was configured.
pub open spec fn spec_v4_part(ip: IpAddress) -> u32 {
    match ip {
        IpAddress::V4(a) => a,
        IpAddress::V6(_) => 0,
    }
}

/// The acceptors the bootstrap constructs and joins, in order.
///
/// With an IPv6 address present a second acceptor serves that family at the
/// same port, joined with the IPv4 acceptor, except in the one
/// platform-dependent special case: a plain listener at the unspecified
/// IPv6 address is bound alone away from Windows, because joining it with an
/// unspecified IPv4 acceptor at the same port conflicts there. The
/// automatic-certificate and fixed-file strategies join both families
/// unconditionally.
pub open spec fn spec_acceptors(s: ListenerSpec, windows: bool) -> Seq<Acceptor> {
    let v4 = SockAddr::V4 { addr: spec_v4_part(s.ip), port: s.port };
    match spec_strategy(s) {
        Strategy::Acme => match s.ip {
            IpAddress::V6(a6) => {
                let v6 = SockAddr::V6 { addr: a6, port: s.port };
                seq![Acceptor::AcmeQuic { addr: v4 }, Acceptor::AcmeQuic { addr: v6 }]
            },
            IpAddress::V4(_) => seq![Acceptor::AcmeQuic { addr: v4 }],
        },
        Strategy::Tls => match s.ip {
            IpAddress::V6(a6) => {
                let v6 = SockAddr::V6 { addr: a6, port: s.port };
                seq![
                    Acceptor::TlsQuic { addr: v4 },
                    Acceptor::TlsQuic { addr: v6 },
                    Acceptor::TlsTcp { addr: v6 },
                    Acceptor::TlsTcp { addr: v4 },
                ]
            },
            IpAddress::V4(_) => seq![Acceptor::TlsQuic { addr: v4 }, Acceptor::TlsTcp { addr: v4 }],
        },
        Strategy::Plain => match s.ip {
            IpAddress::V6(a6) => {
                let v6 = SockAddr::V6 { addr: a6, port: s.port };
                if !windows && a6 == 0 {
                    seq![Acceptor::Tcp { addr: v6 }]
                } else {
                    seq![Acceptor::Tcp { addr: v4 }, Acceptor::Tcp { addr: v6 }]
                }
            },
            IpAddress::V4(_) => seq![Acceptor::Tcp { addr: v4 }],
        },
    }
}

/// Apply the command-line overrides to the configured address and port.
pub fn apply_overrides(
    ip: IpAddress,
    port: u16,
    override_ip: Option<IpAddress>,
    override_port: Option<u16>,
) -> (r: (IpAddress, u16))
    ensures
        r.0 == match override_ip { Some(o) => o, None => ip },
        r.1 == match override_port { Some(o) => o, None => port },
{
    let chosen_ip = match override_ip {
        Some(o) => o,
        None => ip,
    };
    let chosen_port = match override_port {
        Some(o) => o,
        None => port,
    };
    (chosen_ip, chosen_port)
}

/// Resolve the effective security flags: whether certificates are managed
/// automatically, and whether transport security is on.
pub fn resolve_security(s: &ListenerSpec) -> (r: (bool, bool))
    ensures
        r.0 == spec_effective_acme(*s),
        r.1 == spec_effective_tls(*s),
{
    let local: String = "local".to_owned();
    if s.domain == local {
        (false, s.tls)
    } else if s.acme {
        (true, true)
    } else {
        (false, s.tls)
    }
}

/// Construct the listener plan for a resolved configuration on the given
/// platform: the exact acceptors of the decision table, in order, and
/// whether the fixed certificate and key files must be present.
pub fn plan_listener(s: &ListenerSpec, windows: bool) -> (r: ListenerPlan)
    ensures
        r.acceptors@ == spec_acceptors(*s, windows),
        r.requires_cert_files == (spec_strategy(*s) == Strategy::Tls),
{
    let (acme, tls) = resolve_security(s);
    let v4_addr = match s.ip {
        IpAddress::V4(a) => a,
        IpAddress::V6(_) => 0,
    };
    let v4 = SockAddr::V4 { addr: v4_addr, port: s.port };
    let mut acceptors: Vec<Acceptor> = Vec::new();
    if acme {
        match s.ip {
            IpAddress::V6(a6) => {
                let v6 = SockAddr::V6 { addr: a6, port: s.port };
                acceptors.push(Acceptor::AcmeQuic { addr: v4 });
                acceptors.push(Acceptor::AcmeQuic { addr: v6 });
            },
            IpAddress::V4(_) => {
                acceptors.push(Acceptor::AcmeQuic { addr: v4 });
            },
        }
    } else if tls {
        match s.ip {
            IpAddress::V6(a6) => {
                let v6 = SockAddr::V6 { addr: a6, port: s.port };
                acceptors.push(Acceptor::TlsQuic { addr: v4 });
                acceptors.push(Acceptor::TlsQuic { addr: v6 });
                acceptors.push(Acceptor::TlsTcp { addr: v6 });
                acceptors.push(Acceptor::TlsTcp { addr: v4 });
            },
            IpAddress::V4(_) => {
                acceptors.push(Acceptor::TlsQuic { addr: v4 });
                acceptors.push(Acceptor::TlsTcp { addr: v4 });
            },
        }
    } else {
        match s.ip {
            IpAddress::V6(a6) => {
                let v6 = SockAddr::V6 { addr: a6, port: s.port };
                if !windows && a6 == 0 {
                    acceptors.push(Acceptor::Tcp { addr: v6 });
                } else {
                    acceptors.push(Acceptor::Tcp { addr: v4 });
                    acceptors.push(Acceptor::Tcp { addr: v6 });
                }
            },
            IpAddress::V4(_) => {
                acceptors.push(Acceptor::Tcp { addr: v4 });
            },
        }
    }
    proof {
        assert(acceptors@ =~= spec_acceptors(*s, windows));
    }
    ListenerPlan { acceptors, requires_cert_files: !acme && tls }
}

/// Does an acceptor belong to a strategy's row of the decision table?
pub open spec fn spec_acceptor_of_strategy(a: Acceptor, strategy: Strategy) -> bool {
    match a {
        Acceptor::AcmeQuic { .. } => strategy == Strategy::Acme,
        Acceptor::TlsQuic { .. } => strategy == Strategy::Tls,
        Acceptor::TlsTcp { .. } => strategy == Strategy::Tls,
        Acceptor::Tcp { .. } => strategy == Strategy::Plain,
    }
}

/// The port an acceptor binds.
pub open spec fn spec_acceptor_port(a: Acceptor) -> u16 {
    match a {
        Acceptor::AcmeQuic { addr } => spec_sock_port(addr),
        Acceptor::TlsQuic { addr } => spec_sock_port(addr),
        Acceptor::TlsTcp { addr } => spec_sock_port(addr),
        Acceptor::Tcp { addr } => spec_sock_port(addr),
    }
}

/// The port of a socket address.
pub open spec fn spec_sock_port(a: SockAddr) -> u16 {
    match a {
        SockAddr::V4 { port, .. } => port,
        SockAddr::V6 { port, .. } => port,
    }
}

/// The decision table, as a law over every configuration and platform.
///
/// The `local` domain always forces automatic certificate management off;
/// automatic certificate management always implies transport security; the
/// strategy is automatic certificate management exactly when it survives
/// the `local` override, fixed-file security exactly when security is on
/// without it, and plain transport otherwise. Every acceptor of the plan
/// belongs to the selected strategy's row, every acceptor binds the
/// configured port, and the plan is never empty.
pub proof fn lemma_decision_table(s: ListenerSpec, windows: bool)
    ensures
        spec_domain_is_local(s) ==> !spec_effective_acme(s),
        spec_effective_acme(s) ==> spec_effective_tls(s),
        spec_strategy(s) == Strategy::Acme <==> spec_effective_acme(s),
        spec_strategy(s) == Strategy::Tls <==> !spec_effective_acme(s) && spec_effective_tls(s),
        spec_strategy(s) == Strategy::Plain <==> !spec_effective_acme(s) && !spec_effective_tls(s),
        spec_acceptors(s, windows).len() > 0,
        forall|i: int|
            0 <= i < spec_acceptors(s, windows).len() ==> spec_acceptor_of_strategy(
                spec_acceptors(s, windows)[i],
                spec_strategy(s),
            ),
        forall|i: int|
            0 <= i < spec_acceptors(s, windows).len() ==> spec_acceptor_port(
                spec_acceptors(s, windows)[i],
            ) == s.port,
{
}

/// With an IPv6 address present, a second acceptor serves that family at the
/// same port, joined with the IPv4 acceptor, on every platform for the
/// automatic-certificate and fixed-file strategies — the one
/// platform-dependent special case is a plain listener at the unspecified
/// IPv6 address, bound alone away from Windows to avoid the dual-stack bind
/// conflict.
pub proof fn lemma_dual_stack_join(s: ListenerSpec, windows: bool, a6: u128)
    requires
        s.ip == IpAddress::V6(a6),
    ensures
        spec_strategy(s) == Strategy::Acme ==> spec_acceptors(s, windows) =~= seq![
            Acceptor::AcmeQuic { addr: SockAddr::V4 { addr: 0, port: s.port } },
            Acceptor::AcmeQuic { addr: SockAddr::V6 { addr: a6, port: s.port } },
        ],
        spec_strategy(s) == Strategy::Tls ==> spec_acceptors(s, windows) =~= seq![
            Acceptor::TlsQuic { addr: SockAddr::V4 { addr: 0, port: s.port } },
            Acceptor::TlsQuic { addr: SockAddr::V6 { addr: a6, port: s.port } },
            Acceptor::TlsTcp { addr: SockAddr::V6 { addr: a6, port: s.port } },
            Acceptor::TlsTcp { addr: SockAddr::V4 { addr: 0, port: s.port } },
        ],
        spec_strategy(s) == Strategy::Plain && !windows && a6 == 0 ==> spec_acceptors(s, windows)
            =~= seq![Acceptor::Tcp { addr: SockAddr::V6 { addr: 0, port: s.port } }],
        spec_strategy(s) == Strategy::Plain && (windows || a6 != 0) ==> spec_acceptors(s, windows)
            =~= seq![
            Acceptor::Tcp { addr: SockAddr::V4 { addr: 0, port: s.port } },
            Acceptor::Tcp { addr: SockAddr::V6 { addr: a6, port: s.port } },
        ],
{
}

} // verus!
