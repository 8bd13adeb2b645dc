use vstd::prelude::*;
use vstd::string::StringExecFns;

use crate::fmt::{dec_str, hex_encode32, hex_of, u64_to_dec};

verus! {

/// One allowed-IP entry of a peer, reported as `<address>/<prefix-length>`.
pub struct AllowedIp {
    /// The address in its textual form.
    pub addr: String,
    /// The prefix length.
    pub cidr: u32,
}

/// Statistics and key material reported for one peer.
pub struct PeerEntry {
    /// Bytes received from this peer.
    pub rx_bytes: u64,
    /// Bytes sent to this peer.
    pub tx_bytes: u64,
    /// Seconds part of the last handshake time.
    pub last_handshake_time_sec: u64,
    /// Nanoseconds part of the last handshake time.
    pub last_handshake_time_nsec: u64,
    /// Public key of the peer.
    pub public_key: [u8; 32],
    /// Pre-shared symmetric key of the peer.
    pub preshared_key: [u8; 32],
    /// Allowed-IP entries of the peer.
    pub allowed_ips: Vec<AllowedIp>,
}

/// Interface-level fields, each reported once and only if present.
pub struct InterfaceConfig {
    /// The interface's private key.
    pub private_key: Option<[u8; 32]>,
    /// The port the interface listens on.
    pub listen_port: Option<u16>,
    /// The firewall mark of the interface's sockets.
    pub fwmark: Option<u32>,
}

/// One `key=value` line of the status text.
pub open spec fn spec_line(key: Seq<char>, value: Seq<char>) -> Seq<char> {
    key + "="@ + value + "\n"@
}

/// The `allowed_ip` line for one entry.
pub open spec fn spec_allowed_ip_line(ip: AllowedIp) -> Seq<char> {
    spec_line("allowed_ip"@, ip.addr@ + "/"@ + dec_str(ip.cidr as nat))
}

/// The `allowed_ip` lines for `ips`, in list order.
pub open spec fn spec_allowed_ip_lines(ips: Seq<AllowedIp>) -> Seq<char>
    decreases ips.len(),
{
    if ips.len() == 0 {
        Seq::empty()
    } else {
        spec_allowed_ip_line(ips[0]) + spec_allowed_ip_lines(ips.drop_first())
    }
}

/// The block of lines for one peer, in the fixed field order.
///
/// Note: both handshake-time lines carry the nanoseconds value; confirm
/// against the format's consumers before changing this.
pub open spec fn spec_peer_lines(p: PeerEntry) -> Seq<char> {
    spec_line("rx_bytes"@, dec_str(p.rx_bytes as nat)) + spec_line(
        "tx_bytes"@,
        dec_str(p.tx_bytes as nat),
    ) + spec_line("last_handshake_time_sec"@, dec_str(p.last_handshake_time_nsec as nat))
        + spec_line("last_handshake_time_nsec"@, dec_str(p.last_handshake_time_nsec as nat))
        + spec_line("public_key"@, hex_of(p.public_key@)) + spec_line(
        "preshared_key"@,
        hex_of(p.preshared_key@),
    ) + spec_allowed_ip_lines(p.allowed_ips@)
}

/// The blocks for peers `ps[hi - 1]`, `ps[hi - 2]`, ... down to `ps[0]`:
/// peers are reported taking entries from the end of the list first.
pub open spec fn spec_peers_down(ps: Seq<PeerEntry>, hi: int) -> Seq<char>
    decreases hi,
{
    if hi <= 0 {
        Seq::empty()
    } else {
        spec_peer_lines(ps[hi - 1]) + spec_peers_down(ps, hi - 1)
    }
}

/// The interface-level lines, each present only if its field is.
pub open spec fn spec_interface_lines(c: InterfaceConfig) -> Seq<char> {
    (match c.private_key {
        Some(k) => spec_line("private_key"@, hex_of(k@)),
        None => Seq::empty(),
    }) + (match c.listen_port {
        Some(p) => spec_line("listen_port"@, dec_str(p as nat)),
        None => Seq::empty(),
    }) + (match c.fwmark {
        Some(f) => spec_line("fwmark"@, dec_str(f as nat)),
        None => Seq::empty(),
    })
}

/// The full status text: the interface lines, then every peer's block,
/// taking peers from the end of the list first.
pub open spec fn spec_serialize(c: InterfaceConfig, ps: Seq<PeerEntry>) -> Seq<char> {
    spec_interface_lines(c) + spec_peers_down(ps, ps.len() as int)
}

/// Append one `key=value` line to `out`.
fn push_kv(out: &mut String, key: &str, value: &str)
    ensures
        final(out)@ == old(out)@ + spec_line(key@, value@),
{
    out.append(key);
    out.append("=");
    out.append(value);
    out.append("\n");
    proof {
        assert(out@ =~= old(out)@ + spec_line(key@, value@));
    }
}

/// Append the whole block of lines for one peer to `out`.
fn push_peer(out: &mut String, p: &PeerEntry)
    ensures
        final(out)@ == old(out)@ + spec_peer_lines(*p),
{
    let rx = u64_to_dec(p.rx_bytes);
    push_kv(out, "rx_bytes", rx.as_str());
    let tx = u64_to_dec(p.tx_bytes);
    push_kv(out, "tx_bytes", tx.as_str());
    // Both handshake-time lines carry the nanoseconds value; confirm against
    // the format's consumers before changing this.
    let hs_sec = u64_to_dec(p.last_handshake_time_nsec);
    push_kv(out, "last_handshake_time_sec", hs_sec.as_str());
    let hs_nsec = u64_to_dec(p.last_handshake_time_nsec);
    push_kv(out, "last_handshake_time_nsec", hs_nsec.as_str());
    let pk = hex_encode32(&p.public_key);
    push_kv(out, "public_key", pk.as_str());
    let psk = hex_encode32(&p.preshared_key);
    push_kv(out, "preshared_key", psk.as_str());
    let ghost base: Seq<char> = out@;
    proof {
        assert(p.allowed_ips@.skip(0) =~= p.allowed_ips@);
    }
    let mut j: usize = 0;
    while j < p.allowed_ips.len()
        invariant
            j <= p.allowed_ips.len(),
            out@ + spec_allowed_ip_lines(p.allowed_ips@.skip(j as int)) == base
                + spec_allowed_ip_lines(p.allowed_ips@),
        decreases p.allowed_ips.len() - j,
    {
        let ip = &p.allowed_ips[j];
        let cidr = u64_to_dec(ip.cidr as u64);
        let mut val = ip.addr.clone();
        val.append("/");
        val.append(cidr.as_str());
        proof {
            assert(val@ =~= ip.addr@ + "/"@ + dec_str(ip.cidr as nat));
        }
        push_kv(out, "allowed_ip", val.as_str());
        proof {
            let ips = p.allowed_ips@;
            assert(ips.skip(j as int).drop_first() =~= ips.skip(j as int + 1));
            assert(ips.skip(j as int)[0] == ips[j as int]);
            assert(out@ + spec_allowed_ip_lines(ips.skip(j as int + 1)) =~= base
                + spec_allowed_ip_lines(ips));
        }
        j += 1;
    }
    proof {
        assert(p.allowed_ips@.skip(p.allowed_ips@.len() as int) =~= Seq::<AllowedIp>::empty());
        assert(out@ =~= old(out)@ + spec_peer_lines(*p));
    }
}

/// Serialize the interface fields and all peers to the line-oriented
/// `key=value` status text: interface fields once, each only if present,
/// then each peer's block in the fixed field order, taking peers from the
/// end of `peers` first. Pure serialization; cannot fail.
pub fn serialize(config: &InterfaceConfig, peers: &Vec<PeerEntry>) -> (r: String)
    ensures
        r@ == spec_serialize(*config, peers@),
{
    let mut out = String::new();
    match &config.private_key {
        Some(k) => {
            let v = hex_encode32(k);
            push_kv(&mut out, "private_key", v.as_str());
        },
        None => {},
    }
    match &config.listen_port {
        Some(p) => {
            let v = u64_to_dec(*p as u64);
            push_kv(&mut out, "listen_port", v.as_str());
        },
        None => {},
    }
    match &config.fwmark {
        Some(f) => {
            let v = u64_to_dec(*f as u64);
            push_kv(&mut out, "fwmark", v.as_str());
        },
        None => {},
    }
    proof {
        assert(out@ =~= spec_interface_lines(*config));
    }
    let ghost iface: Seq<char> = out@;
    let mut i: usize = peers.len();
    while i > 0
        invariant
            i <= peers.len(),
            out@ + spec_peers_down(peers@, i as int) == iface + spec_peers_down(
                peers@,
                peers@.len() as int,
            ),
        decreases i,
    {
        i = i - 1;
        push_peer(&mut out, &peers[i]);
        proof {
            assert(out@ + spec_peers_down(peers@, i as int) =~= iface + spec_peers_down(
                peers@,
                peers@.len() as int,
            ));
        }
    }
    proof {
        assert(out@ =~= spec_serialize(*config, peers@));
    }
    out
}

} // verus!
