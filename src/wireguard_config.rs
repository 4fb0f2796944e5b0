use vstd::prelude::*;
use vstd::string::*;

use crate::keys::{privkey_base64, PrivateKey};
use crate::text::{contains, lemma_contains_middle};

verus! {

/// One `key = value` line of a tunnel configuration.
pub open spec fn config_line(key: Seq<char>, value: Seq<char>) -> Seq<char> {
    key + " = "@ + value + "\n"@
}

/// One `AllowedIPs` line for each route, in order.
pub open spec fn allowed_lines(routes: Seq<Seq<char>>) -> Seq<char>
    decreases routes.len(),
{
    if routes.len() == 0 {
        Seq::empty()
    } else {
        allowed_lines(routes.drop_last()) + config_line("AllowedIPs"@, routes.last())
    }
}

/// The text views of a list of strings.
pub open spec fn text_views(v: Seq<String>) -> Seq<Seq<char>> {
    v.map_values(|s: String| s@)
}

/// The interface section of a tunnel configuration.
pub open spec fn interface_section(
    private_key: Seq<char>,
    address_v4: Seq<char>,
    address_v6: Seq<char>,
) -> Seq<char> {
    "[Interface]\n"@ + config_line("PrivateKey"@, private_key) + config_line(
        "Address"@,
        address_v4 + "/32"@,
    ) + config_line("Address"@, address_v6 + "/128"@) + config_line("DNS"@, "1.1.1.1"@)
        + config_line("MTU"@, "1280"@)
}

/// The peer section of a tunnel configuration.
pub open spec fn peer_section(
    peer_public_key: Seq<char>,
    allowed_ips: Seq<Seq<char>>,
    endpoint: Seq<char>,
) -> Seq<char> {
    "\n[Peer]\n"@ + config_line("PublicKey"@, peer_public_key) + allowed_lines(allowed_ips)
        + config_line("Endpoint"@, endpoint)
}

/// The text of a tunnel configuration.
pub open spec fn config_text(
    private_key: Seq<char>,
    address_v4: Seq<char>,
    address_v6: Seq<char>,
    peer_public_key: Seq<char>,
    allowed_ips: Seq<Seq<char>>,
    endpoint: Seq<char>,
) -> Seq<char> {
    interface_section(private_key, address_v4, address_v6) + peer_section(
        peer_public_key,
        allowed_ips,
        endpoint,
    )
}

/// A rendered configuration carries the private key, both tunnel addresses
/// and the peer's public key, each on a line of its own.
pub proof fn lemma_config_carries_addresses_and_keys(
    private_key: Seq<char>,
    address_v4: Seq<char>,
    address_v6: Seq<char>,
    peer_public_key: Seq<char>,
    allowed_ips: Seq<Seq<char>>,
    endpoint: Seq<char>,
)
    ensures
        contains(
            config_text(private_key, address_v4, address_v6, peer_public_key, allowed_ips, endpoint),
            config_line("PrivateKey"@, private_key),
        ),
        contains(
            config_text(private_key, address_v4, address_v6, peer_public_key, allowed_ips, endpoint),
            config_line("Address"@, address_v4 + "/32"@),
        ),
        contains(
            config_text(private_key, address_v4, address_v6, peer_public_key, allowed_ips, endpoint),
            config_line("Address"@, address_v6 + "/128"@),
        ),
        contains(
            config_text(private_key, address_v4, address_v6, peer_public_key, allowed_ips, endpoint),
            config_line("PublicKey"@, peer_public_key),
        ),
{
    let text = config_text(
        private_key,
        address_v4,
        address_v6,
        peer_public_key,
        allowed_ips,
        endpoint,
    );
    let head = "[Interface]\n"@;
    let l_priv = config_line("PrivateKey"@, private_key);
    let l_v4 = config_line("Address"@, address_v4 + "/32"@);
    let l_v6 = config_line("Address"@, address_v6 + "/128"@);
    let l_rest = config_line("DNS"@, "1.1.1.1"@) + config_line("MTU"@, "1280"@);
    let peer = peer_section(peer_public_key, allowed_ips, endpoint);
    assert(text =~= head + l_priv + (l_v4 + l_v6 + l_rest + peer));
    lemma_contains_middle(head, l_priv, l_v4 + l_v6 + l_rest + peer);
    assert(text =~= (head + l_priv) + l_v4 + (l_v6 + l_rest + peer));
    lemma_contains_middle(head + l_priv, l_v4, l_v6 + l_rest + peer);
    assert(text =~= (head + l_priv + l_v4) + l_v6 + (l_rest + peer));
    lemma_contains_middle(head + l_priv + l_v4, l_v6, l_rest + peer);
    let l_peer = config_line("PublicKey"@, peer_public_key);
    let before = interface_section(private_key, address_v4, address_v6) + "\n[Peer]\n"@;
    let after = allowed_lines(allowed_ips) + config_line("Endpoint"@, endpoint);
    assert(text =~= before + l_peer + after);
    lemma_contains_middle(before, l_peer, after);
}

/// Appends one `key = value suffix` line to `out`.
fn push_line(out: &mut String, key: &str, value: &str, suffix: &str)
    ensures
        final(out)@ == old(out)@ + config_line(key@, value@ + suffix@),
{
    out.append(key);
    out.append(" = ");
    out.append(value);
    out.append(suffix);
    out.append("\n");
    proof {
        assert(out@ =~= old(out)@ + config_line(key@, value@ + suffix@));
    }
}

/// A client tunnel configuration.
pub struct WireguardConfig {
    /// The device's own private key.
    pub private_key: PrivateKey,
    /// Tunnel address assigned to the device, IPv4.
    pub address_v4: String,
    /// Tunnel address assigned to the device, IPv6.
    pub address_v6: String,
    /// Public key of the service's peer.
    pub peer_public_key: String,
    /// Routes sent through the tunnel.
    pub allowed_ips: Vec<String>,
    /// Where the peer is reached.
    pub endpoint: String,
}

impl WireguardConfig {
    /// The configuration as the text a WireGuard client reads.
    pub open spec fn text(&self) -> Seq<char> {
        config_text(
            privkey_base64(self.private_key.bytes@),
            self.address_v4@,
            self.address_v6@,
            self.peer_public_key@,
            text_views(self.allowed_ips@),
            self.endpoint@,
        )
    }

    /// Renders the configuration as text.
    pub fn render(&self) -> (r: String)
        ensures
            r@ == self.text(),
    {
        let key = self.private_key.to_base64();
        let mut out = String::from_str("[Interface]\n");
        push_line(&mut out, "PrivateKey", key.as_str(), "");
        push_line(&mut out, "Address", self.address_v4.as_str(), "/32");
        push_line(&mut out, "Address", self.address_v6.as_str(), "/128");
        push_line(&mut out, "DNS", "1.1.1.1", "");
        push_line(&mut out, "MTU", "1280", "");
        proof {
            reveal_strlit("");
            assert(key@ + ""@ =~= key@);
            assert("1.1.1.1"@ + ""@ =~= "1.1.1.1"@);
            assert("1280"@ + ""@ =~= "1280"@);
            assert(out@ =~= interface_section(key@, self.address_v4@, self.address_v6@));
        }
        let ghost head = out@;
        out.append("\n[Peer]\n");
        push_line(&mut out, "PublicKey", self.peer_public_key.as_str(), "");
        proof {
            assert(self.peer_public_key@ + ""@ =~= self.peer_public_key@);
        }
        let ghost routes = text_views(self.allowed_ips@);
        let ghost mid = out@;
        let n = self.allowed_ips.len();
        let mut i: usize = 0;
        while i < n
            invariant
                n == self.allowed_ips@.len(),
                routes == text_views(self.allowed_ips@),
                i <= n,
                out@ == mid + allowed_lines(routes.subrange(0, i as int)),
            decreases n - i,
        {
            let ghost before = out@;
            push_line(&mut out, "AllowedIPs", self.allowed_ips[i].as_str(), "");
            proof {
                reveal_strlit("");
                let next = routes.subrange(0, i + 1);
                assert(next.drop_last() =~= routes.subrange(0, i as int));
                assert(self.allowed_ips@[i as int]@ + ""@ =~= next.last());
            }
            i = i + 1;
        }
        push_line(&mut out, "Endpoint", self.endpoint.as_str(), "");
        proof {
            reveal_strlit("");
            assert(routes.subrange(0, n as int) =~= routes);
            assert(self.endpoint@ + ""@ =~= self.endpoint@);
            assert(out@ =~= self.text());
        }
        out
    }
}

} // verus!
