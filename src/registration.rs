use vstd::prelude::*;
use vstd::string::*;

use crate::keys::{derived_pubkey, pubkey_base64, PrivateKey, PublicKey};
use crate::text::{contains, json_string, lemma_contains_middle, push_json_string};
use crate::keys::privkey_base64;
use crate::wireguard_config::{
    config_line, config_text, lemma_config_carries_addresses_and_keys, text_views, WireguardConfig,
};

verus! {

/// One `"tag":value` member of a JSON object, the value a string.
pub open spec fn json_member(tag: Seq<char>, value: Seq<char>) -> Seq<char> {
    json_string(tag) + ":"@ + json_string(value)
}

/// The JSON body of a registration request.
pub open spec fn request_json(
    key: Seq<char>,
    name: Seq<char>,
    locale: Seq<char>,
    timezone: Seq<char>,
    device_type: Seq<char>,
) -> Seq<char> {
    "{"@ + json_member("key"@, key) + ","@ + json_member("name"@, name) + ","@ + json_member(
        "locale"@,
        locale,
    ) + ","@ + json_member("timezone"@, timezone) + ","@ + json_member("type"@, device_type)
        + "}"@
}

/// The request body that registers the key pair of `private` under `name`
/// names the derived public key and the device name, each as a member of
/// its own.
pub proof fn lemma_request_carries_key_and_name(
    private: Seq<u8>,
    name: Seq<char>,
    locale: Seq<char>,
    timezone: Seq<char>,
    device_type: Seq<char>,
)
    ensures
        contains(
            request_json(pubkey_base64(derived_pubkey(private)), name, locale, timezone, device_type),
            json_member("key"@, pubkey_base64(derived_pubkey(private))),
        ),
        contains(
            request_json(pubkey_base64(derived_pubkey(private)), name, locale, timezone, device_type),
            json_member("name"@, name),
        ),
{
    let key = pubkey_base64(derived_pubkey(private));
    let body = request_json(key, name, locale, timezone, device_type);
    let m_key = json_member("key"@, key);
    let m_name = json_member("name"@, name);
    let tail = ","@ + json_member("locale"@, locale) + ","@ + json_member("timezone"@, timezone)
        + ","@ + json_member("type"@, device_type) + "}"@;
    assert(body =~= "{"@ + m_key + (","@ + m_name + tail));
    lemma_contains_middle("{"@, m_key, ","@ + m_name + tail);
    assert(body =~= ("{"@ + m_key + ","@) + m_name + tail);
    lemma_contains_middle("{"@ + m_key + ","@, m_name, tail);
}

/// Appends one `"tag":"value"` member to `out`.
fn push_member(out: &mut String, tag: &str, value: &str)
    ensures
        final(out)@ == old(out)@ + json_member(tag@, value@),
{
    push_json_string(out, tag);
    out.append(":");
    push_json_string(out, value);
    proof {
        assert(out@ =~= old(out)@ + json_member(tag@, value@));
    }
}

/// What a device sends to enroll.
pub struct Registration {
    /// The device's public key.
    pub key: PublicKey,
    /// The name the device is registered under.
    pub name: String,
    /// Client locale.
    pub locale: String,
    /// Client time zone.
    pub timezone: String,
    /// Client platform.
    pub device_type: String,
}

impl Registration {
    /// The registration of the key pair of `privkey` under `device_name`,
    /// with the fixed client metadata.
    pub fn new(privkey: PrivateKey, device_name: String) -> (r: Registration)
        ensures
            r.key.bytes@ == derived_pubkey(privkey.bytes@),
            r.name == device_name,
            r.locale@ == "en_US"@,
            r.timezone@ == "UTC"@,
            r.device_type@ == "iOS"@,
    {
        Registration {
            key: privkey.public_key(),
            name: device_name,
            locale: String::from_str("en_US"),
            timezone: String::from_str("UTC"),
            device_type: String::from_str("iOS"),
        }
    }

    /// The request body as JSON text.
    pub fn to_json(&self) -> (r: String)
        ensures
            r@ == request_json(
                pubkey_base64(self.key.bytes@),
                self.name@,
                self.locale@,
                self.timezone@,
                self.device_type@,
            ),
    {
        let key = self.key.to_base64();
        let mut out = String::from_str("{");
        push_member(&mut out, "key", key.as_str());
        out.append(",");
        push_member(&mut out, "name", self.name.as_str());
        out.append(",");
        push_member(&mut out, "locale", self.locale.as_str());
        out.append(",");
        push_member(&mut out, "timezone", self.timezone.as_str());
        out.append(",");
        push_member(&mut out, "type", self.device_type.as_str());
        out.append("}");
        proof {
            assert(out@ =~= request_json(
                key@,
                self.name@,
                self.locale@,
                self.timezone@,
                self.device_type@,
            ));
        }
        out
    }
}

/// A message from the enrollment service.
#[derive(Debug)]
pub struct ApiMessage {
    pub code: i64,
    pub message: String,
}

/// Why enrollment gave no configuration.
#[derive(Debug)]
pub enum RegistrationError {
    /// The service reported a failure, with its messages.
    Service(Vec<ApiMessage>),
    /// The service reported success but sent no result.
    MissingResult,
    /// The result names no peer to connect to.
    NoPeer,
}

/// The envelope in which the enrollment service answers.
pub struct CFResp<T> {
    /// Whether the service reports success.
    pub success: bool,
    /// The payload, present on success.
    pub result: Option<T>,
    /// What the service reports as having gone wrong.
    pub errors: Vec<ApiMessage>,
}

impl<T> CFResp<T> {
    /// The payload of a successful answer; a reported failure, or a success
    /// without payload, is an error.
    pub fn get_result(self) -> (r: Result<T, RegistrationError>)
        ensures
            !self.success ==> r == Err::<T, RegistrationError>(
                RegistrationError::Service(self.errors),
            ),
            self.success && self.result is None ==> r == Err::<T, RegistrationError>(
                RegistrationError::MissingResult,
            ),
            self.success && self.result is Some ==> r == Ok::<T, RegistrationError>(
                self.result->0,
            ),
    {
        if !self.success {
            Err(RegistrationError::Service(self.errors))
        } else {
            match self.result {
                Some(t) => Ok(t),
                None => Err(RegistrationError::MissingResult),
            }
        }
    }
}

/// Addresses assigned to the device inside the tunnel.
pub struct Interface {
    pub v4: String,
    pub v6: String,
}

/// Where a peer is reached.
pub struct Endpoint {
    pub v4: String,
    pub v6: String,
    pub host: String,
}

/// A peer the device connects to.
pub struct Peer {
    pub public_key: String,
    pub endpoint: Endpoint,
    /// Routes sent to this peer.
    pub allowed_ips: Vec<String>,
}

/// What the service returns for an enrolled device.
pub struct RegistrationResult {
    pub interface: Interface,
    pub peers: Vec<Peer>,
}

/// The routes of a peer, or the whole address space of both families
/// where the service names none.
pub open spec fn routes_or_full_tunnel(routes: Seq<Seq<char>>) -> Seq<Seq<char>> {
    if routes.len() == 0 {
        seq!["0.0.0.0/0"@, "::/0"@]
    } else {
        routes
    }
}

/// A copy of a list of strings.
fn copy_strings(v: &Vec<String>) -> (r: Vec<String>)
    ensures
        text_views(r@) == text_views(v@),
{
    let mut r: Vec<String> = Vec::new();
    let mut i: usize = 0;
    while i < v.len()
        invariant
            i <= v@.len(),
            r@.len() == i,
            forall|j: int| 0 <= j < i ==> #[trigger] r@[j]@ == v@[j]@,
        decreases v@.len() - i,
    {
        r.push(v[i].clone());
        i = i + 1;
    }
    assert(text_views(r@) =~= text_views(v@));
    r
}

impl RegistrationResult {
    /// The tunnel configuration for the device holding `privkey`, towards the
    /// first peer of the result; where that peer names no routes, all traffic
    /// goes through the tunnel.
    pub fn to_wg_config(&self, privkey: PrivateKey) -> (r: Result<WireguardConfig, RegistrationError>)
        ensures
            match r {
                Ok(c) => {
                    &&& self.peers@.len() > 0
                    &&& c.private_key == privkey
                    &&& c.address_v4@ == self.interface.v4@
                    &&& c.address_v6@ == self.interface.v6@
                    &&& c.peer_public_key@ == self.peers@[0].public_key@
                    &&& text_views(c.allowed_ips@) == routes_or_full_tunnel(
                        text_views(self.peers@[0].allowed_ips@),
                    )
                    &&& c.endpoint@ == self.peers@[0].endpoint.host@
                },
                Err(e) => self.peers@.len() == 0 && e == RegistrationError::NoPeer,
            },
    {
        if self.peers.len() == 0 {
            return Err(RegistrationError::NoPeer);
        }
        let peer = &self.peers[0];
        let allowed_ips = if peer.allowed_ips.len() == 0 {
            let r = vec![String::from_str("0.0.0.0/0"), String::from_str("::/0")];
            assert(text_views(r@) =~= routes_or_full_tunnel(text_views(peer.allowed_ips@)));
            r
        } else {
            copy_strings(&peer.allowed_ips)
        };
        Ok(
            WireguardConfig {
                private_key: privkey,
                address_v4: self.interface.v4.clone(),
                address_v6: self.interface.v6.clone(),
                peer_public_key: peer.public_key.clone(),
                allowed_ips,
                endpoint: peer.endpoint.host.clone(),
            },
        )
    }
}

/// The configuration text for the device holding `privkey`, towards the
/// first peer of `res`.
pub open spec fn result_config_text(res: RegistrationResult, privkey: PrivateKey) -> Seq<char> {
    config_text(
        privkey_base64(privkey.bytes@),
        res.interface.v4@,
        res.interface.v6@,
        res.peers@[0].public_key@,
        routes_or_full_tunnel(text_views(res.peers@[0].allowed_ips@)),
        res.peers@[0].endpoint.host@,
    )
}

/// The configuration rendered from a result that names a peer holds the
/// tunnel addresses assigned to the device, the peer's public key and the
/// device's private key.
pub proof fn lemma_result_config_carries_addresses_and_keys(
    res: RegistrationResult,
    privkey: PrivateKey,
)
    requires
        res.peers@.len() > 0,
    ensures
        contains(
            result_config_text(res, privkey),
            config_line("Address"@, res.interface.v4@ + "/32"@),
        ),
        contains(
            result_config_text(res, privkey),
            config_line("Address"@, res.interface.v6@ + "/128"@),
        ),
        contains(
            result_config_text(res, privkey),
            config_line("PublicKey"@, res.peers@[0].public_key@),
        ),
        contains(
            result_config_text(res, privkey),
            config_line("PrivateKey"@, privkey_base64(privkey.bytes@)),
        ),
{
    lemma_config_carries_addresses_and_keys(
        privkey_base64(privkey.bytes@),
        res.interface.v4@,
        res.interface.v6@,
        res.peers@[0].public_key@,
        routes_or_full_tunnel(text_views(res.peers@[0].allowed_ips@)),
        res.peers@[0].endpoint.host@,
    );
}

/// The configuration text for the service's answer `resp`, for the device
/// holding `privkey`; a reported failure, a missing result or a result
/// without peer is an error.
pub fn render_response(resp: CFResp<RegistrationResult>, privkey: PrivateKey) -> (r: Result<
    String,
    RegistrationError,
>)
    ensures
        !resp.success ==> r == Err::<String, RegistrationError>(
            RegistrationError::Service(resp.errors),
        ),
        resp.success && resp.result is None ==> r == Err::<String, RegistrationError>(
            RegistrationError::MissingResult,
        ),
        resp.success && resp.result is Some && resp.result->0.peers@.len() == 0 ==> r == Err::<
            String,
            RegistrationError,
        >(RegistrationError::NoPeer),
        resp.success && resp.result is Some && resp.result->0.peers@.len() > 0 ==> (r matches Ok(
            t,
        ) && t@ == result_config_text(resp.result->0, privkey)),
{
    let result = resp.get_result()?;
    let config = result.to_wg_config(privkey)?;
    Ok(config.render())
}

} // verus!
