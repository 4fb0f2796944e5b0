use wgcf_teams::{
    ApiMessage, Args, CFResp, Endpoint, Interface, Peer, PrivateKey, Registration,
    RegistrationError, RegistrationResult,
};
use wgcf_teams::registration::render_response;

const BASE64_KEY: &str = "yG+Xc4BmcF/j5ChWkOloirX6nWxjWqN3p2nihDtGVW4=";
const RFC7748_ALICE_PRIVATE: &str = "77076d0a7318a57d3c16c17251b26645df4c2f87ebc0992ab177fba51db92c2a";

fn sample_result(peers: usize) -> RegistrationResult {
    let mut list = Vec::new();
    for i in 0..peers {
        list.push(Peer {
            public_key: format!("bmXOC+F1FxEMF9dyiK2H5/1SUtzH0JuVo51h2wPfgyo{}", i),
            endpoint: Endpoint {
                v4: String::from("162.159.193.1:0"),
                v6: String::from("[2606:4700:100::a29f:c101]:0"),
                host: String::from("engage.cloudflareclient.com:2408"),
            },
            allowed_ips: vec![String::from("0.0.0.0/0"), String::from("::/0")],
        });
    }
    RegistrationResult {
        interface: Interface {
            v4: String::from("172.16.0.2"),
            v6: String::from("2606:4700:110:8a36::2"),
        },
        peers: list,
    }
}

fn expected_config(private: &str, peer: &str) -> String {
    format!(
        "[Interface]\nPrivateKey = {}\nAddress = 172.16.0.2/32\nAddress = 2606:4700:110:8a36::2/128\nDNS = 1.1.1.1\nMTU = 1280\n\n[Peer]\nPublicKey = {}\nAllowedIPs = 0.0.0.0/0\nAllowedIPs = ::/0\nEndpoint = engage.cloudflareclient.com:2408\n",
        private, peer
    )
}

#[test]
fn request_names_public_key_and_device() {
    let key = PrivateKey::parse(RFC7748_ALICE_PRIVATE).unwrap();
    let public = key.public_key().to_base64();
    let reg = Registration::new(key, String::from("laptop"));
    let body = reg.to_json();
    assert_eq!(
        body,
        format!(
            "{{\"key\":\"{}\",\"name\":\"laptop\",\"locale\":\"en_US\",\"timezone\":\"UTC\",\"type\":\"iOS\"}}",
            public
        )
    );
    assert!(body.contains(&format!("\"key\":\"{}\"", public)));
    assert_ne!(public, key.to_base64());
}

#[test]
fn request_escapes_device_name() {
    let key = PrivateKey::parse(BASE64_KEY).unwrap();
    let public = key.public_key().to_base64();
    let reg = Registration::new(key, String::from("my \"box\"\\1\n\t\u{1}é"));
    let body = reg.to_json();
    assert!(body.contains("\"name\":\"my \\\"box\\\"\\\\1\\n\\t\\u0001é\""));
    assert!(body.starts_with(&format!("{{\"key\":\"{}\"", public)));
}

#[test]
fn request_with_default_device_name() {
    let args = Args::new(false);
    assert!(!args.prompt);
    assert_eq!(args.device_name, "wgcf-teams-device");
    let key = PrivateKey::parse(BASE64_KEY).unwrap();
    let body = Registration::new(key, args.device_name).to_json();
    assert!(body.contains("\"name\":\"wgcf-teams-device\""));
}

#[test]
fn successful_response_renders_config() {
    let key = PrivateKey::parse(BASE64_KEY).unwrap();
    let resp = CFResp { success: true, result: Some(sample_result(2)), errors: Vec::new() };
    let text = render_response(resp, key).unwrap();
    assert_eq!(text, expected_config(BASE64_KEY, "bmXOC+F1FxEMF9dyiK2H5/1SUtzH0JuVo51h2wPfgyo0"));
    assert!(text.contains("Address = 172.16.0.2/32\n"));
    assert!(text.contains("PublicKey = bmXOC+F1FxEMF9dyiK2H5/1SUtzH0JuVo51h2wPfgyo0\n"));
}

#[test]
fn config_fields_come_from_first_peer() {
    let key = PrivateKey::parse(BASE64_KEY).unwrap();
    let config = sample_result(3).to_wg_config(key).unwrap();
    assert_eq!(config.address_v4, "172.16.0.2");
    assert_eq!(config.peer_public_key, "bmXOC+F1FxEMF9dyiK2H5/1SUtzH0JuVo51h2wPfgyo0");
    assert_eq!(config.allowed_ips, vec![String::from("0.0.0.0/0"), String::from("::/0")]);
    assert_eq!(config.endpoint, "engage.cloudflareclient.com:2408");
    assert_eq!(config.render(), expected_config(BASE64_KEY, "bmXOC+F1FxEMF9dyiK2H5/1SUtzH0JuVo51h2wPfgyo0"));
}

#[test]
fn config_without_routes_sends_everything_through_the_tunnel() {
    let key = PrivateKey::parse(BASE64_KEY).unwrap();
    let mut res = sample_result(1);
    res.peers[0].allowed_ips.clear();
    let config = res.to_wg_config(key).unwrap();
    assert_eq!(config.allowed_ips, vec![String::from("0.0.0.0/0"), String::from("::/0")]);
    assert_eq!(config.render(), expected_config(BASE64_KEY, "bmXOC+F1FxEMF9dyiK2H5/1SUtzH0JuVo51h2wPfgyo0"));
}

#[test]
fn config_keeps_routes_the_service_names() {
    let key = PrivateKey::parse(BASE64_KEY).unwrap();
    let mut res = sample_result(1);
    res.peers[0].allowed_ips = vec![String::from("10.0.0.0/8")];
    let text = res.to_wg_config(key).unwrap().render();
    assert!(text.contains("\nAllowedIPs = 10.0.0.0/8\nEndpoint = "));
    assert!(!text.contains("0.0.0.0/0"));
}

#[test]
fn request_escapes_backspace_and_form_feed() {
    let key = PrivateKey::parse(BASE64_KEY).unwrap();
    let body = Registration::new(key, String::from("a\u{8}b\u{c}c\u{1f}")).to_json();
    assert!(body.contains("\"name\":\"a\\bb\\fc\\u001f\""));
}

#[test]
fn service_failure_is_an_error() {
    let key = PrivateKey::parse(BASE64_KEY).unwrap();
    let resp = CFResp {
        success: false,
        result: Some(sample_result(1)),
        errors: vec![ApiMessage { code: 1001, message: String::from("Invalid token") }],
    };
    match render_response(resp, key) {
        Err(RegistrationError::Service(errors)) => {
            assert_eq!(errors.len(), 1);
            assert_eq!(errors[0].code, 1001);
            assert_eq!(errors[0].message, "Invalid token");
        }
        _ => panic!("a reported failure must be an error"),
    }
}

#[test]
fn get_result_of_failure() {
    let resp: CFResp<u32> = CFResp { success: false, result: None, errors: Vec::new() };
    assert!(matches!(resp.get_result(), Err(RegistrationError::Service(e)) if e.is_empty()));
    let resp: CFResp<u32> = CFResp { success: true, result: Some(7), errors: Vec::new() };
    assert!(matches!(resp.get_result(), Ok(7)));
}

#[test]
fn success_without_result_is_an_error() {
    let key = PrivateKey::parse(BASE64_KEY).unwrap();
    let resp = CFResp { success: true, result: None, errors: Vec::new() };
    assert!(matches!(render_response(resp, key), Err(RegistrationError::MissingResult)));
}

#[test]
fn result_without_peer_is_an_error() {
    let key = PrivateKey::parse(BASE64_KEY).unwrap();
    let resp = CFResp { success: true, result: Some(sample_result(0)), errors: Vec::new() };
    assert!(matches!(render_response(resp, key), Err(RegistrationError::NoPeer)));
    assert!(matches!(sample_result(0).to_wg_config(key), Err(RegistrationError::NoPeer)));
}
