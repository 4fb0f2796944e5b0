//! Enrolls a device with a managed VPN service and renders the tunnel
//! configuration that the service hands back.
//!
//! The library holds the decisions of that workflow: key handling, the
//! registration request body, the reading of the service's reply, and the
//! rendering of the configuration text. Reading input and talking to the
//! network are left to the caller.

pub mod cli;
pub mod keys;
pub mod registration;
pub mod text;
pub mod wireguard_config;

pub use cli::Args;
pub use keys::{get_wg_privkey, KeyError, PrivateKey, PublicKey};
pub use registration::{
    ApiMessage, CFResp, Endpoint, Interface, Peer, Registration, RegistrationError, RegistrationResult,
};
pub use wireguard_config::WireguardConfig;
