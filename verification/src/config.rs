//! Configuration of the gateway, as plain values.
use std::sync::Arc;
use vstd::prelude::*;

verus! {

/// An IP address in text form, and a port.
#[derive(Debug)]
pub struct SocketAddress {
    pub ip: String,
    pub port: u16,
}

impl Clone for SocketAddress {
    fn clone(&self) -> (r: Self)
        ensures
            r == *self,
    {
        SocketAddress { ip: self.ip.clone(), port: self.port }
    }
}

/// The settings shared by the whole platform, one field per setting.
#[derive(Clone, Debug)]
pub struct PlatformConfig {
    pub env: String,
    pub rust_log: String,
    pub service_version: String,
    pub grpc_tls_ca_path: String,
    pub redis_url: String,
    pub rabbitmq_url: String,
    pub media_service_public_ip: String,
    pub media_service_target_grpc_url: String,
    pub user_service_target_grpc_url: String,
    pub dialplan_service_target_grpc_url: String,
    pub sip_signaling_udp_port: u16,
    pub sip_signaling_realm: String,
    pub sip_signaling_cert_path: String,
    pub sip_signaling_key_path: String,
}

/// The environment name used where none is configured.
pub fn default_env() -> (r: String)
    ensures
        r@ == "development"@,
{
    String::from_str("development")
}

/// The log filter used where none is configured.
pub fn default_rust_log() -> (r: String)
    ensures
        r@ == "info,h2=warn,hyper=warn"@,
{
    String::from_str("info,h2=warn,hyper=warn")
}

/// The service version: the configured one, or `0.1.0` where none is.
pub fn default_version(configured: Option<String>) -> (r: String)
    ensures
        r@ == (match configured {
            Some(v) => v@,
            None => "0.1.0"@,
        }),
{
    match configured {
        Some(v) => v,
        None => String::from_str("0.1.0"),
    }
}

/// The settings this service works with, derived from the platform's.
#[derive(Clone, Debug)]
pub struct AppConfig {
    pub env: String,
    pub service_version: String,
    pub rust_log: String,
    pub cert_path: String,
    pub key_path: String,
    pub ca_path: String,
    pub sip_listen_addr: SocketAddress,
    pub sip_public_ip: String,
    pub sip_realm: String,
    pub media_service_public_ip: String,
    pub media_service_url: String,
    pub dialplan_service_url: String,
    pub user_service_url: String,
    pub rabbitmq_url: String,
    pub redis_url: String,
}

impl AppConfig {
    /// The service's settings for the platform settings `pc`. The service
    /// listens on every interface, at the configured UDP port, and advertises
    /// the platform's public media address as its own.
    pub fn from(pc: Arc<PlatformConfig>) -> (r: AppConfig)
        ensures
            r.env == pc.env,
            r.service_version == pc.service_version,
            r.rust_log == pc.rust_log,
            r.cert_path == pc.sip_signaling_cert_path,
            r.key_path == pc.sip_signaling_key_path,
            r.ca_path == pc.grpc_tls_ca_path,
            r.sip_listen_addr.ip@ == "0.0.0.0"@,
            r.sip_listen_addr.port == pc.sip_signaling_udp_port,
            r.sip_public_ip == pc.media_service_public_ip,
            r.sip_realm == pc.sip_signaling_realm,
            r.media_service_public_ip == pc.media_service_public_ip,
            r.media_service_url == pc.media_service_target_grpc_url,
            r.dialplan_service_url == pc.dialplan_service_target_grpc_url,
            r.user_service_url == pc.user_service_target_grpc_url,
            r.rabbitmq_url == pc.rabbitmq_url,
            r.redis_url == pc.redis_url,
    {
        AppConfig {
            env: pc.env.clone(),
            service_version: pc.service_version.clone(),
            rust_log: pc.rust_log.clone(),
            cert_path: pc.sip_signaling_cert_path.clone(),
            key_path: pc.sip_signaling_key_path.clone(),
            ca_path: pc.grpc_tls_ca_path.clone(),
            sip_listen_addr: SocketAddress {
                ip: String::from_str("0.0.0.0"),
                port: pc.sip_signaling_udp_port,
            },
            sip_public_ip: pc.media_service_public_ip.clone(),
            sip_realm: pc.sip_signaling_realm.clone(),
            media_service_public_ip: pc.media_service_public_ip.clone(),
            media_service_url: pc.media_service_target_grpc_url.clone(),
            dialplan_service_url: pc.dialplan_service_target_grpc_url.clone(),
            user_service_url: pc.user_service_target_grpc_url.clone(),
            rabbitmq_url: pc.rabbitmq_url.clone(),
            redis_url: pc.redis_url.clone(),
        }
    }
}

} // verus!
