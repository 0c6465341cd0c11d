//! A builder for the node's own advertised identity.

use vstd::prelude::*;

use crate::crypto::generate_fingerprint;
use crate::protocol::{DeviceInfo, DeviceType, Protocol, PROTOCOL_VERSION};

verus! {

/// Collects the fields of a [`DeviceInfo`] with sensible defaults: HTTPS,
/// no download API, and a fresh random fingerprint unless one is given.
#[derive(Clone, Debug)]
pub struct DeviceInfoBuilder {
    pub alias: String,
    pub port: u16,
    pub protocol: Protocol,
    pub fingerprint: Option<String>,
    pub device_model: Option<String>,
    pub device_type: Option<DeviceType>,
    pub download: bool,
    pub ip: Option<String>,
}

impl DeviceInfoBuilder {
    /// Start from the required fields; HTTPS by default.
    pub fn new(alias: String, port: u16) -> (r: Self)
        ensures
            r.alias == alias,
            r.port == port,
            r.protocol is Https,
            r.fingerprint is None,
            r.device_model is None,
            r.device_type is None,
            !r.download,
            r.ip is None,
    {
        DeviceInfoBuilder {
            alias,
            port,
            protocol: Protocol::Https,
            fingerprint: None,
            device_model: None,
            device_type: None,
            download: false,
            ip: None,
        }
    }

    /// Choose the transport scheme.
    pub fn protocol(self, protocol: Protocol) -> (r: Self)
        ensures
            r == (DeviceInfoBuilder { protocol, ..self }),
    {
        DeviceInfoBuilder { protocol, ..self }
    }

    /// Serve plain HTTP.
    pub fn http(self) -> (r: Self)
        ensures
            r == (DeviceInfoBuilder { protocol: Protocol::Http, ..self }),
    {
        DeviceInfoBuilder { protocol: Protocol::Http, ..self }
    }

    /// Serve HTTPS (the default).
    pub fn https(self) -> (r: Self)
        ensures
            r == (DeviceInfoBuilder { protocol: Protocol::Https, ..self }),
    {
        DeviceInfoBuilder { protocol: Protocol::Https, ..self }
    }

    /// Use this fingerprint instead of a random one.
    pub fn fingerprint(self, fingerprint: String) -> (r: Self)
        ensures
            r == (DeviceInfoBuilder { fingerprint: Some(fingerprint), ..self }),
    {
        DeviceInfoBuilder { fingerprint: Some(fingerprint), ..self }
    }

    /// Name the device model.
    pub fn device_model(self, model: String) -> (r: Self)
        ensures
            r == (DeviceInfoBuilder { device_model: Some(model), ..self }),
    {
        DeviceInfoBuilder { device_model: Some(model), ..self }
    }

    /// Name the device category.
    pub fn device_type(self, device_type: DeviceType) -> (r: Self)
        ensures
            r == (DeviceInfoBuilder { device_type: Some(device_type), ..self }),
    {
        DeviceInfoBuilder { device_type: Some(device_type), ..self }
    }

    /// Advertise the reverse-pull download API.
    pub fn enable_download(self) -> (r: Self)
        ensures
            r == (DeviceInfoBuilder { download: true, ..self }),
    {
        DeviceInfoBuilder { download: true, ..self }
    }

    /// Pin the address the identity is reachable at.
    pub fn ip(self, ip: String) -> (r: Self)
        ensures
            r == (DeviceInfoBuilder { ip: Some(ip), ..self }),
    {
        DeviceInfoBuilder { ip: Some(ip), ..self }
    }

    /// Assemble the identity: the current protocol version, a desktop
    /// device unless said otherwise, and a random fingerprint (36
    /// characters) unless one was given.
    pub fn build(self) -> (r: DeviceInfo)
        ensures
            r.alias == self.alias,
            r.version@ == PROTOCOL_VERSION@,
            r.device_model == self.device_model,
            r.device_type == if self.device_type is Some {
                self.device_type
            } else {
                Some(DeviceType::Desktop)
            },
            match self.fingerprint {
                Some(f) => r.fingerprint == f,
                None => r.fingerprint@.len() == 36,
            },
            r.port == self.port,
            r.protocol == self.protocol,
            r.download == self.download,
            r.ip == self.ip,
    {
        let fingerprint = match self.fingerprint {
            Some(f) => f,
            None => generate_fingerprint(),
        };
        let device_type = match self.device_type {
            Some(t) => Some(t),
            None => Some(DeviceType::Desktop),
        };
        DeviceInfo {
            alias: self.alias,
            version: String::from_str(PROTOCOL_VERSION),
            device_model: self.device_model,
            device_type,
            fingerprint,
            port: self.port,
            protocol: self.protocol,
            download: self.download,
            ip: self.ip,
        }
    }
}

} // verus!
