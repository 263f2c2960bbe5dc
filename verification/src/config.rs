//! The stored configuration: the wifi settings and the general settings.
use vstd::prelude::*;
use crate::text_format::{capped, append_capped, ascii_bytes};

verus! {

/// How the wifi network authenticates.
#[derive(Clone, Copy, PartialEq, Eq, Debug, Structural)]
pub enum Auth {
    Open,
    Wpa,
    Wpa2,
    Wpa2Mixed,
    Wpa3,
    Wpa2Wpa3,
}

/// The number an authentication is stored as.
pub open spec fn auth_number(a: Auth) -> u8 {
    match a {
        Auth::Open => 0,
        Auth::Wpa => 1,
        Auth::Wpa2 => 2,
        Auth::Wpa2Mixed => 3,
        Auth::Wpa3 => 4,
        Auth::Wpa2Wpa3 => 5,
    }
}

impl Auth {
    /// The number the authentication is stored as.
    pub fn code(self) -> (r: u8)
        ensures
            r == auth_number(self),
    {
        match self {
            Auth::Open => 0,
            Auth::Wpa => 1,
            Auth::Wpa2 => 2,
            Auth::Wpa2Mixed => 3,
            Auth::Wpa3 => 4,
            Auth::Wpa2Wpa3 => 5,
        }
    }

    /// The authentication stored as `v`; `None` for a number that no
    /// authentication has.
    pub fn from_code(v: u8) -> (r: Option<Auth>)
        ensures
            match r {
                Some(a) => auth_number(a) == v,
                None => v > 5,
            },
    {
        if v == 0 { Some(Auth::Open) }
        else if v == 1 { Some(Auth::Wpa) }
        else if v == 2 { Some(Auth::Wpa2) }
        else if v == 3 { Some(Auth::Wpa2Mixed) }
        else if v == 4 { Some(Auth::Wpa3) }
        else if v == 5 { Some(Auth::Wpa2Wpa3) }
        else { None }
    }
}

/// Each authentication reads back from the number it is stored as, and no
/// two share a number.
pub proof fn lemma_auth_code_roundtrip(a: Auth, b: Auth)
    ensures
        auth_number(a) <= 5,
        auth_number(a) == auth_number(b) ==> a == b,
{
}

/// Capacity of the network name and of the host name.
pub const SSID_MAX: usize = 32;
/// Capacity of the network password.
pub const WIFI_PASSWORD_MAX: usize = 64;

/// The wifi settings.
#[derive(Debug)]
pub struct WifiConfig {
    pub version: u8,
    pub ssid: Vec<u8>,
    pub password: Vec<u8>,
    pub hostname: Vec<u8>,
    pub enabled: bool,
    pub auth: Auth,
}

/// The host name used until one is stored.
pub const DEFAULT_HOSTNAME: &'static str = "hi-happy-garden";

/// The bytes of `DEFAULT_HOSTNAME`.
pub open spec fn default_hostname() -> Seq<u8> {
    DEFAULT_HOSTNAME@.map_values(|c: char| c as u8)
}

/// `s` cut to `cap` bytes, as a fixed-size text takes it.
fn capped_bytes(s: &[u8], cap: usize) -> (r: Vec<u8>)
    ensures
        r@ == capped(s@, cap as nat),
{
    let mut out: Vec<u8> = Vec::new();
    append_capped(&mut out, s, cap);
    assert(out@ =~= capped(Seq::<u8>::empty() + s@, cap as nat));
    assert(Seq::<u8>::empty() + s@ =~= s@);
    out
}

impl WifiConfig {
    /// The settings before any are stored: no network, the host name
    /// `hi-happy-garden`, disabled, WPA2.
    pub fn default() -> (r: WifiConfig)
        ensures
            r.version == 0,
            r.ssid@.len() == 0,
            r.password@.len() == 0,
            r.hostname@ == default_hostname(),
            !r.enabled,
            r.auth == Auth::Wpa2,
    {
        let hostname = ascii_bytes(DEFAULT_HOSTNAME);
        WifiConfig { version: 0, ssid: Vec::new(), password: Vec::new(), hostname, enabled: false, auth: Auth::Wpa2 }
    }

    /// The settings' version.
    pub fn get_version(&self) -> (r: u8)
        ensures
            r == self.version,
    {
        self.version
    }

    /// The network name.
    pub fn get_ssid(&self) -> (r: &Vec<u8>)
        ensures
            r@ == self.ssid@,
    {
        &self.ssid
    }

    /// The network password.
    pub fn get_password(&self) -> (r: &Vec<u8>)
        ensures
            r@ == self.password@,
    {
        &self.password
    }

    /// The host name.
    pub fn get_hostname(&self) -> (r: &Vec<u8>)
        ensures
            r@ == self.hostname@,
    {
        &self.hostname
    }

    /// Whether the wifi is enabled.
    pub fn is_enabled(&self) -> (r: bool)
        ensures
            r == self.enabled,
    {
        self.enabled
    }

    /// The authentication of the network.
    pub fn get_auth(&self) -> (r: Auth)
        ensures
            r == self.auth,
    {
        self.auth
    }

    /// Sets the network name, cut to `SSID_MAX` bytes.
    pub fn set_ssid(&mut self, ssid: &[u8])
        ensures
            final(self).ssid@ == capped(ssid@, SSID_MAX as nat),
            final(self).password == old(self).password,
            final(self).hostname == old(self).hostname,
            final(self).version == old(self).version,
            final(self).enabled == old(self).enabled,
            final(self).auth == old(self).auth,
    {
        self.ssid = capped_bytes(ssid, SSID_MAX);
    }

    /// Sets the network password, cut to `WIFI_PASSWORD_MAX` bytes.
    pub fn set_password(&mut self, password: &[u8])
        ensures
            final(self).password@ == capped(password@, WIFI_PASSWORD_MAX as nat),
            final(self).ssid == old(self).ssid,
            final(self).hostname == old(self).hostname,
            final(self).version == old(self).version,
            final(self).enabled == old(self).enabled,
            final(self).auth == old(self).auth,
    {
        self.password = capped_bytes(password, WIFI_PASSWORD_MAX);
    }

    /// Sets the host name, cut to `SSID_MAX` bytes.
    pub fn set_hostname(&mut self, hostname: &[u8])
        ensures
            final(self).hostname@ == capped(hostname@, SSID_MAX as nat),
            final(self).ssid == old(self).ssid,
            final(self).password == old(self).password,
            final(self).version == old(self).version,
            final(self).enabled == old(self).enabled,
            final(self).auth == old(self).auth,
    {
        self.hostname = capped_bytes(hostname, SSID_MAX);
    }

    /// Enables or disables the wifi.
    pub fn set_enabled(&mut self, enabled: bool)
        ensures
            final(self).enabled == enabled,
            final(self).ssid == old(self).ssid,
            final(self).password == old(self).password,
            final(self).hostname == old(self).hostname,
            final(self).version == old(self).version,
            final(self).auth == old(self).auth,
    {
        self.enabled = enabled;
    }

    /// Sets the authentication of the network.
    pub fn set_auth(&mut self, auth: Auth)
        ensures
            final(self).auth == auth,
            final(self).ssid == old(self).ssid,
            final(self).password == old(self).password,
            final(self).hostname == old(self).hostname,
            final(self).version == old(self).version,
            final(self).enabled == old(self).enabled,
    {
        self.auth = auth;
    }
}

/// The general settings.
#[derive(Clone, Copy, PartialEq, Eq, Debug, Structural)]
pub struct Config {
    pub version: u8,
    pub timezone: u16,
    pub daylight_saving_time: bool,
}

} // verus!
