//! Wi-Fi bearer settings: the sender's hotspot credentials and the
//! receiver's interface bookkeeping.
use vstd::prelude::*;
use crate::text::push_str;
use crate::text::string_of;

verus! {

/// The character for a draw: `0-9` then `a-z`, by the draw modulo 36.
pub open spec fn credential_char(draw: usize) -> char {
    let k: nat = (draw % 36) as nat;
    if k < 10 {
        crate::text::digit_char(k)
    } else {
        ((k - 10) + 97) as char
    }
}

/// The credential text for a sequence of draws.
pub open spec fn credential_text(draws: Seq<usize>) -> Seq<char> {
    draws.map_values(|d: usize| credential_char(d))
}

/// Relies on `rand::random::<usize>`: a uniformly random draw.
#[verifier::external_body]
fn random_draw() -> (r: usize) {
    rand::random::<usize>()
}

fn credential_char_of(draw: usize) -> (c: char)
    ensures
        c == credential_char(draw),
{
    let k: usize = draw % 36;
    if k < 10 {
        crate::text::digit_of(k as u8)
    } else {
        ((k - 10) as u8 + 97u8) as char
    }
}

/// Hotspot settings for the sender.
#[derive(Debug, Clone)]
pub struct P2pConfig {
    /// Wireless interface, usually `wlan0`.
    pub interface: String,
    /// Prefix of the generated SSID.
    pub ssid_prefix: String,
    pub use_5ghz: bool,
}

impl Default for P2pConfig {
    fn default() -> (r: Self)
        ensures
            r.interface@ == "wlan0"@,
            r.ssid_prefix@ == "DIRECT-"@,
            r.use_5ghz,
    {
        P2pConfig {
            interface: String::from_str("wlan0"),
            ssid_prefix: String::from_str("DIRECT-"),
            use_5ghz: true,
        }
    }
}

impl P2pConfig {
    /// The SSID and passphrase for the given draws: the SSID prefix followed
    /// by one character per SSID draw, and one character per passphrase draw.
    pub fn credentials_from_draws(&self, ssid_draws: &Vec<usize>, psk_draws: &Vec<usize>) -> (r: (
        String,
        String,
    ))
        ensures
            r.0@ == self.ssid_prefix@ + credential_text(ssid_draws@),
            r.1@ == credential_text(psk_draws@),
    {
        let mut ssid: Vec<char> = Vec::new();
        push_str(&mut ssid, self.ssid_prefix.as_str());
        let ghost head = ssid@;
        let mut i: usize = 0;
        while i < ssid_draws.len()
            invariant
                i <= ssid_draws@.len(),
                ssid@ == head + credential_text(ssid_draws@.subrange(0, i as int)),
            decreases ssid_draws@.len() - i,
        {
            ssid.push(credential_char_of(ssid_draws[i]));
            i = i + 1;
            assert(credential_text(ssid_draws@.subrange(0, i as int)) =~= credential_text(
                ssid_draws@.subrange(0, i - 1),
            ).push(credential_char(ssid_draws@[i - 1])));
        }
        assert(ssid_draws@.subrange(0, i as int) =~= ssid_draws@);
        let mut psk: Vec<char> = Vec::new();
        let mut j: usize = 0;
        while j < psk_draws.len()
            invariant
                j <= psk_draws@.len(),
                psk@ == credential_text(psk_draws@.subrange(0, j as int)),
            decreases psk_draws@.len() - j,
        {
            psk.push(credential_char_of(psk_draws[j]));
            j = j + 1;
            assert(credential_text(psk_draws@.subrange(0, j as int)) =~= credential_text(
                psk_draws@.subrange(0, j - 1),
            ).push(credential_char(psk_draws@[j - 1])));
        }
        assert(psk_draws@.subrange(0, j as int) =~= psk_draws@);
        (string_of(&ssid), string_of(&psk))
    }

    /// Fresh random credentials: the SSID prefix plus 8 characters from
    /// `[0-9a-z]`, and an 8-character passphrase from the same set.
    pub fn generate_credentials(&self) -> (r: (String, String))
        ensures
            r.0@.len() == self.ssid_prefix@.len() + 8,
            r.0@.subrange(0, self.ssid_prefix@.len() as int) == self.ssid_prefix@,
            r.1@.len() == 8,
            exists|a: Seq<usize>, b: Seq<usize>|
                a.len() == 8 && b.len() == 8 && #[trigger] credential_text(a) == r.0@.subrange(
                    self.ssid_prefix@.len() as int,
                    r.0@.len() as int,
                ) && #[trigger] credential_text(b) == r.1@,
    {
        let mut a: Vec<usize> = Vec::new();
        let mut b: Vec<usize> = Vec::new();
        let mut i: usize = 0;
        while i < 8
            invariant
                i <= 8,
                a@.len() == i,
                b@.len() == i,
            decreases 8 - i,
        {
            a.push(random_draw());
            b.push(random_draw());
            i = i + 1;
        }
        let r = self.credentials_from_draws(&a, &b);
        assert(r.0@.subrange(self.ssid_prefix@.len() as int, r.0@.len() as int) =~= credential_text(
            a@,
        ));
        assert(r.0@.subrange(0, self.ssid_prefix@.len() as int) =~= self.ssid_prefix@);
        r
    }
}

/// The sender's side of the bearer: the hotspot settings.
pub struct WiFiP2pSender {
    pub config: P2pConfig,
}

impl WiFiP2pSender {
    /// A sender on the given interface with the default prefix and band.
    pub fn new(interface: &str) -> (r: Self)
        ensures
            r.config.interface@ == interface@,
            r.config.ssid_prefix@ == "DIRECT-"@,
            r.config.use_5ghz,
    {
        WiFiP2pSender {
            config: P2pConfig {
                interface: String::from_str(interface),
                ssid_prefix: String::from_str("DIRECT-"),
                use_5ghz: true,
            },
        }
    }

    /// A sender with the given settings.
    pub fn with_config(config: P2pConfig) -> (r: Self)
        ensures
            r.config == config,
    {
        WiFiP2pSender { config }
    }

    /// Fresh random hotspot credentials (see [`P2pConfig::generate_credentials`]).
    pub fn generate_credentials(&self) -> (r: (String, String))
        ensures
            r.0@.len() == self.config.ssid_prefix@.len() + 8,
            r.0@.subrange(0, self.config.ssid_prefix@.len() as int) == self.config.ssid_prefix@,
            r.1@.len() == 8,
            exists|a: Seq<usize>, b: Seq<usize>|
                a.len() == 8 && b.len() == 8 && #[trigger] credential_text(a) == r.0@.subrange(
                    self.config.ssid_prefix@.len() as int,
                    r.0@.len() as int,
                ) && #[trigger] credential_text(b) == r.1@,
    {
        self.config.generate_credentials()
    }
}

/// Interface settings for the receiver.
#[derive(Debug, Clone)]
pub struct P2pReceiverConfig {
    /// Main wireless interface, such as `wlan0`.
    pub main_interface: String,
    /// A dedicated P2P device interface, when one exists.
    pub p2p_device: Option<String>,
    /// Prefer keeping the existing Wi-Fi association.
    pub preserve_wifi: bool,
}

impl Default for P2pReceiverConfig {
    fn default() -> (r: Self)
        ensures
            r.main_interface@ == "wlan0"@,
            r.p2p_device is None,
            r.preserve_wifi,
    {
        P2pReceiverConfig {
            main_interface: String::from_str("wlan0"),
            p2p_device: None,
            preserve_wifi: true,
        }
    }
}

/// The receiver's side of the bearer: which interface carries the
/// association.
pub struct WiFiP2pReceiver {
    pub config: P2pReceiverConfig,
    /// The interface in use once connected.
    pub active_interface: Option<String>,
    /// Whether a virtual interface was created for the association.
    pub created_virtual_interface: bool,
    /// Network id kept for cleanup.
    pub network_id: Option<String>,
}

impl WiFiP2pReceiver {
    /// A receiver on the given main interface, not yet connected.
    pub fn new(interface: &str) -> (r: Self)
        ensures
            r.config.main_interface@ == interface@,
            r.config.p2p_device is None,
            r.config.preserve_wifi,
            r.active_interface is None,
            !r.created_virtual_interface,
            r.network_id is None,
    {
        WiFiP2pReceiver {
            config: P2pReceiverConfig {
                main_interface: String::from_str(interface),
                p2p_device: None,
                preserve_wifi: true,
            },
            active_interface: None,
            created_virtual_interface: false,
            network_id: None,
        }
    }

    /// A receiver with the given settings, not yet connected.
    pub fn with_config(config: P2pReceiverConfig) -> (r: Self)
        ensures
            r.config == config,
            r.active_interface is None,
            !r.created_virtual_interface,
            r.network_id is None,
    {
        WiFiP2pReceiver { config, active_interface: None, created_virtual_interface: false, network_id: None }
    }

    /// The interface in use: the one connected through, else the main one.
    pub fn active_interface(&self) -> (r: &str)
        ensures
            r@ == match self.active_interface {
                Some(s) => s@,
                None => self.config.main_interface@,
            },
    {
        match &self.active_interface {
            Some(s) => s.as_str(),
            None => self.config.main_interface.as_str(),
        }
    }

    /// Whether the main association is kept alongside the peer link: a
    /// virtual interface was created, or the active interface is not the
    /// main one.
    pub fn is_dual_connected(&self) -> (r: bool)
        ensures
            r == (self.created_virtual_interface || !(self.active_interface is Some
                && self.active_interface->0@ == self.config.main_interface@)),
    {
        if self.created_virtual_interface {
            return true;
        }
        match &self.active_interface {
            Some(s) => !crate::text::same_text(s.as_str(), self.config.main_interface.as_str()),
            None => true,
        }
    }
}

} // verus!
