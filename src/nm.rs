//! Connection templates handed to the network-management service: a WPA2
//! hotspot in shared mode for the sender, and a WPA2 client connection for
//! the receiver. Each setting is a section, a key and a value.
use vstd::prelude::*;
use vstd::string::StrSliceExecFns;

verus! {

/// A setting's value.
#[derive(Debug, Clone, PartialEq)]
pub enum SettingValue {
    Text(String),
    Flag(bool),
    Bytes(Vec<u8>),
}

/// One `section.key = value` setting.
#[derive(Debug, Clone, PartialEq)]
pub struct Setting {
    pub section: String,
    pub key: String,
    pub value: SettingValue,
}

/// A setting's value, as data.
pub enum ValueModel {
    Text(Seq<char>),
    Flag(bool),
    Bytes(Seq<u8>),
}

/// A setting as data.
pub open spec fn setting_model(s: Setting) -> (Seq<char>, Seq<char>, ValueModel) {
    (
        s.section@,
        s.key@,
        match s.value {
            SettingValue::Text(t) => ValueModel::Text(t@),
            SettingValue::Flag(b) => ValueModel::Flag(b),
            SettingValue::Bytes(b) => ValueModel::Bytes(b@),
        },
    )
}

/// Settings as data.
pub open spec fn settings_model(v: Seq<Setting>) -> Seq<(Seq<char>, Seq<char>, ValueModel)> {
    v.map_values(|s: Setting| setting_model(s))
}

/// The first eight characters of an SSID (all of it when shorter).
pub open spec fn ssid_tag(ssid: Seq<char>) -> Seq<char> {
    ssid.subrange(0, if ssid.len() < 8 { ssid.len() as int } else { 8 })
}

/// The wireless part shared by both templates: the SSID bytes and the mode.
pub open spec fn wireless_part(ssid: Seq<char>, mode: Seq<char>) -> Seq<(Seq<char>, Seq<char>, ValueModel)> {
    seq![
        ("802-11-wireless"@, "ssid"@, ValueModel::Bytes(vstd::utf8::encode_utf8(ssid))),
        ("802-11-wireless"@, "mode"@, ValueModel::Text(mode)),
    ]
}

/// The hotspot template: connection `cattysend-hotspot-<tag>` of type
/// 802-11-wireless, not autoconnecting, bound to the interface; access-point
/// mode on the given band; WPA-PSK; IPv4 shared; IPv6 ignored.
pub open spec fn hotspot_model(ssid: Seq<char>, psk: Seq<char>, band: Seq<char>, iface: Seq<char>) -> Seq<(Seq<char>, Seq<char>, ValueModel)> {
    seq![
        ("connection"@, "id"@, ValueModel::Text("cattysend-hotspot-"@ + ssid_tag(ssid))),
        ("connection"@, "type"@, ValueModel::Text("802-11-wireless"@)),
        ("connection"@, "autoconnect"@, ValueModel::Flag(false)),
        ("connection"@, "interface-name"@, ValueModel::Text(iface)),
    ] + wireless_part(ssid, "ap"@) + seq![
        ("802-11-wireless"@, "band"@, ValueModel::Text(band)),
        ("802-11-wireless-security"@, "key-mgmt"@, ValueModel::Text("wpa-psk"@)),
        ("802-11-wireless-security"@, "psk"@, ValueModel::Text(psk)),
        ("ipv4"@, "method"@, ValueModel::Text("shared"@)),
        ("ipv6"@, "method"@, ValueModel::Text("ignore"@)),
    ]
}

/// The client template: connection `cattysend-wifi-<tag>` of type
/// 802-11-wireless, not autoconnecting, bound to the interface when one is
/// given; infrastructure mode; WPA-PSK; IPv4 and IPv6 automatic.
pub open spec fn client_model(ssid: Seq<char>, psk: Seq<char>, iface: Option<Seq<char>>) -> Seq<(Seq<char>, Seq<char>, ValueModel)> {
    seq![
        ("connection"@, "id"@, ValueModel::Text("cattysend-wifi-"@ + ssid_tag(ssid))),
        ("connection"@, "type"@, ValueModel::Text("802-11-wireless"@)),
        ("connection"@, "autoconnect"@, ValueModel::Flag(false)),
    ] + match iface {
        Some(i) => seq![("connection"@, "interface-name"@, ValueModel::Text(i))],
        None => Seq::empty(),
    } + wireless_part(ssid, "infrastructure"@) + seq![
        ("802-11-wireless-security"@, "key-mgmt"@, ValueModel::Text("wpa-psk"@)),
        ("802-11-wireless-security"@, "psk"@, ValueModel::Text(psk)),
        ("ipv4"@, "method"@, ValueModel::Text("auto"@)),
        ("ipv6"@, "method"@, ValueModel::Text("auto"@)),
    ]
}

fn push_setting(out: &mut Vec<Setting>, s: Setting)
    ensures
        settings_model(final(out)@) == settings_model(old(out)@).push(setting_model(s)),
{
    out.push(s);
    assert(settings_model(final(out)@) =~= settings_model(old(out)@).push(setting_model(s)));
}

fn text_setting(section: &str, key: &str, value: &str) -> (r: Setting)
    ensures
        setting_model(r) == (section@, key@, ValueModel::Text(value@)),
{
    Setting {
        section: String::from_str(section),
        key: String::from_str(key),
        value: SettingValue::Text(String::from_str(value)),
    }
}

fn connection_id(prefix: &str, ssid: &str) -> (r: String)
    ensures
        r@ == prefix@ + ssid_tag(ssid@),
{
    let cs = crate::text::chars_of(ssid);
    let mut out: Vec<char> = Vec::new();
    crate::text::push_str(&mut out, prefix);
    let ghost head = out@;
    let end: usize = if cs.len() < 8 { cs.len() } else { 8 };
    let mut i: usize = 0;
    while i < end
        invariant
            cs@ == ssid@,
            end <= cs@.len(),
            i <= end,
            out@ == head + cs@.subrange(0, i as int),
        decreases end - i,
    {
        out.push(cs[i]);
        i = i + 1;
        assert(out@ =~= head + cs@.subrange(0, i as int));
    }
    crate::text::string_of(&out)
}

fn push_wireless(out: &mut Vec<Setting>, ssid: &str, mode: &str)
    ensures
        settings_model(final(out)@) == settings_model(old(out)@) + wireless_part(ssid@, mode@),
{
    push_setting(
        out,
        Setting {
            section: String::from_str("802-11-wireless"),
            key: String::from_str("ssid"),
            value: SettingValue::Bytes(ssid.as_bytes_vec()),
        },
    );
    push_setting(out, text_setting("802-11-wireless", "mode", mode));
    assert(settings_model(final(out)@) =~= settings_model(old(out)@) + wireless_part(ssid@, mode@));
}

/// The band value: `a` for 5 GHz, `bg` otherwise.
pub fn hotspot_band(use_5ghz: bool) -> (r: &'static str)
    ensures
        r@ == (if use_5ghz { "a"@ } else { "bg"@ }),
{
    if use_5ghz { "a" } else { "bg" }
}

/// The hotspot template (see [`hotspot_model`]).
pub fn build_hotspot_settings(ssid: &str, password: &str, band: &str, interface: &str) -> (r: Vec<Setting>)
    ensures
        settings_model(r@) == hotspot_model(ssid@, password@, band@, interface@),
{
    let mut out: Vec<Setting> = Vec::new();
    push_setting(
        &mut out,
        Setting {
            section: String::from_str("connection"),
            key: String::from_str("id"),
            value: SettingValue::Text(connection_id("cattysend-hotspot-", ssid)),
        },
    );
    push_setting(&mut out, text_setting("connection", "type", "802-11-wireless"));
    push_setting(
        &mut out,
        Setting {
            section: String::from_str("connection"),
            key: String::from_str("autoconnect"),
            value: SettingValue::Flag(false),
        },
    );
    push_setting(&mut out, text_setting("connection", "interface-name", interface));
    push_wireless(&mut out, ssid, "ap");
    push_setting(&mut out, text_setting("802-11-wireless", "band", band));
    push_setting(&mut out, text_setting("802-11-wireless-security", "key-mgmt", "wpa-psk"));
    push_setting(&mut out, text_setting("802-11-wireless-security", "psk", password));
    push_setting(&mut out, text_setting("ipv4", "method", "shared"));
    push_setting(&mut out, text_setting("ipv6", "method", "ignore"));
    assert(settings_model(out@) =~= hotspot_model(ssid@, password@, band@, interface@));
    out
}

/// The client template (see [`client_model`]).
pub fn build_wifi_client_settings(ssid: &str, password: &str, interface: Option<&str>) -> (r: Vec<Setting>)
    ensures
        settings_model(r@) == client_model(ssid@, password@, match interface {
            Some(i) => Some(i@),
            None => None,
        }),
{
    let mut out: Vec<Setting> = Vec::new();
    push_setting(
        &mut out,
        Setting {
            section: String::from_str("connection"),
            key: String::from_str("id"),
            value: SettingValue::Text(connection_id("cattysend-wifi-", ssid)),
        },
    );
    push_setting(&mut out, text_setting("connection", "type", "802-11-wireless"));
    push_setting(
        &mut out,
        Setting {
            section: String::from_str("connection"),
            key: String::from_str("autoconnect"),
            value: SettingValue::Flag(false),
        },
    );
    match interface {
        Some(i) => {
            push_setting(&mut out, text_setting("connection", "interface-name", i));
        },
        None => {},
    }
    push_wireless(&mut out, ssid, "infrastructure");
    push_setting(&mut out, text_setting("802-11-wireless-security", "key-mgmt", "wpa-psk"));
    push_setting(&mut out, text_setting("802-11-wireless-security", "psk", password));
    push_setting(&mut out, text_setting("ipv4", "method", "auto"));
    push_setting(&mut out, text_setting("ipv6", "method", "auto"));
    assert(settings_model(out@) =~= client_model(ssid@, password@, match interface {
        Some(i) => Some(i@),
        None => None,
    }));
    out
}

} // verus!

verus! {

/// Active-connection state: unknown.
pub const UNKNOWN: u32 = 0;

/// Active-connection state: activating.
pub const ACTIVATING: u32 = 1;

/// Active-connection state: activated.
pub const ACTIVATED: u32 = 2;

/// Active-connection state: deactivating.
pub const DEACTIVATING: u32 = 3;

/// Active-connection state: deactivated.
pub const DEACTIVATED: u32 = 4;

/// The name of an active-connection state.
pub fn name(state: u32) -> (r: &'static str)
    ensures
        r@ == (if state == UNKNOWN {
            "UNKNOWN"@
        } else if state == ACTIVATING {
            "ACTIVATING"@
        } else if state == ACTIVATED {
            "ACTIVATED"@
        } else if state == DEACTIVATING {
            "DEACTIVATING"@
        } else if state == DEACTIVATED {
            "DEACTIVATED"@
        } else {
            "INVALID"@
        }),
{
    if state == UNKNOWN {
        "UNKNOWN"
    } else if state == ACTIVATING {
        "ACTIVATING"
    } else if state == ACTIVATED {
        "ACTIVATED"
    } else if state == DEACTIVATING {
        "DEACTIVATING"
    } else if state == DEACTIVATED {
        "DEACTIVATED"
    } else {
        "INVALID"
    }
}

/// What one poll of an activating connection decides.
#[derive(Debug, Clone, Copy, PartialEq, Eq, Structural)]
pub enum ActivationStep {
    /// The connection is up.
    Activated,
    /// The connection is going or gone down: give up.
    Failed,
    /// Poll again after a pause, unless the deadline has passed.
    Wait,
    /// The deadline passed before activation.
    TimedOut,
}

/// The decision for a polled state: time runs out first; then activated
/// succeeds, deactivating or deactivated fails, anything else waits.
pub open spec fn activation_step_spec(state: u32, elapsed_ms: u64, timeout_ms: u64) -> ActivationStep {
    if elapsed_ms > timeout_ms {
        ActivationStep::TimedOut
    } else if state == ACTIVATED {
        ActivationStep::Activated
    } else if state == DEACTIVATING || state == DEACTIVATED {
        ActivationStep::Failed
    } else {
        ActivationStep::Wait
    }
}

/// The decision for one poll of an activating connection (see
/// [`activation_step_spec`]).
pub fn activation_step(state: u32, elapsed_ms: u64, timeout_ms: u64) -> (r: ActivationStep)
    ensures
        r == activation_step_spec(state, elapsed_ms, timeout_ms),
{
    if elapsed_ms > timeout_ms {
        ActivationStep::TimedOut
    } else if state == ACTIVATED {
        ActivationStep::Activated
    } else if state == DEACTIVATING || state == DEACTIVATED {
        ActivationStep::Failed
    } else {
        ActivationStep::Wait
    }
}

} // verus!
