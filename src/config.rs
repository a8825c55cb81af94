//! Local settings: the brand this host advertises as, 5 GHz support, and
//! the identity fields derived from them.
use vstd::prelude::*;

verus! {

/// The standard Bluetooth base UUID, low 96 bits.
pub const BLUETOOTH_BASE_LOW: u128 = 0x0000_1000_8000_0080_5f9b_34fb;

/// Brand ids this host can advertise as.
#[derive(Debug, Clone, Copy, PartialEq, Eq, Structural)]
pub enum BrandId {
    Unknown,
    Oppo,
    Realme,
    Vivo,
    Xiaomi,
    OnePlus,
    Meizu,
    Samsung,
    Lenovo,
    Linux,
}

/// The numeric id of a brand.
pub open spec fn brand_id_value(b: BrandId) -> u8 {
    match b {
        BrandId::Unknown => 0,
        BrandId::Oppo => 10,
        BrandId::Realme => 11,
        BrandId::Vivo => 20,
        BrandId::Xiaomi => 30,
        BrandId::OnePlus => 41,
        BrandId::Meizu => 50,
        BrandId::Samsung => 70,
        BrandId::Lenovo => 100,
        BrandId::Linux => 200,
    }
}

/// The brand id a numeric id reads as.
pub open spec fn brand_id_of(id: u8) -> BrandId {
    if id == 10 { BrandId::Oppo }
    else if id == 11 { BrandId::Realme }
    else if 20 <= id <= 29 { BrandId::Vivo }
    else if 30 <= id <= 39 { BrandId::Xiaomi }
    else if 41 <= id <= 45 { BrandId::OnePlus }
    else if 50 <= id <= 59 { BrandId::Meizu }
    else if 70 <= id <= 75 { BrandId::Samsung }
    else if 100 <= id <= 109 { BrandId::Lenovo }
    else if id == 200 { BrandId::Linux }
    else { BrandId::Unknown }
}

/// The 16-bit capability value: 5 GHz flag in the high byte, brand id low.
pub open spec fn capability_value(supports_5ghz: bool, brand: u8) -> u16 {
    ((if supports_5ghz { 0x100int } else { 0int }) + brand as int) as u16
}

impl BrandId {
    /// The vendor name.
    pub fn name(&self) -> (r: &'static str)
        ensures
            r@ == (match *self {
                BrandId::Unknown => "Unknown"@,
                BrandId::Oppo => "OPPO"@,
                BrandId::Realme => "realme"@,
                BrandId::Vivo => "vivo"@,
                BrandId::Xiaomi => "Xiaomi"@,
                BrandId::OnePlus => "OnePlus"@,
                BrandId::Meizu => "Meizu"@,
                BrandId::Samsung => "Samsung"@,
                BrandId::Lenovo => "Lenovo"@,
                BrandId::Linux => "Linux"@,
            }),
    {
        match *self {
            BrandId::Unknown => "Unknown",
            BrandId::Oppo => "OPPO",
            BrandId::Realme => "realme",
            BrandId::Vivo => "vivo",
            BrandId::Xiaomi => "Xiaomi",
            BrandId::OnePlus => "OnePlus",
            BrandId::Meizu => "Meizu",
            BrandId::Samsung => "Samsung",
            BrandId::Lenovo => "Lenovo",
            BrandId::Linux => "Linux",
        }
    }

    /// The brand id a numeric id reads as.
    pub fn from_id(id: u8) -> (r: BrandId)
        ensures
            r == brand_id_of(id),
    {
        if id == 10 { BrandId::Oppo }
        else if id == 11 { BrandId::Realme }
        else if 20 <= id && id <= 29 { BrandId::Vivo }
        else if 30 <= id && id <= 39 { BrandId::Xiaomi }
        else if 41 <= id && id <= 45 { BrandId::OnePlus }
        else if 50 <= id && id <= 59 { BrandId::Meizu }
        else if 70 <= id && id <= 75 { BrandId::Samsung }
        else if 100 <= id && id <= 109 { BrandId::Lenovo }
        else if id == 200 { BrandId::Linux }
        else { BrandId::Unknown }
    }

    /// The numeric id.
    pub fn id(&self) -> (r: u8)
        ensures
            r == brand_id_value(*self),
    {
        match *self {
            BrandId::Unknown => 0,
            BrandId::Oppo => 10,
            BrandId::Realme => 11,
            BrandId::Vivo => 20,
            BrandId::Xiaomi => 30,
            BrandId::OnePlus => 41,
            BrandId::Meizu => 50,
            BrandId::Samsung => 70,
            BrandId::Lenovo => 100,
            BrandId::Linux => 200,
        }
    }
}

/// Persisted application settings.
#[derive(Debug, Clone)]
pub struct AppSettings {
    /// Name shown to peers while advertising.
    pub device_name: String,
    pub brand_id: BrandId,
    pub supports_5ghz: bool,
    pub wifi_interface: String,
    /// Directory that received files are written to.
    pub download_dir: String,
    pub auto_accept: bool,
    pub verbose: bool,
}

impl AppSettings {
    /// Defaults around a given device name and download directory: Xiaomi,
    /// 5 GHz, `wlan0`, no auto-accept.
    pub fn with_defaults(device_name: String, download_dir: String) -> (r: Self)
        ensures
            r.device_name@ == device_name@,
            r.download_dir@ == download_dir@,
            r.brand_id == BrandId::Xiaomi,
            r.supports_5ghz,
            r.wifi_interface@ == "wlan0"@,
            !r.auto_accept,
            !r.verbose,
    {
        AppSettings {
            device_name,
            brand_id: BrandId::Xiaomi,
            supports_5ghz: true,
            wifi_interface: String::from_str("wlan0"),
            download_dir,
            auto_accept: false,
            verbose: false,
        }
    }

    /// The 16-bit capability value advertised for these settings.
    pub fn capability_short(&self) -> (r: u16)
        ensures
            r == capability_value(self.supports_5ghz, brand_id_value(self.brand_id)),
    {
        let flag: u16 = if self.supports_5ghz { 0x100 } else { 0 };
        flag + self.brand_id.id() as u16
    }

    /// The capability UUID `0000XXYY-0000-1000-8000-00805f9b34fb` as a
    /// 128-bit value: XX the 5 GHz flag, YY the brand id.
    pub fn capability_uuid(&self) -> (r: u128)
        ensures
            r == capability_value(self.supports_5ghz, brand_id_value(self.brand_id)) as u128
                * 0x1_0000_0000_0000_0000_0000_0000 + BLUETOOTH_BASE_LOW,
    {
        let short: u16 = self.capability_short();
        short as u128 * 0x1_0000_0000_0000_0000_0000_0000u128 + BLUETOOTH_BASE_LOW
    }
}

impl Default for AppSettings {
    /// Defaults with the fallback device name `Cattysend` and the current
    /// directory for downloads.
    fn default() -> (r: Self)
        ensures
            r.device_name@ == "Cattysend"@,
            r.download_dir@ == "."@,
            r.brand_id == BrandId::Xiaomi,
            r.supports_5ghz,
            r.wifi_interface@ == "wlan0"@,
            !r.auto_accept,
            !r.verbose,
    {
        AppSettings::with_defaults(String::from_str("Cattysend"), String::from_str("."))
    }
}

} // verus!
