use cattysend::brand::get_vendor_name;
use cattysend::brand::Brand;
use cattysend::config::AppSettings;
use cattysend::config::BrandId;

#[test]
fn test_brand_id() {
    assert_eq!(BrandId::Xiaomi.id(), 30);
    assert_eq!(BrandId::from_id(30).name(), "Xiaomi");
}

#[test]
fn test_default_settings() {
    let settings = AppSettings::default();
    assert_eq!(settings.brand_id, BrandId::Xiaomi);
    assert!(settings.supports_5ghz);
}

#[test]
fn test_capability_uuid() {
    let mut settings = AppSettings::default();
    settings.supports_5ghz = true;
    settings.brand_id = BrandId::Xiaomi;
    let uuid = uuid::Uuid::from_u128(settings.capability_uuid());
    let uuid_str = uuid.to_string();
    assert!(uuid_str.starts_with("0000011e"), "UUID: {}", uuid_str);
    assert!(uuid_str.ends_with("00805f9b34fb"), "UUID: {}", uuid_str);
}

#[test]
fn capability_without_5ghz() {
    let mut settings = AppSettings::default();
    settings.supports_5ghz = false;
    settings.brand_id = BrandId::Linux;
    assert_eq!(settings.capability_short(), 0x00C8);
}

#[test]
fn brand_mapping_examples() {
    assert_eq!(Brand::from(32i16), Brand::BlackShark);
    assert_eq!(Brand::from(11i16), Brand::Realme);
    assert_eq!(Brand::from(-86i16), Brand::Hisense);
    assert_eq!(Brand::from(200i16), Brand::Unknown(200));
}

#[test]
fn brand_mapping_ranges() {
    assert_eq!(Brand::from_id(10), Brand::Oppo);
    assert_eq!(Brand::from_id(19), Brand::Oppo);
    assert_eq!(Brand::from_id(25), Brand::Vivo);
    assert_eq!(Brand::from_id(30), Brand::Xiaomi);
    assert_eq!(Brand::from_id(40), Brand::Unknown(40));
    assert_eq!(Brand::from_id(45), Brand::OnePlus);
    assert_eq!(Brand::from_id(55), Brand::Meizu);
    assert_eq!(Brand::from_id(65), Brand::Nubia);
    assert_eq!(Brand::from_id(75), Brand::Samsung);
    assert_eq!(Brand::from_id(76), Brand::Unknown(76));
    assert_eq!(Brand::from_id(85), Brand::Zte);
    assert_eq!(Brand::from_id(95), Brand::Smartisan);
    assert_eq!(Brand::from_id(105), Brand::Lenovo);
    assert_eq!(Brand::from_id(115), Brand::Motorola);
    assert_eq!(Brand::from_id(125), Brand::Nio);
    assert_eq!(Brand::from_id(145), Brand::Honor);
    assert_eq!(Brand::from_id(-77), Brand::Hisense);
    assert_eq!(Brand::from_id(175), Brand::Hisense);
    assert_eq!(Brand::from_id(-96), Brand::Rog);
    assert_eq!(Brand::from_id(160), Brand::Rog);
    assert_eq!(Brand::from_id(-90), Brand::Asus);
    assert_eq!(Brand::from_id(165), Brand::Asus);
    assert_eq!(Brand::from_id(0), Brand::Unknown(0));
}

#[test]
fn vendor_names() {
    assert_eq!(get_vendor_name(32), "Black Shark");
    assert_eq!(get_vendor_name(11), "realme");
    assert_eq!(get_vendor_name(200), "Unknown (200)");
    assert_eq!(get_vendor_name(-5), "Unknown (-5)");
    assert_eq!(get_vendor_name(-96), "ROG");
}

#[test]
fn brand_id_table() {
    assert_eq!(BrandId::from_id(10), BrandId::Oppo);
    assert_eq!(BrandId::from_id(11), BrandId::Realme);
    assert_eq!(BrandId::from_id(12), BrandId::Unknown);
    assert_eq!(BrandId::from_id(200), BrandId::Linux);
    assert_eq!(BrandId::Linux.id(), 200);
    assert_eq!(BrandId::Linux.name(), "Linux");
}
