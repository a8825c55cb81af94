//! Brand taxonomy of peers, as carried in advertisement capability bytes
//! and manufacturer-data keys.
use vstd::prelude::*;
use crate::text::int_text;
use crate::text::push_int;
use crate::text::push_str;
use crate::text::string_of;

verus! {

/// Brands known to the discovery protocol.
#[derive(Debug, Clone, Copy, PartialEq, Eq, Structural)]
pub enum Brand {
    Xiaomi,
    BlackShark,
    Oppo,
    Realme,
    OnePlus,
    Vivo,
    Meizu,
    Nubia,
    Samsung,
    Zte,
    Smartisan,
    Lenovo,
    Motorola,
    Nio,
    Honor,
    Hisense,
    Asus,
    Rog,
    Unknown(i16),
}

/// The brand of a signed brand id. Negative ranges are the signed-byte
/// readings of ids above 127, as the peer stores them.
pub open spec fn brand_of(id: i16) -> Brand {
    if id == 11 { Brand::Realme }
    else if 10 <= id <= 19 { Brand::Oppo }
    else if 20 <= id <= 29 { Brand::Vivo }
    else if id == 32 { Brand::BlackShark }
    else if 30 <= id <= 39 { Brand::Xiaomi }
    else if 41 <= id <= 45 { Brand::OnePlus }
    else if 50 <= id <= 59 { Brand::Meizu }
    else if 60 <= id <= 69 { Brand::Nubia }
    else if 70 <= id <= 75 { Brand::Samsung }
    else if 80 <= id <= 89 { Brand::Zte }
    else if 90 <= id <= 95 { Brand::Smartisan }
    else if 100 <= id <= 109 { Brand::Lenovo }
    else if 110 <= id <= 119 { Brand::Motorola }
    else if 120 <= id <= 129 { Brand::Nio }
    else if 140 <= id <= 149 { Brand::Honor }
    else if (-86 <= id <= -77) || (170 <= id <= 179) { Brand::Hisense }
    else if id == -96 || id == 160 { Brand::Rog }
    else if (-95 <= id <= -87) || (161 <= id <= 169) { Brand::Asus }
    else { Brand::Unknown(id) }
}

/// The display name of a brand.
pub open spec fn brand_display(b: Brand) -> Seq<char> {
    match b {
        Brand::Xiaomi => "Xiaomi"@,
        Brand::BlackShark => "Black Shark"@,
        Brand::Oppo => "OPPO"@,
        Brand::Realme => "realme"@,
        Brand::OnePlus => "OnePlus"@,
        Brand::Vivo => "vivo"@,
        Brand::Meizu => "Meizu"@,
        Brand::Nubia => "Nubia"@,
        Brand::Samsung => "Samsung"@,
        Brand::Zte => "ZTE"@,
        Brand::Smartisan => "Smartisan"@,
        Brand::Lenovo => "Lenovo"@,
        Brand::Motorola => "Motorola"@,
        Brand::Nio => "Nio"@,
        Brand::Honor => "Honor"@,
        Brand::Hisense => "Hisense"@,
        Brand::Asus => "ASUS"@,
        Brand::Rog => "ROG"@,
        Brand::Unknown(id) => "Unknown ("@ + int_text(id as int) + ")"@,
    }
}

impl Brand {
    /// The brand of a signed brand id (total).
    pub fn from_id(id: i16) -> (r: Brand)
        ensures
            r == brand_of(id),
    {
        if id == 11 { Brand::Realme }
        else if 10 <= id && id <= 19 { Brand::Oppo }
        else if 20 <= id && id <= 29 { Brand::Vivo }
        else if id == 32 { Brand::BlackShark }
        else if 30 <= id && id <= 39 { Brand::Xiaomi }
        else if 41 <= id && id <= 45 { Brand::OnePlus }
        else if 50 <= id && id <= 59 { Brand::Meizu }
        else if 60 <= id && id <= 69 { Brand::Nubia }
        else if 70 <= id && id <= 75 { Brand::Samsung }
        else if 80 <= id && id <= 89 { Brand::Zte }
        else if 90 <= id && id <= 95 { Brand::Smartisan }
        else if 100 <= id && id <= 109 { Brand::Lenovo }
        else if 110 <= id && id <= 119 { Brand::Motorola }
        else if 120 <= id && id <= 129 { Brand::Nio }
        else if 140 <= id && id <= 149 { Brand::Honor }
        else if (-86 <= id && id <= -77) || (170 <= id && id <= 179) { Brand::Hisense }
        else if id == -96 || id == 160 { Brand::Rog }
        else if (-95 <= id && id <= -87) || (161 <= id && id <= 169) { Brand::Asus }
        else { Brand::Unknown(id) }
    }

    /// The display name.
    pub fn name(&self) -> (r: String)
        ensures
            r@ == brand_display(*self),
    {
        let text: &str = match *self {
            Brand::Xiaomi => "Xiaomi",
            Brand::BlackShark => "Black Shark",
            Brand::Oppo => "OPPO",
            Brand::Realme => "realme",
            Brand::OnePlus => "OnePlus",
            Brand::Vivo => "vivo",
            Brand::Meizu => "Meizu",
            Brand::Nubia => "Nubia",
            Brand::Samsung => "Samsung",
            Brand::Zte => "ZTE",
            Brand::Smartisan => "Smartisan",
            Brand::Lenovo => "Lenovo",
            Brand::Motorola => "Motorola",
            Brand::Nio => "Nio",
            Brand::Honor => "Honor",
            Brand::Hisense => "Hisense",
            Brand::Asus => "ASUS",
            Brand::Rog => "ROG",
            Brand::Unknown(id) => {
                let mut out: Vec<char> = Vec::new();
                push_str(&mut out, "Unknown (");
                push_int(&mut out, id as i64);
                push_str(&mut out, ")");
                assert(out@ =~= brand_display(*self));
                return string_of(&out);
            },
        };
        String::from_str(text)
    }
}

impl From<i16> for Brand {
    fn from(id: i16) -> (r: Brand) {
        Brand::from_id(id)
    }
}

impl vstd::std_specs::convert::FromSpecImpl<i16> for Brand {
    open spec fn obeys_from_spec() -> bool {
        true
    }

    open spec fn from_spec(id: i16) -> Brand {
        brand_of(id)
    }
}

/// The display name of the brand of a signed brand id.
pub fn get_vendor_name(id: i16) -> (r: String)
    ensures
        r@ == brand_display(brand_of(id)),
{
    Brand::from_id(id).name()
}

} // verus!
