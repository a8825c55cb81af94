//! The legacy (31-byte) advertisement payload, its scan response, and the
//! name-carrying service data, laid out as the peer decodes them.
use vstd::prelude::*;
use vstd::string::StrSliceExecFns;
use crate::text::hex_fixed;
use crate::text::push_hex_fixed;
use crate::text::string_of;

verus! {

/// The low byte of a 16-bit value.
pub open spec fn lo(u: u16) -> u8 {
    (u % 256) as u8
}

/// The high byte of a 16-bit value.
pub open spec fn hi(u: u16) -> u8 {
    (u / 256) as u8
}

/// How many identity bytes the service-data record carries.
pub open spec fn ident_len(ident: Seq<u8>) -> nat {
    if ident.len() < 6 { ident.len() } else { 6 }
}

/// The advertisement payload: Flags (LE General Discoverable, BR/EDR not
/// supported), the complete 16-bit service UUID list, then service data keyed
/// by the identity UUID.
pub open spec fn adv_payload(service_uuid: u16, ident_uuid: u16, ident: Seq<u8>) -> Seq<u8> {
    seq![
        2u8, 0x01u8, 0x06u8,
        3u8, 0x03u8, lo(service_uuid), hi(service_uuid),
        (3 + ident_len(ident)) as u8, 0x16u8, lo(ident_uuid), hi(ident_uuid),
    ] + ident.subrange(0, ident_len(ident) as int)
}

/// Whether `b` is a UTF-8 continuation byte.
pub open spec fn is_continuation(b: u8) -> bool {
    0x80 <= b < 0xC0
}

/// The largest character boundary of `b` at or below `i`.
pub open spec fn boundary_at_or_before(b: Seq<u8>, i: int) -> int
    decreases i,
{
    if i <= 0 || i >= b.len() || !is_continuation(b[i]) {
        i
    } else {
        boundary_at_or_before(b, i - 1)
    }
}

/// A name unchanged when it has at most `limit` bytes, otherwise cut on the
/// last character boundary at or below `cut` and marked with a trailing tab.
pub open spec fn fitted_name(b: Seq<u8>, limit: int, cut: int) -> Seq<u8> {
    if b.len() <= limit {
        b
    } else {
        b.subrange(0, boundary_at_or_before(b, cut)).push(0x09u8)
    }
}

/// The scan response: one Complete Local Name record, or nothing for an
/// empty name.
pub open spec fn scan_response(name: Seq<u8>) -> Seq<u8> {
    if name.len() == 0 {
        Seq::empty()
    } else {
        seq![(fitted_name(name, 29, 28).len() + 1) as u8, 0x09u8] + fitted_name(name, 29, 28)
    }
}

/// The 27-byte name service data: eight zero bytes, the sender id, the name
/// (over 15 bytes: cut to at most 15 and tab-marked) zero-padded to 16
/// bytes, and version 1.
pub open spec fn name_service_data(random: Seq<u8>, name: Seq<u8>) -> Seq<u8> {
    Seq::new(8, |i: int| 0u8) + seq![random[0], random[1]] + fitted_name(name, 15, 15) + Seq::new(
        (16 - fitted_name(name, 15, 15).len()) as nat,
        |i: int| 0u8,
    ) + seq![1u8]
}

/// Largest boundary at or below `i` (see [`boundary_at_or_before`]).
fn boundary_before(b: &Vec<u8>, i: usize) -> (r: usize)
    requires
        i < b@.len(),
    ensures
        r as int == boundary_at_or_before(b@, i as int),
        r <= i,
{
    let mut c: usize = i;
    while c > 0 && 0x80 <= b[c] && b[c] < 0xC0
        invariant
            c <= i < b@.len(),
            boundary_at_or_before(b@, c as int) == boundary_at_or_before(b@, i as int),
        decreases c,
    {
        c = c - 1;
    }
    c
}

/// Appends `fitted_name(b, limit, cut)`.
fn push_fitted_name(out: &mut Vec<u8>, b: &Vec<u8>, limit: usize, cut: usize)
    requires
        cut <= limit,
    ensures
        final(out)@ == old(out)@ + fitted_name(b@, limit as int, cut as int),
        fitted_name(b@, limit as int, cut as int).len() <= (if limit > cut { limit as int } else { cut + 1 }),
{
    let end: usize = if b.len() <= limit { b.len() } else { boundary_before(b, cut) };
    let mut i: usize = 0;
    while i < end
        invariant
            end <= b@.len(),
            i <= end,
            out@ == old(out)@ + b@.subrange(0, i as int),
        decreases end - i,
    {
        out.push(b[i]);
        i = i + 1;
        assert(b@.subrange(0, i as int) =~= b@.subrange(0, i - 1).push(b@[i - 1]));
    }
    if b.len() > limit {
        out.push(0x09);
    } else {
        assert(b@.subrange(0, end as int) =~= b@);
    }
    assert(final(out)@ =~= old(out)@ + fitted_name(b@, limit as int, cut as int));
}

/// Legacy advertising parameters for the management-socket backend.
#[derive(Debug, Clone)]
pub struct LegacyAdvConfig {
    /// Controller index (0 for hci0).
    pub controller_index: u16,
    /// Advertising instance (1 to 255).
    pub instance: u8,
    pub connectable: bool,
    pub discoverable: bool,
    /// Advertisement data, at most 31 bytes.
    pub adv_data: Vec<u8>,
    /// Scan response data, at most 31 bytes.
    pub scan_rsp_data: Vec<u8>,
    /// Seconds, 0 for unlimited.
    pub duration: u16,
    /// Seconds, 0 for unlimited.
    pub timeout: u16,
}

impl Default for LegacyAdvConfig {
    fn default() -> (r: Self)
        ensures
            r.controller_index == 0,
            r.instance == 1,
            r.connectable,
            r.discoverable,
            r.adv_data@.len() == 0,
            r.scan_rsp_data@.len() == 0,
            r.duration == 0,
            r.timeout == 0,
    {
        LegacyAdvConfig {
            controller_index: 0,
            instance: 1,
            connectable: true,
            discoverable: true,
            adv_data: Vec::new(),
            scan_rsp_data: Vec::new(),
            duration: 0,
            timeout: 0,
        }
    }
}

impl LegacyAdvConfig {
    /// A connectable, discoverable configuration carrying the peer-compatible
    /// advertisement and scan response. Both payloads fit in 31 bytes.
    pub fn catshare_compatible(
        service_uuid: u16,
        ident_uuid: u16,
        ident_data: &[u8],
        device_name: &str,
        _sender_id: [u8; 2],
    ) -> (r: Self)
        ensures
            r.adv_data@ == adv_payload(service_uuid, ident_uuid, ident_data@),
            r.scan_rsp_data@ == scan_response(encode_utf8_of(device_name@)),
            r.adv_data@.len() <= 31,
            r.scan_rsp_data@.len() <= 31,
            r.controller_index == 0,
            r.instance == 1,
            r.connectable,
            r.discoverable,
            r.duration == 0,
            r.timeout == 0,
    {
        let mut adv: Vec<u8> = Vec::new();
        adv.push(2);
        adv.push(0x01);
        adv.push(0x06);
        adv.push(3);
        adv.push(0x03);
        adv.push((service_uuid % 256) as u8);
        adv.push((service_uuid / 256) as u8);
        let n: usize = if ident_data.len() < 6 { ident_data.len() } else { 6 };
        adv.push((3 + n) as u8);
        adv.push(0x16);
        adv.push((ident_uuid % 256) as u8);
        adv.push((ident_uuid / 256) as u8);
        let ghost head = adv@;
        let mut i: usize = 0;
        while i < n
            invariant
                n <= ident_data@.len(),
                n == ident_len(ident_data@),
                i <= n,
                adv@ == head + ident_data@.subrange(0, i as int),
            decreases n - i,
        {
            adv.push(ident_data[i]);
            i = i + 1;
            assert(ident_data@.subrange(0, i as int) =~= ident_data@.subrange(0, i - 1).push(
                ident_data@[i - 1],
            ));
        }
        assert(adv@ =~= adv_payload(service_uuid, ident_uuid, ident_data@));

        let name = device_name.as_bytes_vec();
        let mut scan: Vec<u8> = Vec::new();
        if name.len() > 0 {
            let mut body: Vec<u8> = Vec::new();
            push_fitted_name(&mut body, &name, 29, 28);
            assert(body@ =~= fitted_name(name@, 29, 28));
            scan.push((body.len() + 1) as u8);
            scan.push(0x09);
            let ghost head2 = scan@;
            let mut j: usize = 0;
            while j < body.len()
                invariant
                    j <= body@.len(),
                    scan@ == head2 + body@.subrange(0, j as int),
                decreases body@.len() - j,
            {
                scan.push(body[j]);
                j = j + 1;
                assert(body@.subrange(0, j as int) =~= body@.subrange(0, j - 1).push(body@[j - 1]));
            }
            assert(body@.subrange(0, j as int) =~= body@);
        }
        assert(scan@ =~= scan_response(name@));
        LegacyAdvConfig {
            controller_index: 0,
            instance: 1,
            connectable: true,
            discoverable: true,
            adv_data: adv,
            scan_rsp_data: scan,
            duration: 0,
            timeout: 0,
        }
    }
}

/// UTF-8 bytes of a character sequence.
pub open spec fn encode_utf8_of(s: Seq<char>) -> Seq<u8> {
    vstd::utf8::encode_utf8(s)
}

/// Builds the advertisement and scan response for a receiver: the identity
/// UUID is the 5 GHz flag over the brand id, and the identity data is the
/// two sender-id bytes followed by four zero bytes.
pub fn build_legacy_payload(brand: u8, supports_5ghz: bool, sender_id: [u8; 2], device_name: &str) -> (r: (
    Vec<u8>,
    Vec<u8>,
))
    ensures
        r.0@ == adv_payload(
            0x3331,
            crate::config::capability_value(supports_5ghz, brand),
            seq![sender_id[0], sender_id[1], 0u8, 0u8, 0u8, 0u8],
        ),
        r.1@ == scan_response(encode_utf8_of(device_name@)),
        r.0@.len() <= 31,
        r.1@.len() <= 31,
{
    let flag: u16 = if supports_5ghz { 0x100 } else { 0 };
    let ident_uuid: u16 = flag + brand as u16;
    let ident: Vec<u8> = vec![sender_id[0], sender_id[1], 0, 0, 0, 0];
    assert(ident@ =~= seq![sender_id[0], sender_id[1], 0u8, 0u8, 0u8, 0u8]);
    let cfg = LegacyAdvConfig::catshare_compatible(0x3331, ident_uuid, ident.as_slice(), device_name, sender_id);
    (cfg.adv_data, cfg.scan_rsp_data)
}

/// The 27-byte service data that carries the sender id and a short name.
pub fn build_name_service_data(random_data: &[u8; 2], device_name: &str) -> (r: Vec<u8>)
    ensures
        r@ == name_service_data(random_data@, encode_utf8_of(device_name@)),
        r@.len() == 27,
{
    let name = device_name.as_bytes_vec();
    let mut out: Vec<u8> = Vec::new();
    let mut k: usize = 0;
    while k < 8
        invariant
            k <= 8,
            out@ == Seq::new(k as nat, |i: int| 0u8),
        decreases 8 - k,
    {
        out.push(0);
        k = k + 1;
        assert(out@ =~= Seq::new(k as nat, |i: int| 0u8));
    }
    out.push(random_data[0]);
    out.push(random_data[1]);
    let ghost before = out@;
    push_fitted_name(&mut out, &name, 15, 15);
    let ghost field = fitted_name(name@, 15, 15);
    let ghost with_name = out@;
    let mut len: usize = out.len();
    while len < 26
        invariant
            with_name == before + field,
            before.len() == 10,
            field.len() <= 16,
            len == out@.len(),
            len <= 26,
            out@.len() >= with_name.len(),
            out@ == with_name + Seq::new((out@.len() - with_name.len()) as nat, |i: int| 0u8),
        decreases 26 - len,
    {
        out.push(0);
        len = len + 1;
        assert(out@ =~= with_name + Seq::new((out@.len() - with_name.len()) as nat, |i: int| 0u8));
    }
    out.push(1);
    assert(out@ =~= name_service_data(random_data@, name@));
    out
}

/// The sender id shown for two random bytes: four lowercase hex digits.
pub fn sender_id_from_random_data(random_data: &[u8; 2]) -> (r: String)
    ensures
        r@ == hex_fixed(random_data@[0] as nat, 2) + hex_fixed(random_data@[1] as nat, 2),
{
    let mut out: Vec<char> = Vec::new();
    push_hex_fixed(&mut out, random_data[0] as u64, 2);
    push_hex_fixed(&mut out, random_data[1] as u64, 2);
    string_of(&out)
}

} // verus!

verus! {

/// Advertising flags of the management interface's add-advertising
/// command, one per flag this advertiser decides on.
#[derive(Debug, Clone, Copy, PartialEq, Eq, Structural)]
pub struct AdvFlags {
    pub connectable: bool,
    pub discoverable: bool,
    pub add_flags_field: bool,
    pub secondary_le_1m: bool,
    pub secondary_le_2m: bool,
    pub secondary_le_coded: bool,
}

/// The flags for legacy advertising: connectable and discoverable as
/// configured, the flags field added, and no secondary-channel flag, since
/// any of those promotes the instance to extended advertising.
pub open spec fn legacy_adv_flags_spec(connectable: bool, discoverable: bool) -> AdvFlags {
    AdvFlags {
        connectable,
        discoverable,
        add_flags_field: true,
        secondary_le_1m: false,
        secondary_le_2m: false,
        secondary_le_coded: false,
    }
}

/// The flags for legacy advertising (see [`legacy_adv_flags_spec`]).
pub fn legacy_adv_flags(c: &LegacyAdvConfig) -> (r: AdvFlags)
    ensures
        r == legacy_adv_flags_spec(c.connectable, c.discoverable),
        r.connectable == c.connectable,
        r.discoverable == c.discoverable,
        r.add_flags_field,
        !r.secondary_le_1m,
        !r.secondary_le_2m,
        !r.secondary_le_coded,
{
    AdvFlags {
        connectable: c.connectable,
        discoverable: c.discoverable,
        add_flags_field: true,
        secondary_le_1m: false,
        secondary_le_2m: false,
        secondary_le_coded: false,
    }
}

/// What starting the advertiser takes: whether a running instance is
/// removed first, and the flags to add the instance with.
#[derive(Debug, Clone, Copy, PartialEq, Eq, Structural)]
pub struct AdvStart {
    pub stop_first: bool,
    pub flags: AdvFlags,
}

/// The management-socket advertiser's decisions.
#[derive(Debug, Clone)]
pub struct MgmtLegacyAdvertiser {
    pub config: LegacyAdvConfig,
    /// An instance is advertising.
    pub active: bool,
}

impl MgmtLegacyAdvertiser {
    /// An advertiser for a configuration, not yet advertising.
    pub fn new(config: LegacyAdvConfig) -> (r: Self)
        ensures
            r.config == config,
            !r.active,
    {
        MgmtLegacyAdvertiser { config, active: false }
    }

    /// Whether an instance is advertising.
    pub fn is_active(&self) -> (r: bool)
        ensures
            r == self.active,
    {
        self.active
    }

    /// Starting: a running instance is removed first, then the instance is
    /// added with the legacy flags; afterwards the advertiser is active.
    pub fn start(&mut self) -> (r: AdvStart)
        ensures
            r.stop_first == old(self).active,
            r.flags == legacy_adv_flags_spec(old(self).config.connectable, old(self).config.discoverable),
            final(self).active,
            final(self).config == old(self).config,
    {
        let stop_first = self.active;
        let flags = legacy_adv_flags(&self.config);
        self.active = true;
        AdvStart { stop_first, flags }
    }

    /// Stopping: the instance is removed only when one is advertising.
    pub fn stop(&mut self) -> (remove: bool)
        ensures
            remove == old(self).active,
            !final(self).active,
            final(self).config == old(self).config,
    {
        let remove = self.active;
        self.active = false;
        remove
    }
}

} // verus!
