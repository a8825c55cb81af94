//! Decoding of discovered peers: which advertisements belong to the
//! protocol, and the sender id, brand and 5 GHz capability they carry.
use vstd::prelude::*;
use crate::brand::brand_display;
use crate::brand::brand_of;
use crate::brand::Brand;
use crate::config::BLUETOOTH_BASE_LOW;
use crate::messages::ADV_SERVICE_UUID;
use crate::text::chars_of;
use crate::text::hex_fixed;
use crate::text::push_hex_fixed;
use crate::text::string_of;

verus! {

/// Xiaomi's Bluetooth SIG manufacturer id.
pub const MANUF_ID_XIAOMI: u16 = 0x038F;

/// The service-data UUID that carries the sender id and a short name.
pub const SCAN_RESP_UUID: u128 = 0x0000ffff_0000_1000_8000_00805f9b34fb;

/// 2^96: the weight of the 32-bit prefix of a UUID.
pub const PREFIX_WEIGHT: u128 = 0x1_0000_0000_0000_0000_0000_0000;

/// A protocol UUID: `0000333[1-4]` on the standard Bluetooth base, or the
/// advertising service UUID `00003331-0000-1000-8000-008123456789` on the
/// protocol's own base.
pub open spec fn is_mta_uuid_spec(u: u128) -> bool {
    (u % PREFIX_WEIGHT == BLUETOOTH_BASE_LOW && 0x3331 <= u / PREFIX_WEIGHT <= 0x3334)
        || u == ADV_SERVICE_UUID
}

/// Whether a peer's advertisement belongs to the protocol: a protocol UUID
/// listed, service data under a protocol UUID or `0000ffff`, Xiaomi
/// manufacturer data, or a local name holding a brand keyword.
pub open spec fn is_mta_device_spec(uuids: Seq<u128>, service_keys: Seq<u128>, manuf_keys: Seq<u16>, local_name: Option<Seq<char>>) -> bool {
    (exists|i: int| 0 <= i < uuids.len() && is_mta_uuid_spec(#[trigger] uuids[i]))
        || (exists|i: int| 0 <= i < service_keys.len() && is_mta_uuid_spec(#[trigger] service_keys[i]))
        || manuf_keys.contains(MANUF_ID_XIAOMI) || service_keys.contains(SCAN_RESP_UUID) || match local_name {
        Some(n) => has_brand_word(n),
        None => false,
    }
}

/// Metadata gathered from service data, last record winning: the 16-bit
/// sender id from a 27-byte record, and from a 6-byte record under a
/// `0000XXYY` UUID the 5 GHz flag (XX == 1) and the brand id YY.
pub open spec fn service_meta(sd: Seq<(u128, Seq<u8>)>) -> (u16, Option<i16>, bool)
    decreases sd.len(),
{
    if sd.len() == 0 {
        (0, None, false)
    } else {
        let prev = service_meta(sd.drop_last());
        let (u, d) = sd.last();
        if d.len() == 27 {
            ((d[8] as int * 256 + d[9] as int) as u16, prev.1, prev.2)
        } else if d.len() == 6 && u / 0x1_0000_0000_0000_0000_0000_0000_0000u128 == 0 {
            (prev.0, Some((u / PREFIX_WEIGHT % 256) as i16), u / 0x1_0000_0000_0000_0000_0000_0000_00u128 % 256 == 1)
        } else {
            prev
        }
    }
}

/// The brand id: from service data, else the first manufacturer key read as
/// a signed 16-bit value.
pub open spec fn meta_brand(sd: Seq<(u128, Seq<u8>)>, manuf_keys: Seq<u16>) -> Option<i16> {
    match service_meta(sd).1 {
        Some(b) => Some(b),
        None => if manuf_keys.len() > 0 {
            Some(manuf_keys[0] as i16)
        } else {
            None
        },
    }
}

/// Whether a UUID is in the protocol range.
pub fn is_mta_uuid(u: u128) -> (r: bool)
    ensures
        r == is_mta_uuid_spec(u),
{
    let prefix: u128 = u / PREFIX_WEIGHT;
    (u % PREFIX_WEIGHT == BLUETOOTH_BASE_LOW && 0x3331 <= prefix && prefix <= 0x3334) || u
        == ADV_SERVICE_UUID
}

/// Whether a peer belongs to the protocol (see [`is_mta_device_spec`]).
pub fn is_mta_device(uuids: &Vec<u128>, service_keys: &Vec<u128>, manuf_keys: &Vec<u16>, local_name: Option<&str>) -> (r: bool)
    ensures
        r == is_mta_device_spec(uuids@, service_keys@, manuf_keys@, match local_name {
            Some(n) => Some(n@),
            None => None,
        }),
{
    let mut found = false;
    let mut i: usize = 0;
    while i < uuids.len()
        invariant
            i <= uuids@.len(),
            found == (exists|t: int| 0 <= t < i && is_mta_uuid_spec(#[trigger] uuids@[t])),
        decreases uuids@.len() - i,
    {
        if is_mta_uuid(uuids[i]) {
            found = true;
        }
        i = i + 1;
    }
    let mut has_scan_resp = false;
    let mut j: usize = 0;
    while j < service_keys.len()
        invariant
            j <= service_keys@.len(),
            found == ((exists|t: int| 0 <= t < uuids@.len() && is_mta_uuid_spec(#[trigger] uuids@[t]))
                || (exists|t: int| 0 <= t < j && is_mta_uuid_spec(#[trigger] service_keys@[t]))),
            has_scan_resp == (exists|t: int| 0 <= t < j && service_keys@[t] == SCAN_RESP_UUID),
        decreases service_keys@.len() - j,
    {
        if is_mta_uuid(service_keys[j]) {
            found = true;
        }
        if service_keys[j] == SCAN_RESP_UUID {
            has_scan_resp = true;
        }
        j = j + 1;
    }
    let mut has_xiaomi = false;
    let mut k: usize = 0;
    while k < manuf_keys.len()
        invariant
            k <= manuf_keys@.len(),
            has_xiaomi == (exists|t: int| 0 <= t < k && manuf_keys@[t] == MANUF_ID_XIAOMI),
        decreases manuf_keys@.len() - k,
    {
        if manuf_keys[k] == MANUF_ID_XIAOMI {
            has_xiaomi = true;
        }
        k = k + 1;
    }
    let named = match local_name {
        Some(n) => has_brand_word_exec(&chars_of(n)),
        None => false,
    };
    found || has_xiaomi || has_scan_resp || named
}

/// The sender id, brand id and 5 GHz flag carried by service data and
/// manufacturer keys (sender id `0000` when none is carried).
pub fn parse_service_metadata(service_data: &Vec<(u128, Vec<u8>)>, manuf_keys: &Vec<u16>) -> (r: (
    String,
    Option<i16>,
    bool,
))
    ensures
        r.0@ == hex_fixed(service_meta(sd_view(service_data@)).0 as nat, 4),
        r.1 == meta_brand(sd_view(service_data@), manuf_keys@),
        r.2 == service_meta(sd_view(service_data@)).2,
{
    let mut sender: u16 = 0;
    let mut brand: Option<i16> = None;
    let mut five = false;
    let mut i: usize = 0;
    while i < service_data.len()
        invariant
            i <= service_data@.len(),
            (sender, brand, five) == service_meta(sd_view(service_data@).subrange(0, i as int)),
        decreases service_data@.len() - i,
    {
        let u: u128 = service_data[i].0;
        let d = &service_data[i].1;
        proof {
            assert(sd_view(service_data@).subrange(0, i + 1).drop_last() =~= sd_view(
                service_data@,
            ).subrange(0, i as int));
        }
        if d.len() == 27 {
            sender = (d[8] as u16) * 256 + d[9] as u16;
        } else if d.len() == 6 && u / 0x1_0000_0000_0000_0000_0000_0000_0000u128 == 0 {
            five = u / 0x1_0000_0000_0000_0000_0000_0000_00u128 % 256 == 1;
            brand = Some((u / PREFIX_WEIGHT % 256) as i16);
        }
        i = i + 1;
    }
    assert(sd_view(service_data@).subrange(0, i as int) =~= sd_view(service_data@));
    if brand.is_none() && manuf_keys.len() > 0 {
        brand = Some(manuf_keys[0] as i16);
    }
    let mut out: Vec<char> = Vec::new();
    push_hex_fixed(&mut out, sender as u64, 4);
    (string_of(&out), brand, five)
}

/// The service data with each payload viewed as bytes.
pub open spec fn sd_view(sd: Seq<(u128, Vec<u8>)>) -> Seq<(u128, Seq<u8>)> {
    sd.map_values(|e: (u128, Vec<u8>)| (e.0, e.1@))
}

/// Whether a GAP name is a placeholder rather than a real name.
pub open spec fn is_name_suspicious_spec(name: Seq<char>) -> bool {
    name == "<unknown>"@ || (name.len() > 0 && (name[0] == '(' || name.last() == '$' || name.last()
        == '\t'))
}

/// A character stripped from both ends of a GAP name.
pub open spec fn is_name_junk(c: char) -> bool {
    c == '(' || c == '$' || c == '\t'
}

/// Whether a GAP name is a placeholder: `<unknown>`, or starting with `(`,
/// or ending with `$` or a tab.
pub fn is_name_suspicious(name: &str) -> (r: bool)
    ensures
        r == is_name_suspicious_spec(name@),
{
    let cs = crate::text::chars_of(name);
    let n: usize = cs.len();
    let unknown = crate::text::chars_of("<unknown>");
    proof {
        reveal_strlit("<unknown>");
    }
    let mut same = n == unknown.len();
    if same {
        let mut i: usize = 0;
        while i < n
            invariant
                n == cs@.len() == unknown@.len(),
                cs@ == name@,
                unknown@ == "<unknown>"@,
                i <= n,
                same == (forall|t: int| 0 <= t < i ==> cs@[t] == unknown@[t]),
            decreases n - i,
        {
            if cs[i] != unknown[i] {
                same = false;
            }
            i = i + 1;
        }
        if same {
            assert(cs@ =~= unknown@);
        }
    }
    same || (n > 0 && (cs[0] == '(' || cs[n - 1] == '$' || cs[n - 1] == '\t'))
}

/// The first index from which `s` holds no junk, scanning from the front.
pub open spec fn junk_prefix_end(s: Seq<char>, i: int) -> int
    decreases s.len() - i,
{
    if i >= s.len() || !is_name_junk(s[i]) {
        i
    } else {
        junk_prefix_end(s, i + 1)
    }
}

/// The end after stripping junk from the back, down to `lo`.
pub open spec fn junk_suffix_start(s: Seq<char>, lo: int, j: int) -> int
    decreases j - lo,
{
    if j <= lo || !is_name_junk(s[j - 1]) {
        j
    } else {
        junk_suffix_start(s, lo, j - 1)
    }
}

/// A GAP name with `(`, `$` and tabs stripped from both ends.
pub open spec fn clean_name_spec(s: Seq<char>) -> Seq<char> {
    let a: int = junk_prefix_end(s, 0);
    s.subrange(a, junk_suffix_start(s, a, s.len() as int))
}

/// Strips `(`, `$` and tabs from both ends of a GAP name.
pub fn clean_name(name: &str) -> (r: String)
    ensures
        r@ == clean_name_spec(name@),
{
    let cs = crate::text::chars_of(name);
    let n: usize = cs.len();
    let mut a: usize = 0;
    while a < n && (cs[a] == '(' || cs[a] == '$' || cs[a] == '\t')
        invariant
            a <= n == cs@.len(),
            junk_prefix_end(cs@, a as int) == junk_prefix_end(cs@, 0),
        decreases n - a,
    {
        a = a + 1;
    }
    let mut b: usize = n;
    while b > a && (cs[b - 1] == '(' || cs[b - 1] == '$' || cs[b - 1] == '\t')
        invariant
            a <= b <= n == cs@.len(),
            junk_suffix_start(cs@, a as int, b as int) == junk_suffix_start(cs@, a as int, n as int),
        decreases b,
    {
        b = b - 1;
    }
    let mut out: Vec<char> = Vec::new();
    let mut i: usize = a;
    while i < b
        invariant
            a <= i <= b <= n == cs@.len(),
            out@ == cs@.subrange(a as int, i as int),
        decreases b - i,
    {
        out.push(cs[i]);
        i = i + 1;
        assert(out@ =~= cs@.subrange(a as int, i as int));
    }
    string_of(&out)
}

/// A peer found by scanning.
#[derive(Debug, Clone)]
pub struct DiscoveredDevice {
    pub name: String,
    pub address: String,
    /// Four lowercase hex digits.
    pub sender_id: String,
    /// Display name of the brand.
    pub brand: String,
    pub brand_id: Option<i16>,
    pub rssi: Option<i16>,
    pub supports_5ghz: bool,
}

/// The brand display for an optional brand id (`Unknown` when absent).
pub open spec fn brand_label(id: Option<i16>) -> Seq<char> {
    match id {
        Some(b) => brand_display(brand_of(b)),
        None => "Unknown"@,
    }
}

impl DiscoveredDevice {
    /// Assembles a discovered peer from its resolved name, address, signal
    /// strength and advertisement data.
    pub fn from_advertisement(
        name: String,
        address: String,
        rssi: Option<i16>,
        service_data: &Vec<(u128, Vec<u8>)>,
        manuf_keys: &Vec<u16>,
    ) -> (r: DiscoveredDevice)
        ensures
            r.name == name,
            r.address == address,
            r.rssi == rssi,
            r.sender_id@ == hex_fixed(service_meta(sd_view(service_data@)).0 as nat, 4),
            r.brand_id == meta_brand(sd_view(service_data@), manuf_keys@),
            r.brand@ == brand_label(r.brand_id),
            r.supports_5ghz == service_meta(sd_view(service_data@)).2,
    {
        let (sender_id, brand_id, supports_5ghz) = parse_service_metadata(service_data, manuf_keys);
        let brand = match brand_id {
            Some(b) => Brand::from_id(b).name(),
            None => String::from_str("Unknown"),
        };
        DiscoveredDevice { name, address, sender_id, brand, brand_id, rssi, supports_5ghz }
    }
}

} // verus!

verus! {

/// A printable ASCII character (space through tilde).
pub open spec fn is_printable(c: char) -> bool {
    ' ' <= c && c <= '~'
}

/// Bytes read one character per byte.
pub open spec fn byte_chars(b: Seq<u8>) -> Seq<char> {
    b.map_values(|x: u8| x as char)
}

/// The pieces between non-printable characters, empty pieces included.
pub open spec fn split_runs(s: Seq<char>) -> Seq<Seq<char>>
    decreases s.len(),
{
    if s.len() == 0 {
        seq![Seq::empty()]
    } else {
        let r = split_runs(s.drop_last());
        if is_printable(s.last()) {
            r.update(r.len() - 1, r.last().push(s.last()))
        } else {
            r.push(Seq::empty())
        }
    }
}

/// Where leading spaces end.
pub open spec fn space_prefix_end(s: Seq<char>, i: int) -> int
    decreases s.len() - i,
{
    if i >= s.len() || s[i] != ' ' {
        i
    } else {
        space_prefix_end(s, i + 1)
    }
}

/// Where trailing spaces start, not below `lo`.
pub open spec fn space_suffix_start(s: Seq<char>, lo: int, j: int) -> int
    decreases j - lo,
{
    if j <= lo || s[j - 1] != ' ' {
        j
    } else {
        space_suffix_start(s, lo, j - 1)
    }
}

/// `s` without leading and trailing spaces.
pub open spec fn trim_spaces(s: Seq<char>) -> Seq<char> {
    let a = space_prefix_end(s, 0);
    s.subrange(a, space_suffix_start(s, a, s.len() as int))
}

/// Whether a candidate names a known brand.
pub open spec fn has_brand_word(t: Seq<char>) -> bool {
    crate::text::contains_seq(t, "Redmi"@) || crate::text::contains_seq(t, "Xiaomi"@)
        || crate::text::contains_seq(t, "Mi"@) || crate::text::contains_seq(t, "POCO"@)
        || crate::text::contains_seq(t, "OnePlus"@) || crate::text::contains_seq(t, "OPPO"@)
        || crate::text::contains_seq(t, "vivo"@) || crate::text::contains_seq(t, "Realme"@)
}

/// A candidate's score: its length, plus 100 when it names a known brand.
pub open spec fn name_score(t: Seq<char>) -> int {
    t.len() + if has_brand_word(t) { 100int } else { 0int }
}

/// The best candidate after one more piece: pieces of 4 or more characters
/// are trimmed and compete by score, a later one winning ties.
pub open spec fn pick_name(prev: Option<Seq<char>>, piece: Seq<char>) -> Option<Seq<char>> {
    if piece.len() >= 4 {
        let t = trim_spaces(piece);
        match prev {
            None => Some(t),
            Some(q) => if name_score(t) >= name_score(q) { Some(t) } else { prev },
        }
    } else {
        prev
    }
}

/// The best candidate among pieces.
pub open spec fn best_name(pieces: Seq<Seq<char>>) -> Option<Seq<char>>
    decreases pieces.len(),
{
    if pieces.len() == 0 {
        None
    } else {
        pick_name(best_name(pieces.drop_last()), pieces.last())
    }
}

/// The most plausible device name in manufacturer data.
pub open spec fn ascii_name_spec(data: Seq<u8>) -> Option<Seq<char>> {
    best_name(split_runs(byte_chars(data)))
}

fn has_brand_word_exec(t: &Vec<char>) -> (r: bool)
    ensures
        r == has_brand_word(t@),
{
    let c = |w: &str| -> (b: bool)
        ensures
            b == crate::text::contains_seq(t@, w@),
        { crate::text::contains_chars(t, &chars_of(w)) };
    c("Redmi") || c("Xiaomi") || c("Mi") || c("POCO") || c("OnePlus") || c("OPPO") || c("vivo")
        || c("Realme")
}

fn trim_spaces_exec(s: &Vec<char>) -> (r: Vec<char>)
    ensures
        r@ == trim_spaces(s@),
{
    let n: usize = s.len();
    let mut a: usize = 0;
    while a < n && s[a] == ' '
        invariant
            a <= n == s@.len(),
            space_prefix_end(s@, a as int) == space_prefix_end(s@, 0),
        decreases n - a,
    {
        a = a + 1;
    }
    let mut b: usize = n;
    while b > a && s[b - 1] == ' '
        invariant
            a <= b <= n == s@.len(),
            space_suffix_start(s@, a as int, b as int) == space_suffix_start(s@, a as int, n as int),
        decreases b,
    {
        b = b - 1;
    }
    let mut out: Vec<char> = Vec::new();
    let mut i: usize = a;
    while i < b
        invariant
            a <= i <= b <= n == s@.len(),
            out@ == s@.subrange(a as int, i as int),
        decreases b - i,
    {
        out.push(s[i]);
        i = i + 1;
        assert(out@ =~= s@.subrange(a as int, i as int));
    }
    out
}

fn pick_name_exec(best: Option<(Vec<char>, usize)>, piece: &Vec<char>) -> (r: Option<(Vec<char>, usize)>)
    requires
        piece@.len() < usize::MAX - 100,
        best is Some ==> (best->0).1 as int == name_score((best->0).0@),
    ensures
        r is Some == pick_name(best_view(best), piece@) is Some,
        r is Some ==> (r->0).0@ == pick_name(best_view(best), piece@)->0,
        r is Some ==> (r->0).1 as int == name_score((r->0).0@),
        r is Some ==> ((r->0).0@.len() <= piece@.len() || (best is Some && (r->0).0@.len()
            == (best->0).0@.len())),
{
    if piece.len() < 4 {
        return best;
    }
    let t = trim_spaces_exec(piece);
    proof {
        lemma_trim_len(piece@);
    }
    let score: usize = if has_brand_word_exec(&t) { t.len() + 100 } else { t.len() };
    match best {
        None => Some((t, score)),
        Some((q, qs)) => if score >= qs { Some((t, score)) } else { Some((q, qs)) },
    }
}

/// Trimming never lengthens.
proof fn lemma_trim_len(s: Seq<char>)
    ensures
        trim_spaces(s).len() <= s.len(),
{
    lemma_space_prefix_bounds(s, 0);
    lemma_space_suffix_bounds(s, space_prefix_end(s, 0), s.len() as int);
}

proof fn lemma_space_prefix_bounds(s: Seq<char>, i: int)
    requires
        0 <= i <= s.len(),
    ensures
        i <= space_prefix_end(s, i) <= s.len(),
    decreases s.len() - i,
{
    if i < s.len() && s[i] == ' ' {
        lemma_space_prefix_bounds(s, i + 1);
    }
}

proof fn lemma_space_suffix_bounds(s: Seq<char>, lo: int, j: int)
    requires
        0 <= lo <= j <= s.len(),
    ensures
        lo <= space_suffix_start(s, lo, j) <= j,
    decreases j - lo,
{
    if j > lo && s[j - 1] == ' ' {
        lemma_space_suffix_bounds(s, lo, j - 1);
    }
}

/// The candidate of an optional best pair.
pub open spec fn best_view(best: Option<(Vec<char>, usize)>) -> Option<Seq<char>> {
    match best {
        Some(p) => Some(p.0@),
        None => None,
    }
}

/// The most plausible device name in manufacturer data: the printable ASCII
/// pieces of at least 4 bytes, trimmed, scored by length plus 100 when they
/// name a known brand; the last of the best wins.
pub fn extract_ascii_name(data: &[u8]) -> (r: Option<String>)
    requires
        data@.len() < usize::MAX - 100,
    ensures
        r is Some == ascii_name_spec(data@) is Some,
        r is Some ==> r->0@ == ascii_name_spec(data@)->0,
        r is Some ==> r->0@.len() <= data@.len(),
{
    let ghost cs = byte_chars(data@);
    let mut best: Option<(Vec<char>, usize)> = None;
    let mut cur: Vec<char> = Vec::new();
    let ghost mut done: Seq<Seq<char>> = Seq::empty();
    let mut i: usize = 0;
    while i < data.len()
        invariant
            cs == byte_chars(data@),
            data@.len() < usize::MAX - 100,
            i <= data@.len(),
            cur@.len() <= i,
            split_runs(cs.subrange(0, i as int)) == done.push(cur@),
            best_view(best) == best_name(done),
            best is Some ==> (best->0).1 as int == name_score((best->0).0@),
            best is Some ==> (best->0).0@.len() <= i,
        decreases data@.len() - i,
    {
        let c: char = data[i] as char;
        proof {
            assert(cs.subrange(0, i + 1).drop_last() =~= cs.subrange(0, i as int));
            assert(cs.subrange(0, i + 1).last() == c);
        }
        if ' ' <= c && c <= '~' {
            let ghost before = cur@;
            cur.push(c);
            proof {
                assert(done.push(cur@) =~= done.push(before).update(done.len() as int, before.push(c)));
            }
        } else {
            best = pick_name_exec(best, &cur);
            proof {
                assert(done.push(cur@).drop_last() =~= done);
                done = done.push(cur@);
            }
            cur = Vec::new();
        }
        i = i + 1;
    }
    assert(cs.subrange(0, i as int) =~= cs);
    best = pick_name_exec(best, &cur);
    proof {
        assert(done.push(cur@).drop_last() =~= done);
    }
    match best {
        Some((t, _)) => Some(string_of(&t)),
        None => None,
    }
}

} // verus!

verus! {

/// Manufacturer data with each payload viewed as bytes.
pub open spec fn md_view(md: Seq<(u16, Vec<u8>)>) -> Seq<(u16, Seq<u8>)> {
    md.map_values(|e: (u16, Vec<u8>)| (e.0, e.1@))
}

/// The better of a best-so-far name and a candidate: the candidate when its
/// score is at least as high, so a later one wins ties.
pub open spec fn better_name(prev: Option<Seq<char>>, cand: Option<Seq<char>>) -> Option<Seq<char>> {
    match cand {
        None => prev,
        Some(t) => match prev {
            None => Some(t),
            Some(q) => if name_score(t) >= name_score(q) { Some(t) } else { prev },
        },
    }
}

/// The best name found in the first `n` manufacturer-data values.
pub open spec fn best_manuf_name(md: Seq<(u16, Seq<u8>)>, n: int) -> Option<Seq<char>>
    decreases n,
{
    if n <= 0 || n > md.len() {
        None
    } else {
        better_name(best_manuf_name(md, n - 1), ascii_name_spec(md[n - 1].1))
    }
}

/// The name shown for a peer: the GAP name, cleaned, when it is present and
/// not suspicious; otherwise the best-scored printable run of the
/// manufacturer data; failing that, the GAP name (`<unknown>` when missing)
/// cleaned.
pub open spec fn resolved_name(gap_name: Option<Seq<char>>, md: Seq<(u16, Seq<u8>)>) -> Seq<char> {
    let system = match gap_name {
        Some(n) => n,
        None => "<unknown>"@,
    };
    if !is_name_suspicious_spec(system) {
        clean_name_spec(system)
    } else {
        match best_manuf_name(md, md.len() as int) {
            Some(n) => n,
            None => clean_name_spec(system),
        }
    }
}

fn name_score_exec(t: &String) -> (r: usize)
    requires
        t@.len() < usize::MAX - 100,
    ensures
        r as int == name_score(t@),
{
    let cs = chars_of(t.as_str());
    if has_brand_word_exec(&cs) { cs.len() + 100 } else { cs.len() }
}

/// Resolves the name shown for a peer (see [`resolved_name`]).
pub fn resolve_device_name(gap_name: Option<String>, manuf_data: &Vec<(u16, Vec<u8>)>) -> (r: String)
    requires
        forall|i: int| 0 <= i < manuf_data@.len() ==> (#[trigger] manuf_data@[i]).1@.len() < usize::MAX
            - 200,
    ensures
        r@ == resolved_name(
            match gap_name {
                Some(n) => Some(n@),
                None => None,
            },
            md_view(manuf_data@),
        ),
{
    let ghost md = md_view(manuf_data@);
    let system = match gap_name {
        Some(n) => n,
        None => String::from_str("<unknown>"),
    };
    if !is_name_suspicious(system.as_str()) {
        return clean_name(system.as_str());
    }
    let mut best: Option<(String, usize)> = None;
    let mut i: usize = 0;
    while i < manuf_data.len()
        invariant
            md == md_view(manuf_data@),
            i <= manuf_data@.len(),
            forall|k: int| 0 <= k < manuf_data@.len() ==> (#[trigger] manuf_data@[k]).1@.len()
                < usize::MAX - 200,
            best_view_s(best) == best_manuf_name(md, i as int),
            best is Some ==> (best->0).1 as int == name_score((best->0).0@),
        decreases manuf_data@.len() - i,
    {
        assert(md[i as int] == (manuf_data@[i as int].0, manuf_data@[i as int].1@));
        let cand = extract_ascii_name(manuf_data[i].1.as_slice());
        match cand {
            Some(t) => {
                let sc = name_score_exec(&t);
                best = match best {
                    None => Some((t, sc)),
                    Some((q, qs)) => if sc >= qs { Some((t, sc)) } else { Some((q, qs)) },
                };
            },
            None => {},
        }
        i = i + 1;
    }
    match best {
        Some((n, _)) => n,
        None => clean_name(system.as_str()),
    }
}

/// The candidate of an optional best pair.
pub open spec fn best_view_s(best: Option<(String, usize)>) -> Option<Seq<char>> {
    match best {
        Some(p) => Some(p.0@),
        None => None,
    }
}

/// The peers found so far, at most one per address, in order of discovery.
pub struct DiscoveryTable {
    pub devices: Vec<DiscoveredDevice>,
}

/// No two entries share an address.
pub open spec fn addresses_unique(d: Seq<DiscoveredDevice>) -> bool {
    forall|i: int, j: int| 0 <= i < j < d.len() ==> (#[trigger] d[i]).address@ != (#[trigger] d[j]).address@
}

impl DiscoveryTable {
    pub fn new() -> (r: Self)
        ensures
            r.devices@.len() == 0,
    {
        DiscoveryTable { devices: Vec::new() }
    }

    /// Whether a peer with this address is already known.
    pub fn contains(&self, address: &str) -> (r: bool)
        ensures
            r == exists|i: int| 0 <= i < self.devices@.len() && (#[trigger] self.devices@[i]).address@ == address@,
    {
        let mut i: usize = 0;
        while i < self.devices.len()
            invariant
                i <= self.devices@.len(),
                forall|k: int| 0 <= k < i ==> (#[trigger] self.devices@[k]).address@ != address@,
            decreases self.devices@.len() - i,
        {
            if crate::text::same_text(self.devices[i].address.as_str(), address) {
                return true;
            }
            i = i + 1;
        }
        false
    }

    /// Records a peer on its first discovery only; returns whether it was
    /// new (and so is to be reported).
    pub fn insert_if_new(&mut self, device: DiscoveredDevice) -> (r: bool)
        requires
            addresses_unique(old(self).devices@),
        ensures
            addresses_unique(final(self).devices@),
            r == !(exists|i: int| 0 <= i < old(self).devices@.len() && (#[trigger] old(self).devices@[i]).address@ == device.address@),
            r ==> final(self).devices@ == old(self).devices@.push(device),
            !r ==> final(self).devices@ == old(self).devices@,
    {
        if self.contains(device.address.as_str()) {
            return false;
        }
        self.devices.push(device);
        true
    }
}

} // verus!
