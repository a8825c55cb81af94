//! Reading the host's network state from the text that its tools print:
//! the IPv4 address of an interface from `ip -o addr show`, and a MAC
//! address as read from sysfs.
use vstd::prelude::*;
use crate::text::contains_seq;
use crate::protocol::index_of_from;
use crate::text::chars_of;
use crate::text::string_of;

verus! {

/// Whitespace as the address tool prints it.
pub open spec fn is_space(c: char) -> bool {
    c == ' ' || c == '\t' || c == '\n' || c == '\r' || c == '\x0c'
}

/// The pieces of `s` between separators (`sep_space` selects whitespace,
/// otherwise `sep`), empty pieces included.
pub open spec fn split_on(s: Seq<char>, sep_space: bool, sep: char) -> Seq<Seq<char>>
    decreases s.len(),
{
    if s.len() == 0 {
        seq![Seq::empty()]
    } else {
        let r = split_on(s.drop_last(), sep_space, sep);
        let c = s.last();
        if (sep_space && is_space(c)) || (!sep_space && c == sep) {
            r.push(Seq::empty())
        } else {
            r.update(r.len() - 1, r.last().push(c))
        }
    }
}

/// The first non-empty piece from index `i` on.
pub open spec fn next_word_from(p: Seq<Seq<char>>, i: int) -> Option<Seq<char>>
    decreases p.len() - i,
{
    if i < 0 || i >= p.len() {
        None
    } else if p[i].len() > 0 {
        Some(p[i])
    } else {
        next_word_from(p, i + 1)
    }
}

/// The word after the first `inet` word, from index `i` on.
pub open spec fn inet_word_from(p: Seq<Seq<char>>, i: int) -> Option<Seq<char>>
    decreases p.len() - i,
{
    if i < 0 || i >= p.len() {
        None
    } else if p[i] == "inet"@ {
        next_word_from(p, i + 1)
    } else {
        inet_word_from(p, i + 1)
    }
}

/// The address of a line of `ip -o addr` output: the word after `inet`, up to
/// its `/`; only for lines that hold `inet ` (and the interface, when given).
pub open spec fn line_address(line: Seq<char>, iface: Option<Seq<char>>) -> Option<Seq<char>> {
    if contains_seq(line, "inet "@) && (match iface {
        Some(n) => contains_seq(line, n),
        None => true,
    }) {
        match inet_word_from(split_on(line, true, ' '), 0) {
            Some(w) => Some(w.subrange(0, index_of_from(w, '/', 0))),
            None => None,
        }
    } else {
        None
    }
}

/// The first address among lines from index `i` on.
pub open spec fn first_address_from(lines: Seq<Seq<char>>, iface: Option<Seq<char>>, i: int) -> Option<Seq<char>>
    decreases lines.len() - i,
{
    if i < 0 || i >= lines.len() {
        None
    } else if line_address(lines[i], iface) is Some {
        line_address(lines[i], iface)
    } else {
        first_address_from(lines, iface, i + 1)
    }
}

/// The IPv4 address in `ip -o addr show` output, from the first line that
/// carries one (and names the interface, when given).
pub open spec fn ipv4_in_output(out: Seq<char>, iface: Option<Seq<char>>) -> Option<Seq<char>> {
    first_address_from(split_on(out, false, '\n'), iface, 0)
}

/// The views of split pieces.
pub open spec fn pieces_view(v: Seq<Vec<char>>) -> Seq<Seq<char>> {
    v.map_values(|x: Vec<char>| x@)
}

fn split_exec(s: &Vec<char>, sep_space: bool, sep: char) -> (r: Vec<Vec<char>>)
    ensures
        pieces_view(r@) == split_on(s@, sep_space, sep),
{
    let mut done: Vec<Vec<char>> = Vec::new();
    let mut cur: Vec<char> = Vec::new();
    let mut i: usize = 0;
    while i < s.len()
        invariant
            i <= s@.len(),
            split_on(s@.subrange(0, i as int), sep_space, sep) == pieces_view(done@).push(cur@),
        decreases s@.len() - i,
    {
        let c = s[i];
        proof {
            assert(s@.subrange(0, i + 1).drop_last() =~= s@.subrange(0, i as int));
            assert(s@.subrange(0, i + 1).last() == c);
        }
        let is_sep = if sep_space {
            c == ' ' || c == '\t' || c == '\n' || c == '\r' || c == '\x0c'
        } else {
            c == sep
        };
        if is_sep {
            let ghost before = pieces_view(done@);
            done.push(cur);
            proof {
                assert(pieces_view(done@) =~= before.push(cur@));
            }
            cur = Vec::new();
        } else {
            let ghost old_cur = cur@;
            cur.push(c);
            proof {
                assert(pieces_view(done@).push(cur@) =~= pieces_view(done@).push(old_cur).update(
                    done@.len() as int,
                    old_cur.push(c),
                ));
            }
        }
        i = i + 1;
    }
    assert(s@.subrange(0, i as int) =~= s@);
    let ghost before = pieces_view(done@);
    done.push(cur);
    proof {
        assert(pieces_view(done@) =~= before.push(cur@));
    }
    done
}

/// The pieces of `s` between occurrences of `sep`, empty pieces included.
pub fn split_pieces(s: &Vec<char>, sep: char) -> (r: Vec<Vec<char>>)
    ensures
        pieces_view(r@) == split_on(s@, false, sep),
{
    split_exec(s, false, sep)
}

fn line_address_exec(line: &Vec<char>, iface: &Option<Vec<char>>) -> (r: Option<Vec<char>>)
    ensures
        r is Some == line_address(line@, opt_view(*iface)) is Some,
        r is Some ==> r->0@ == line_address(line@, opt_view(*iface))->0,
{
    let inet_sp = chars_of("inet ");
    if !crate::text::contains_chars(line, &inet_sp) {
        return None;
    }
    match iface {
        Some(n) => {
            if !crate::text::contains_chars(line, n) {
                return None;
            }
        },
        None => {},
    }
    let words = split_exec(line, true, ' ');
    let ghost p = pieces_view(words@);
    let inet = chars_of("inet");
    let mut i: usize = 0;
    while i < words.len() && !crate::text::same_text(string_of(&words[i]).as_str(), string_of(&inet).as_str())
        invariant
            p == pieces_view(words@),
            p == split_on(line@, true, ' '),
            inet@ == "inet"@,
            i <= words@.len(),
            inet_word_from(p, i as int) == inet_word_from(p, 0),
        decreases words@.len() - i,
    {
        i = i + 1;
    }
    if i >= words.len() {
        return None;
    }
    assert(p[i as int] == "inet"@);
    assert(inet_word_from(p, 0) == next_word_from(p, i + 1));
    let mut k: usize = i + 1;
    while k < words.len() && words[k].len() == 0
        invariant
            p == pieces_view(words@),
            i < k <= words@.len(),
            next_word_from(p, k as int) == next_word_from(p, i + 1),
        decreases words@.len() - k,
    {
        k = k + 1;
    }
    if k >= words.len() {
        return None;
    }
    assert(next_word_from(p, i + 1) == Some(words@[k as int]@));
    Some(before_slash(&words[k]))
}

fn before_slash(w: &Vec<char>) -> (r: Vec<char>)
    ensures
        r@ == w@.subrange(0, index_of_from(w@, '/', 0)),
{
    let mut e: usize = 0;
    while e < w.len() && w[e] != '/'
        invariant
            e <= w@.len(),
            index_of_from(w@, '/', e as int) == index_of_from(w@, '/', 0),
        decreases w@.len() - e,
    {
        e = e + 1;
    }
    let mut out: Vec<char> = Vec::new();
    let mut t: usize = 0;
    while t < e
        invariant
            e <= w@.len(),
            t <= e,
            out@ == w@.subrange(0, t as int),
        decreases e - t,
    {
        out.push(w[t]);
        t = t + 1;
        assert(out@ =~= w@.subrange(0, t as int));
    }
    out
}

/// The views of an optional character vector.
pub open spec fn opt_view(v: Option<Vec<char>>) -> Option<Seq<char>> {
    match v {
        Some(x) => Some(x@),
        None => None,
    }
}

/// The IPv4 address in `ip -o addr show` output (see [`ipv4_in_output`]);
/// with an interface name, only lines naming it count.
pub fn ipv4_from_ip_output(output: &str, interface: Option<&str>) -> (r: Option<String>)
    ensures
        r is Some == ipv4_in_output(output@, match interface {
            Some(n) => Some(n@),
            None => None,
        }) is Some,
        r is Some ==> r->0@ == ipv4_in_output(output@, match interface {
            Some(n) => Some(n@),
            None => None,
        })->0,
{
    let iface: Option<Vec<char>> = match interface {
        Some(n) => Some(chars_of(n)),
        None => None,
    };
    let ghost iv = opt_view(iface);
    let cs = chars_of(output);
    let lines = split_exec(&cs, false, '\n');
    let ghost ls = pieces_view(lines@);
    let mut i: usize = 0;
    while i < lines.len()
        invariant
            ls == pieces_view(lines@),
            ls == split_on(output@, false, '\n'),
            iv == opt_view(iface),
            iv == match interface {
                Some(n) => Some(n@),
                None => None,
            },
            i <= lines@.len(),
            first_address_from(ls, iv, i as int) == first_address_from(ls, iv, 0),
        decreases lines@.len() - i,
    {
        assert(ls[i as int] == lines@[i as int]@);
        if let Some(a) = line_address_exec(&lines[i], &iface) {
            return Some(string_of(&a));
        }
        i = i + 1;
    }
    None
}

/// Whether a character is ASCII whitespace.
pub open spec fn is_ascii_ws(c: char) -> bool {
    c == ' ' || c == '\t' || c == '\n' || c == '\r' || c == '\x0c'
}

/// Upper-case of an ASCII lower-case letter; other characters unchanged.
pub open spec fn ascii_upper(c: char) -> char {
    if 'a' <= c && c <= 'z' { ((c as u32) - 32) as char } else { c }
}

/// Where leading whitespace ends.
pub open spec fn ws_prefix_end(s: Seq<char>, i: int) -> int
    decreases s.len() - i,
{
    if i >= s.len() || !is_ascii_ws(s[i]) {
        i
    } else {
        ws_prefix_end(s, i + 1)
    }
}

/// Where trailing whitespace starts, not below `lo`.
pub open spec fn ws_suffix_start(s: Seq<char>, lo: int, j: int) -> int
    decreases j - lo,
{
    if j <= lo || !is_ascii_ws(s[j - 1]) {
        j
    } else {
        ws_suffix_start(s, lo, j - 1)
    }
}

/// A MAC address as read from the system: surrounding whitespace removed,
/// letters upper-cased.
pub open spec fn normalized_mac(raw: Seq<char>) -> Seq<char> {
    let a = ws_prefix_end(raw, 0);
    raw.subrange(a, ws_suffix_start(raw, a, raw.len() as int)).map_values(|c: char| ascii_upper(c))
}

/// Normalizes a MAC address read from the system (see [`normalized_mac`]).
pub fn normalize_mac(raw: &str) -> (r: String)
    ensures
        r@ == normalized_mac(raw@),
{
    let s = chars_of(raw);
    let n: usize = s.len();
    let mut a: usize = 0;
    while a < n && (s[a] == ' ' || s[a] == '\t' || s[a] == '\n' || s[a] == '\r' || s[a] == '\x0c')
        invariant
            a <= n == s@.len(),
            ws_prefix_end(s@, a as int) == ws_prefix_end(s@, 0),
        decreases n - a,
    {
        a = a + 1;
    }
    let mut b: usize = n;
    while b > a && (s[b - 1] == ' ' || s[b - 1] == '\t' || s[b - 1] == '\n' || s[b - 1] == '\r'
        || s[b - 1] == '\x0c')
        invariant
            a <= b <= n == s@.len(),
            ws_suffix_start(s@, a as int, b as int) == ws_suffix_start(s@, a as int, n as int),
        decreases b,
    {
        b = b - 1;
    }
    let mut out: Vec<char> = Vec::new();
    let mut i: usize = a;
    while i < b
        invariant
            a <= i <= b <= n == s@.len(),
            out@ == s@.subrange(a as int, i as int).map_values(|c: char| ascii_upper(c)),
        decreases b - i,
    {
        let c = s[i];
        let u: char = if 'a' <= c && c <= 'z' { ((c as u32) - 32) as u8 as char } else { c };
        out.push(u);
        i = i + 1;
        assert(out@ =~= s@.subrange(a as int, i as int).map_values(|c: char| ascii_upper(c)));
    }
    string_of(&out)
}

} // verus!

verus! {

/// The first index at or after `i` where `pat` starts in `s`, or the length.
pub open spec fn find_from(s: Seq<char>, pat: Seq<char>, i: int) -> int
    decreases s.len() - i,
{
    if i < 0 || i >= s.len() || i + pat.len() > s.len() {
        s.len() as int
    } else if s.subrange(i, i + pat.len()) == pat {
        i
    } else {
        find_from(s, pat, i + 1)
    }
}

/// `s` without surrounding ASCII whitespace.
pub open spec fn trim_ws(s: Seq<char>) -> Seq<char> {
    let a = ws_prefix_end(s, 0);
    s.subrange(a, ws_suffix_start(s, a, s.len() as int))
}

/// The number a line gives after `total <=`: the text after the first
/// occurrence, up to the next occurrence or comma, trimmed, read as a `u32`.
pub open spec fn total_limit(line: Seq<char>) -> Option<u32> {
    let k = find_from(line, "total <="@, 0);
    if k >= line.len() {
        None
    } else {
        let rest = line.subrange(k + 8, line.len() as int);
        let c = index_of_from(rest, ',', 0);
        let n = find_from(rest, "total <="@, 0);
        let seg = rest.subrange(0, if c < n { c } else { n });
        let t = trim_ws(seg);
        if crate::protocol::is_digits(t) && crate::protocol::digits_value(t) <= u32::MAX {
            Some(crate::protocol::digits_value(t) as u32)
        } else {
            None
        }
    }
}

/// Whether the host can keep its Wi-Fi association beside a peer link: `iw
/// list` reports interface combinations with some line allowing a total of
/// at least two interfaces, or `iw dev` shows a P2P device interface.
pub open spec fn multi_interface_spec(iw_list: Seq<char>, iw_dev: Seq<char>) -> bool {
    (contains_seq(iw_list, "valid interface combinations"@) && exists|i: int|
        0 <= i < split_on(iw_list, false, '\n').len() && match total_limit(
            #[trigger] split_on(iw_list, false, '\n')[i],
        ) {
            Some(v) => v >= 2,
            None => false,
        }) || contains_seq(iw_dev, "p2p-dev-"@) || contains_seq(iw_dev, "p2p0"@)
}

fn find_exec(s: &Vec<char>, pat: &Vec<char>, from: usize) -> (r: usize)
    requires
        from <= s@.len(),
    ensures
        r as int == find_from(s@, pat@, from as int),
        r <= s@.len(),
        r < s@.len() ==> r + pat@.len() <= s@.len(),
{
    let n: usize = s.len();
    let m: usize = pat.len();
    let mut i: usize = from;
    while i < n && m <= n - i
        invariant
            from <= i <= n == s@.len(),
            m == pat@.len(),
            find_from(s@, pat@, i as int) == find_from(s@, pat@, from as int),
        decreases n - i,
    {
        let mut j: usize = 0;
        let mut same = true;
        while j < m
            invariant
                m == pat@.len(),
                n == s@.len(),
                i + m <= n,
                j <= m,
                same == (forall|q: int| 0 <= q < j ==> s@[i + q] == pat@[q]),
            decreases m - j,
        {
            if s[i + j] != pat[j] {
                same = false;
            }
            j = j + 1;
        }
        if same {
            assert(s@.subrange(i as int, i + pat@.len()) =~= pat@);
            return i;
        }
        assert(s@.subrange(i as int, i + pat@.len()) != pat@) by {
            let k = choose|q: int| 0 <= q < m && s@[i + q] != pat@[q];
            assert(s@.subrange(i as int, i + pat@.len())[k] != pat@[k]);
        }
        i = i + 1;
    }
    n
}

fn slice_vec(s: &Vec<char>, from: usize, to: usize) -> (r: Vec<char>)
    requires
        from <= to <= s@.len(),
    ensures
        r@ == s@.subrange(from as int, to as int),
{
    let mut out: Vec<char> = Vec::new();
    let mut i: usize = from;
    while i < to
        invariant
            from <= i <= to <= s@.len(),
            out@ == s@.subrange(from as int, i as int),
        decreases to - i,
    {
        out.push(s[i]);
        i = i + 1;
        assert(out@ =~= s@.subrange(from as int, i as int));
    }
    out
}

fn trim_ws_exec(s: &Vec<char>) -> (r: Vec<char>)
    ensures
        r@ == trim_ws(s@),
{
    let n: usize = s.len();
    let mut a: usize = 0;
    while a < n && (s[a] == ' ' || s[a] == '\t' || s[a] == '\n' || s[a] == '\r' || s[a] == '\x0c')
        invariant
            a <= n == s@.len(),
            ws_prefix_end(s@, a as int) == ws_prefix_end(s@, 0),
        decreases n - a,
    {
        a = a + 1;
    }
    let mut b: usize = n;
    while b > a && (s[b - 1] == ' ' || s[b - 1] == '\t' || s[b - 1] == '\n' || s[b - 1] == '\r'
        || s[b - 1] == '\x0c')
        invariant
            a <= b <= n == s@.len(),
            ws_suffix_start(s@, a as int, b as int) == ws_suffix_start(s@, a as int, n as int),
        decreases b,
    {
        b = b - 1;
    }
    slice_vec(s, a, b)
}

/// The limit a line of `iw list` gives after `total <=` (see [`total_limit`]).
pub fn total_limit_of(line: &str) -> (r: Option<u32>)
    ensures
        r == total_limit(line@),
{
    let s = chars_of(line);
    let pat = chars_of("total <=");
    proof {
        reveal_strlit("total <=");
    }
    let k = find_exec(&s, &pat, 0);
    if k >= s.len() {
        return None;
    }
    let rest = slice_vec(&s, k + 8, s.len());
    let mut c: usize = 0;
    while c < rest.len() && rest[c] != ','
        invariant
            c <= rest@.len(),
            index_of_from(rest@, ',', c as int) == index_of_from(rest@, ',', 0),
        decreases rest@.len() - c,
    {
        c = c + 1;
    }
    let n = find_exec(&rest, &pat, 0);
    let end: usize = if c < n { c } else { n };
    let seg = slice_vec(&rest, 0, end);
    let t = trim_ws_exec(&seg);
    crate::protocol::digits_to_u32(&t)
}

/// Whether the host can keep its association beside a peer link (see
/// [`multi_interface_spec`]), from the output of `iw list` and `iw dev`.
pub fn supports_multi_interface(iw_list: &str, iw_dev: &str) -> (r: bool)
    ensures
        r == multi_interface_spec(iw_list@, iw_dev@),
{
    let list = chars_of(iw_list);
    let dev = chars_of(iw_dev);
    proof {
        reveal_strlit("valid interface combinations");
    }
    let mut found = false;
    if crate::text::contains_chars(&list, &chars_of("valid interface combinations")) {
        let lines = split_exec(&list, false, '\n');
        let ghost ls = pieces_view(lines@);
        let mut i: usize = 0;
        while i < lines.len()
            invariant
                ls == pieces_view(lines@),
                ls == split_on(iw_list@, false, '\n'),
                i <= lines@.len(),
                found == exists|t: int| 0 <= t < i && match total_limit(#[trigger] ls[t]) {
                    Some(v) => v >= 2,
                    None => false,
                },
            decreases lines@.len() - i,
        {
            let v = total_limit_of(string_of(&lines[i]).as_str());
            assert(ls[i as int] == lines@[i as int]@);
            match v {
                Some(x) => {
                    if x >= 2 {
                        found = true;
                    }
                },
                None => {},
            }
            i = i + 1;
        }
    }
    found || crate::text::contains_chars(&dev, &chars_of("p2p-dev-")) || crate::text::contains_chars(&dev, &chars_of("p2p0"))
}

/// A way of joining the sender's group, in the order tried.
#[derive(Debug, Clone, Copy, PartialEq, Eq, Structural)]
pub enum BearerStep {
    /// Through the P2P device interface, keeping the main association.
    P2pInterface,
    /// Through a virtual interface, keeping the main association.
    VirtualInterface,
    /// On the main interface through the supplicant.
    MainSupplicant,
    /// On the main interface through the network-manager CLI.
    MainCli,
}

/// The steps tried to join the sender's group: the two dual-association
/// steps first when the main association is to be kept and the host allows
/// it, then the main-interface steps.
pub open spec fn bearer_plan(preserve_wifi: bool, multi_interface: bool) -> Seq<BearerStep> {
    if preserve_wifi && multi_interface {
        seq![BearerStep::P2pInterface, BearerStep::VirtualInterface, BearerStep::MainSupplicant, BearerStep::MainCli]
    } else {
        seq![BearerStep::MainSupplicant, BearerStep::MainCli]
    }
}

/// The steps tried to join the sender's group (see [`bearer_plan`]).
pub fn connect_plan(preserve_wifi: bool, multi_interface: bool) -> (r: Vec<BearerStep>)
    ensures
        r@ == bearer_plan(preserve_wifi, multi_interface),
{
    let mut out: Vec<BearerStep> = Vec::new();
    if preserve_wifi && multi_interface {
        out.push(BearerStep::P2pInterface);
        out.push(BearerStep::VirtualInterface);
    }
    out.push(BearerStep::MainSupplicant);
    out.push(BearerStep::MainCli);
    assert(out@ =~= bearer_plan(preserve_wifi, multi_interface));
    out
}

} // verus!
