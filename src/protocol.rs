//! The text-framed control protocol: `kind:id:name[?payload]`, where kind is
//! `action` or `ack`, id a decimal `u32`, name an identifier, and payload
//! JSON text.
use vstd::prelude::*;
use crate::text::decimal;
use crate::text::int_text;
use crate::text::json_quoted;
use crate::text::chars_of;
use crate::text::push_decimal;
use crate::text::push_int;
use crate::text::push_json_string;
use crate::text::push_str;
use crate::text::string_of;

verus! {

/// Whether `s` is one complete JSON value.
pub uninterp spec fn is_json_text(s: Seq<char>) -> bool;

/// Relies on `serde_json::from_str::<serde_json::Value>`: whether the text
/// parses as one JSON value.
#[verifier::external_body]
fn json_parses(s: &str) -> (r: bool)
    ensures
        r == is_json_text(s@),
{
    serde_json::from_str::<serde_json::Value>(s).is_ok()
}

/// A character of an identifier: ASCII letter, digit or underscore.
pub open spec fn is_word_char(c: char) -> bool {
    ('a' <= c && c <= 'z') || ('A' <= c && c <= 'Z') || ('0' <= c && c <= '9') || c == '_'
}

/// A character that may start an identifier.
pub open spec fn is_name_start(c: char) -> bool {
    ('a' <= c && c <= 'z') || ('A' <= c && c <= 'Z') || c == '_'
}

/// `[A-Za-z_][A-Za-z0-9_]*`.
pub open spec fn is_name(n: Seq<char>) -> bool {
    n.len() > 0 && is_name_start(n[0]) && forall|i: int| 0 <= i < n.len() ==> is_word_char(#[trigger] n[i])
}

/// The two message kinds.
pub open spec fn is_kind(k: Seq<char>) -> bool {
    k == "action"@ || k == "ack"@
}

/// An ASCII decimal digit.
pub open spec fn is_digit(c: char) -> bool {
    '0' <= c && c <= '9'
}

/// `[0-9]+`.
pub open spec fn is_digits(d: Seq<char>) -> bool {
    d.len() > 0 && forall|i: int| 0 <= i < d.len() ==> is_digit(#[trigger] d[i])
}

/// The value of a run of decimal digits.
pub open spec fn digits_value(d: Seq<char>) -> nat
    decreases d.len(),
{
    if d.len() == 0 {
        0
    } else {
        digits_value(d.drop_last()) * 10 + ((d.last() as u32) - ('0' as u32)) as nat
    }
}

/// The first index at or after `from` that holds `c`, or the length.
pub open spec fn index_of_from(s: Seq<char>, c: char, from: int) -> int
    decreases s.len() - from,
{
    if from < 0 || from >= s.len() {
        s.len() as int
    } else if s[from] == c {
        from
    } else {
        index_of_from(s, c, from + 1)
    }
}

/// The first index at or after `from` that holds no identifier character,
/// or the length.
pub open spec fn word_end(s: Seq<char>, from: int) -> int
    decreases s.len() - from,
{
    if from < 0 || from >= s.len() {
        s.len() as int
    } else if !is_word_char(s[from]) {
        from
    } else {
        word_end(s, from + 1)
    }
}

/// A message as its four fields: kind, id, name and optional payload.
pub struct MessageModel {
    pub kind: Seq<char>,
    pub id: u32,
    pub name: Seq<char>,
    pub payload: Option<Seq<char>>,
}

/// The frame text of a message.
pub open spec fn frame_text(m: MessageModel) -> Seq<char> {
    m.kind + seq![':'] + decimal(m.id as nat) + seq![':'] + m.name + match m.payload {
        Some(p) => seq!['?'] + p,
        None => Seq::empty(),
    }
}

/// What a frame parses to. The tail after `?` must hold no line feed; a tail
/// that is not JSON leaves the payload out.
pub open spec fn parse_frame(s: Seq<char>) -> Option<MessageModel> {
    let i1: int = index_of_from(s, ':', 0);
    let i2: int = index_of_from(s, ':', i1 + 1);
    let j: int = word_end(s, i2 + 1);
    let kind = s.subrange(0, i1);
    let digits = s.subrange(i1 + 1, i2);
    let name = s.subrange(i2 + 1, j);
    let tail = s.subrange(j + 1, s.len() as int);
    if i1 < s.len() && is_kind(kind) && i2 < s.len() && is_digits(digits) && digits_value(digits)
        <= u32::MAX && is_name(name) && (j == s.len() || (s[j] == '?' && !tail.contains('\n'))) {
        Some(
            MessageModel {
                kind,
                id: digits_value(digits) as u32,
                name,
                payload: if j < s.len() && is_json_text(tail) {
                    Some(tail)
                } else {
                    None
                },
            },
        )
    } else {
        None
    }
}

/// A message that parsing can produce.
pub open spec fn model_wf(m: MessageModel) -> bool {
    &&& is_kind(m.kind)
    &&& is_name(m.name)
    &&& match m.payload {
        Some(p) => !p.contains('\n') && is_json_text(p),
        None => true,
    }
}

/// A control-protocol message.
#[derive(Debug, Clone)]
pub struct WsMessage {
    /// `action` or `ack`.
    pub msg_type: String,
    pub id: u32,
    pub name: String,
    /// JSON text of the payload, if any.
    pub payload: Option<String>,
}

impl WsMessage {
    /// The four fields as a model.
    pub open spec fn model(&self) -> MessageModel {
        MessageModel {
            kind: self.msg_type@,
            id: self.id,
            name: self.name@,
            payload: match self.payload {
                Some(p) => Some(p@),
                None => None,
            },
        }
    }

    /// Parses one frame; `None` when it does not follow the grammar.
    pub fn parse(text: &str) -> (r: Option<WsMessage>)
        ensures
            r is Some == parse_frame(text@) is Some,
            r is Some ==> r->0.model() == parse_frame(text@)->0,
    {
        let s = chars_of(text);
        let n: usize = s.len();
        let ghost sv = s@;
        let i1: usize = index_of(&s, ':', 0);
        if i1 >= n {
            return None;
        }
        let kind = crate::text::slice_chars(&s, 0, i1);
        let kind_s = string_of(&kind);
        let is_action = crate::text::same_text(kind_s.as_str(), "action");
        let is_ack = crate::text::same_text(kind_s.as_str(), "ack");
        if !is_action && !is_ack {
            return None;
        }
        let i2: usize = index_of(&s, ':', i1 + 1);
        if i2 >= n {
            return None;
        }
        let id = match parse_digits(&s, i1 + 1, i2) {
            Some(v) => v,
            None => {
                return None;
            },
        };
        let j: usize = word_end_of(&s, i2 + 1);
        if j == i2 + 1 || !is_start(s[i2 + 1]) {
            proof {
                let nn = sv.subrange(i2 + 1, j as int);
                if j > i2 + 1 {
                    assert(nn[0] == sv[i2 + 1]);
                }
                assert(!is_name(nn));
            }
            return None;
        }
        let name = crate::text::slice_chars(&s, i2 + 1, j);
        proof {
            assert forall|t: int| 0 <= t < name@.len() implies is_word_char(#[trigger] name@[t]) by {
                lemma_word_end_prefix(sv, i2 + 1, i2 + 1 + t);
                assert(name@[t] == sv[i2 + 1 + t]);
            }
            assert(is_name(name@));
        }
        let name_s = string_of(&name);
        if j == n {
            return Some(WsMessage { msg_type: kind_s, id, name: name_s, payload: None });
        }
        if s[j] != '?' {
            return None;
        }
        let tail = crate::text::slice_chars(&s, j + 1, n);
        if contains_char(&tail, '\n') {
            return None;
        }
        let tail_s = string_of(&tail);
        let payload = if json_parses(tail_s.as_str()) { Some(tail_s) } else { None };
        Some(WsMessage { msg_type: kind_s, id, name: name_s, payload })
    }

    /// The frame text.
    pub fn to_string(&self) -> (r: String)
        ensures
            r@ == frame_text(self.model()),
    {
        let mut out: Vec<char> = Vec::new();
        push_str(&mut out, self.msg_type.as_str());
        out.push(':');
        push_decimal(&mut out, self.id as u64);
        out.push(':');
        push_str(&mut out, self.name.as_str());
        match &self.payload {
            Some(p) => {
                out.push('?');
                push_str(&mut out, p.as_str());
            },
            None => {},
        }
        assert(out@ =~= frame_text(self.model()));
        string_of(&out)
    }

    /// An `action` message.
    pub fn action(id: u32, name: &str, payload: Option<String>) -> (r: WsMessage)
        ensures
            r.msg_type@ == "action"@,
            r.id == id,
            r.name@ == name@,
            r.payload == payload,
    {
        WsMessage { msg_type: String::from_str("action"), id, name: String::from_str(name), payload }
    }

    /// An `ack` message.
    pub fn ack(id: u32, name: &str, payload: Option<String>) -> (r: WsMessage)
        ensures
            r.msg_type@ == "ack"@,
            r.id == id,
            r.name@ == name@,
            r.payload == payload,
    {
        WsMessage { msg_type: String::from_str("ack"), id, name: String::from_str(name), payload }
    }

    /// `action:<id>:versionNegotiation?{"version":1,"versions":[1]}`.
    pub fn version_negotiation(id: u32) -> (r: WsMessage)
        ensures
            r.msg_type@ == "action"@,
            r.id == id,
            r.name@ == "versionNegotiation"@,
            r.payload is Some,
            r.payload->0@ == "{\"version\":1,\"versions\":[1]}"@,
    {
        Self::action(
            id,
            "versionNegotiation",
            Some(String::from_str("{\"version\":1,\"versions\":[1]}")),
        )
    }

    /// A `status` action reporting on a task: type 1 for success, 3 for a
    /// refusal by the user, anything else for failure.
    pub fn status(id: u32, task_id: &str, status_type: i32, reason: &str) -> (r: WsMessage)
        ensures
            r.msg_type@ == "action"@,
            r.id == id,
            r.name@ == "status"@,
            r.payload is Some,
            r.payload->0@ == status_payload(task_id@, status_type as int, reason@),
    {
        let mut out: Vec<char> = Vec::new();
        push_str(&mut out, "{\"taskId\":");
        push_json_string(&mut out, task_id);
        push_str(&mut out, ",\"id\":");
        push_json_string(&mut out, task_id);
        push_str(&mut out, ",\"type\":");
        push_int(&mut out, status_type as i64);
        push_str(&mut out, ",\"reason\":");
        push_json_string(&mut out, reason);
        push_str(&mut out, "}");
        assert(out@ =~= status_payload(task_id@, status_type as int, reason@));
        Self::action(id, "status", Some(string_of(&out)))
    }
}

/// `{"taskId":T,"id":T,"type":N,"reason":R}` with T and R JSON strings.
pub open spec fn status_payload(task_id: Seq<char>, status_type: int, reason: Seq<char>) -> Seq<char> {
    "{\"taskId\":"@ + json_quoted(task_id) + ",\"id\":"@ + json_quoted(task_id) + ",\"type\":"@
        + int_text(status_type) + ",\"reason\":"@ + json_quoted(reason) + "}"@
}

fn index_of(s: &Vec<char>, c: char, from: usize) -> (r: usize)
    requires
        from <= s@.len(),
    ensures
        r as int == index_of_from(s@, c, from as int),
        from <= r <= s@.len(),
{
    let mut i: usize = from;
    while i < s.len() && s[i] != c
        invariant
            from <= i <= s@.len(),
            index_of_from(s@, c, i as int) == index_of_from(s@, c, from as int),
        decreases s@.len() - i,
    {
        i = i + 1;
    }
    i
}

fn word_end_of(s: &Vec<char>, from: usize) -> (r: usize)
    requires
        from <= s@.len(),
    ensures
        r as int == word_end(s@, from as int),
        from <= r <= s@.len(),
{
    let mut i: usize = from;
    while i < s.len() && is_word(s[i])
        invariant
            from <= i <= s@.len(),
            word_end(s@, i as int) == word_end(s@, from as int),
        decreases s@.len() - i,
    {
        i = i + 1;
    }
    i
}

/// Everything between `from` and the word end is an identifier character.
proof fn lemma_word_end_prefix(s: Seq<char>, from: int, t: int)
    requires
        0 <= from <= t < word_end(s, from),
    ensures
        is_word_char(s[t]),
    decreases t - from,
{
    if t > from {
        lemma_word_end_prefix(s, from + 1, t);
    }
}

fn contains_char(v: &Vec<char>, c: char) -> (r: bool)
    ensures
        r == v@.contains(c),
{
    let mut i: usize = 0;
    while i < v.len()
        invariant
            i <= v@.len(),
            forall|t: int| 0 <= t < i ==> v@[t] != c,
        decreases v@.len() - i,
    {
        if v[i] == c {
            return true;
        }
        i = i + 1;
    }
    false
}

/// Reads a whole run of decimal digits as a `u32`; `None` when it is empty,
/// holds anything else, or exceeds `u32::MAX`.
pub fn digits_to_u32(d: &Vec<char>) -> (r: Option<u32>)
    ensures
        r is Some == (is_digits(d@) && digits_value(d@) <= u32::MAX),
        r is Some ==> r->0 as nat == digits_value(d@),
{
    let r = parse_digits(d, 0, d.len());
    assert(d@.subrange(0, d@.len() as int) =~= d@);
    r
}

fn parse_digits(s: &Vec<char>, from: usize, to: usize) -> (r: Option<u32>)
    requires
        from <= to <= s@.len(),
    ensures
        r is Some == (is_digits(s@.subrange(from as int, to as int)) && digits_value(
            s@.subrange(from as int, to as int),
        ) <= u32::MAX),
        r is Some ==> r->0 as nat == digits_value(s@.subrange(from as int, to as int)),
{
    let ghost d = s@.subrange(from as int, to as int);
    if from == to {
        return None;
    }
    let mut value: u64 = 0;
    let mut k: usize = from;
    while k < to
        invariant
            from <= k <= to <= s@.len(),
            d == s@.subrange(from as int, to as int),
            forall|t: int| from <= t < k ==> is_digit(#[trigger] s@[t]),
            value as nat == digits_value(s@.subrange(from as int, k as int)),
            value <= u32::MAX,
        decreases to - k,
    {
        let c = s[k];
        if !('0' <= c && c <= '9') {
            assert(d[k - from] == c);
            return None;
        }
        assert(s@.subrange(from as int, k + 1).drop_last() =~= s@.subrange(from as int, k as int));
        assert(s@.subrange(from as int, k + 1).last() == c);
        value = value * 10 + ((c as u32) - ('0' as u32)) as u64;
        k = k + 1;
        assert(value as nat == digits_value(s@.subrange(from as int, k as int)));
        if value > 0xFFFF_FFFF {
            proof {
                lemma_digits_value_prefix(d, k - from);
                assert(d.subrange(0, k - from) =~= s@.subrange(from as int, k as int));
            }
            return None;
        }
    }
    assert(s@.subrange(from as int, k as int) =~= d);
    assert forall|t: int| 0 <= t < d.len() implies is_digit(#[trigger] d[t]) by {
        assert(d[t] == s@[from + t]);
    }
    Some(value as u32)
}

fn is_word(c: char) -> (r: bool)
    ensures
        r == is_word_char(c),
{
    ('a' <= c && c <= 'z') || ('A' <= c && c <= 'Z') || ('0' <= c && c <= '9') || c == '_'
}

fn is_start(c: char) -> (r: bool)
    ensures
        r == is_name_start(c),
{
    ('a' <= c && c <= 'z') || ('A' <= c && c <= 'Z') || c == '_'
}



/// Index search skips a stretch without `c` and stops at `c`.
proof fn lemma_index_of_skip(s: Seq<char>, c: char, from: int, to: int)
    requires
        0 <= from <= to < s.len(),
        s[to] == c,
        forall|t: int| from <= t < to ==> s[t] != c,
    ensures
        index_of_from(s, c, from) == to,
    decreases to - from,
{
    if from < to {
        lemma_index_of_skip(s, c, from + 1, to);
    }
}

/// The word end skips a stretch of identifier characters and stops after it.
proof fn lemma_word_end_skip(s: Seq<char>, from: int, to: int)
    requires
        0 <= from <= to <= s.len(),
        to == s.len() || !is_word_char(s[to]),
        forall|t: int| from <= t < to ==> is_word_char(s[t]),
    ensures
        word_end(s, from) == to,
    decreases to - from,
{
    if from < to {
        lemma_word_end_skip(s, from + 1, to);
    }
}

/// A digit character is worth its digit.
pub(crate) proof fn lemma_digit_char_value(k: nat)
    requires
        k < 10,
    ensures
        is_digit(crate::text::digit_char(k)),
        (crate::text::digit_char(k) as u32 - '0' as u32) == k,
{
}

/// Decimal rendering yields a non-empty run of digits worth the number.
pub(crate) proof fn lemma_decimal_digits(n: nat)
    ensures
        is_digits(decimal(n)),
        digits_value(decimal(n)) == n,
    decreases n,
{
    lemma_digit_char_value(n % 10);
    if n < 10 {
        assert(decimal(n).drop_last() =~= Seq::<char>::empty());
        assert(digits_value(Seq::<char>::empty()) == 0);
        assert(decimal(n).last() == crate::text::digit_char(n));
        assert(digits_value(decimal(n)) == digits_value(decimal(n).drop_last()) * 10 + ((decimal(n).last() as u32) - ('0' as u32)) as nat);
    } else {
        lemma_decimal_digits(n / 10);
        let d = decimal(n);
        assert(d.drop_last() =~= decimal(n / 10));
        assert(d.last() == crate::text::digit_char(n % 10));
        assert(digits_value(d) == digits_value(d.drop_last()) * 10 + ((d.last() as u32) - ('0' as u32)) as nat);
        assert((n / 10) * 10 + n % 10 == n);
        assert forall|i: int| 0 <= i < d.len() implies is_digit(#[trigger] d[i]) by {
            if i < d.len() - 1 {
                assert(d[i] == decimal(n / 10)[i]);
            }
        }
    }
}

/// Formatting a well-formed message and parsing the text gives the message
/// back.
pub proof fn lemma_parse_format(m: MessageModel)
    requires
        model_wf(m),
    ensures
        parse_frame(frame_text(m)) == Some(m),
{
    reveal_strlit("action");
    reveal_strlit("ack");
    let s = frame_text(m);
    let d = decimal(m.id as nat);
    lemma_decimal_digits(m.id as nat);
    let rest: Seq<char> = match m.payload {
        Some(p) => seq!['?'] + p,
        None => Seq::empty(),
    };
    let i1: int = m.kind.len() as int;
    let i2: int = i1 + 1 + d.len();
    let j: int = i2 + 1 + m.name.len();
    assert(s =~= m.kind + seq![':'] + d + seq![':'] + m.name + rest);
    assert forall|t: int| 0 <= t < i1 implies s[t] != ':' by {
        assert(s[t] == m.kind[t]);
    }
    assert(s[i1] == ':');
    lemma_index_of_skip(s, ':', 0, i1);
    assert forall|t: int| i1 + 1 <= t < i2 implies s[t] != ':' by {
        assert(s[t] == d[t - i1 - 1]);
        assert(is_digit(d[t - i1 - 1]));
    }
    assert(s[i2] == ':');
    lemma_index_of_skip(s, ':', i1 + 1, i2);
    assert forall|t: int| i2 + 1 <= t < j implies is_word_char(s[t]) by {
        assert(s[t] == m.name[t - i2 - 1]);
    }
    if j < s.len() {
        assert(s[j] == '?');
    }
    lemma_word_end_skip(s, i2 + 1, j);
    assert(s.subrange(0, i1) =~= m.kind);
    assert(s.subrange(i1 + 1, i2) =~= d);
    assert(s.subrange(i2 + 1, j) =~= m.name);
    match m.payload {
        Some(p) => {
            assert(s.subrange(j + 1, s.len() as int) =~= p);
        },
        None => {
            assert(j == s.len());
        },
    }
}

/// A longer run of digits is worth at least its prefix.
proof fn lemma_digits_value_prefix(d: Seq<char>, k: int)
    requires
        0 <= k <= d.len(),
    ensures
        digits_value(d.subrange(0, k)) <= digits_value(d),
    decreases d.len() - k,
{
    if k < d.len() {
        lemma_digits_value_prefix(d, k + 1);
        assert(d.subrange(0, k + 1).drop_last() =~= d.subrange(0, k));
    } else {
        assert(d.subrange(0, k) =~= d);
    }
}

} // verus!
