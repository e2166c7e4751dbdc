//! Source RCON framing, the chat and player-list text that ARK answers with,
//! and the decisions taken on player counts.
use vstd::prelude::*;
use vstd::utf8::{decode_utf8, encode_utf8, encode_utf8_decode_utf8, encode_utf8_valid_utf8, valid_utf8};
use crate::config::{Config, ServerSlot, SlotRconConfig, opt_str, slot_list, slot_entries};
use crate::text::{
    append, append_vec, chars_of, contains, decimal, eq_ignore_case, find, find_seq, index_of,
    index_of_char, is_digit, is_ws, join, join_vecs, last_index_of, last_index_of_char,
    lemma_index_of_from_bounds, lemma_trim_len, lines, lines_of, lower_seq, lower_vec, owned,
    range_eq_ignore_case, split_once_seq, split_once_str, string_from, sub_vec, take_vec, trim,
    trim_vec, u64_to_string, vec_contains_str, vec_eq_str, views, words, words_of, char_is_ws,
    trim_bounds, lemma_trim_idempotent, first_where, lemma_first_where_at, lemma_first_where_none,
    char_is_digit,
};

verus! {

pub const RCON_AUTH: i32 = 3;
pub const RCON_AUTH_RESPONSE: i32 = 2;
pub const RCON_EXECCOMMAND: i32 = 2;
pub const RCON_RESPONSE_VALUE: i32 = 0;
pub const MAX_PACKET_SIZE: i32 = 1048576;

/// One RCON packet.
#[derive(Clone, Debug, PartialEq, Eq)]
pub struct RconPacket {
    pub id: i32,
    pub packet_type: i32,
    pub body: String,
}

/// Why an RCON exchange failed.
#[derive(Clone, Debug)]
pub enum RconError {
    ConnectTimeout,
    CommandTimeout,
    AuthFailed,
    Io(String),
    Malformed(String),
}

/// The message of an RCON error.
pub open spec fn rcon_error_message(e: RconError) -> Seq<char> {
    match e {
        RconError::ConnectTimeout => "connect timed out"@,
        RconError::CommandTimeout => "command timed out"@,
        RconError::AuthFailed => "authentication failed"@,
        RconError::Io(m) => "I/O error: "@ + m@,
        RconError::Malformed(m) => "malformed RCON packet: "@ + m@,
    }
}

impl RconError {
    /// The human-readable error message.
    pub fn message(&self) -> (res: String)
        ensures
            res@ == rcon_error_message(*self),
    {
        match self {
            RconError::ConnectTimeout => owned("connect timed out"),
            RconError::CommandTimeout => owned("command timed out"),
            RconError::AuthFailed => owned("authentication failed"),
            RconError::Io(m) => {
                let mut s = owned("I/O error: ");
                append(&mut s, m.as_str());
                s
            },
            RconError::Malformed(m) => {
                let mut s = owned("malformed RCON packet: ");
                append(&mut s, m.as_str());
                s
            },
        }
    }
}

/// The four little-endian bytes of `x`.
pub open spec fn le32(x: i32) -> Seq<u8> {
    let u = x as u32;
    seq![(u & 0xff) as u8, ((u >> 8u32) & 0xff) as u8, ((u >> 16u32) & 0xff) as u8, ((u >> 24u32) & 0xff) as u8]
}

/// The `i32` whose little-endian bytes are `b0 b1 b2 b3`.
pub open spec fn from_le32(b0: u8, b1: u8, b2: u8, b3: u8) -> i32 {
    ((b0 as u32) | ((b1 as u32) << 8u32) | ((b2 as u32) << 16u32) | ((b3 as u32) << 24u32)) as i32
}

/// The `i32` at `b[at..at + 4]`.
pub open spec fn le32_at(b: Seq<u8>, at: int) -> i32 {
    from_le32(b[at], b[at + 1], b[at + 2], b[at + 3])
}

pub proof fn lemma_le32_round_trip(x: i32)
    ensures
        from_le32(le32(x)[0], le32(x)[1], le32(x)[2], le32(x)[3]) == x,
{
    let u = x as u32;
    let b0 = (u & 0xff) as u8;
    let b1 = ((u >> 8u32) & 0xff) as u8;
    let b2 = ((u >> 16u32) & 0xff) as u8;
    let b3 = ((u >> 24u32) & 0xff) as u8;
    assert(((b0 as u32) | ((b1 as u32) << 8u32) | ((b2 as u32) << 16u32) | ((b3 as u32) << 24u32))
        as i32 == x) by (bit_vector)
        requires
            u == x as u32,
            b0 == (u & 0xff) as u8,
            b1 == ((u >> 8u32) & 0xff) as u8,
            b2 == ((u >> 16u32) & 0xff) as u8,
            b3 == ((u >> 24u32) & 0xff) as u8,
    ;
}

fn push_le32(out: &mut Vec<u8>, x: i32)
    ensures
        final(out)@ == old(out)@ + le32(x),
{
    let u = x as u32;
    out.push((u & 0xff) as u8);
    out.push(((u >> 8u32) & 0xff) as u8);
    out.push(((u >> 16u32) & 0xff) as u8);
    out.push(((u >> 24u32) & 0xff) as u8);
    assert(out@ =~= old(out)@ + le32(x));
}

pub(crate) fn read_le32(b: &[u8], at: usize) -> (res: i32)
    requires
        at + 4 <= b@.len(),
    ensures
        res == le32_at(b@, at as int),
{
    let b0 = b[at];
    let b1 = b[at + 1];
    let b2 = b[at + 2];
    let b3 = b[at + 3];
    ((b0 as u32) | ((b1 as u32) << 8u32) | ((b2 as u32) << 16u32) | ((b3 as u32) << 24u32)) as i32
}

/// The bytes of a packet: size, id, type, the UTF-8 body and two zero bytes,
/// where the size counts everything after the size field.
pub open spec fn packet_bytes(id: i32, packet_type: i32, body: Seq<char>) -> Seq<u8> {
    le32((encode_utf8(body).len() + 10) as i32) + le32(id) + le32(packet_type) + encode_utf8(body)
        + seq![0u8, 0u8]
}

/// Encodes a packet for the wire.
pub fn encode_packet(packet: &RconPacket) -> (out: Vec<u8>)
    requires
        encode_utf8(packet.body@).len() + 10 <= i32::MAX,
    ensures
        out@ == packet_bytes(packet.id, packet.packet_type, packet.body@),
{
    let body = packet.body.as_str().as_bytes();
    let n = body.len();
    let size: i32 = (n + 10) as i32;
    let mut out: Vec<u8> = Vec::new();
    push_le32(&mut out, size);
    push_le32(&mut out, packet.id);
    push_le32(&mut out, packet.packet_type);
    let ghost head = out@;
    let mut i: usize = 0;
    while i < n
        invariant
            n == body@.len(),
            0 <= i <= n,
            out@ == head + body@.take(i as int),
        decreases n - i,
    {
        out.push(body[i]);
        assert(body@.take(i + 1) =~= body@.take(i as int).push(body@[i as int]));
        assert(head + body@.take(i + 1) =~= (head + body@.take(i as int)).push(body@[i as int]));
        i = i + 1;
    }
    assert(body@.take(n as int) =~= body@);
    out.push(0u8);
    out.push(0u8);
    assert(out@ =~= packet_bytes(packet.id, packet.packet_type, packet.body@));
    out
}

/// What `String::from_utf8_lossy` makes of a byte sequence.
pub uninterp spec fn utf8_lossy(b: Seq<u8>) -> Seq<char>;

/// The text of `b`: its decoding when it is valid UTF-8, else what
/// `from_utf8_lossy` makes of it.
pub open spec fn lossy_text(b: Seq<u8>) -> Seq<char> {
    if valid_utf8(b) {
        decode_utf8(b)
    } else {
        utf8_lossy(b)
    }
}

/// `String::from_utf8_lossy`: the text of `b`, with each invalid sequence
/// replaced by U+FFFD. The contract states the one fact the standard
/// documentation gives plainly (valid UTF-8 decodes unchanged) and names the
/// result on other input.
#[verifier::external_body]
pub(crate) fn from_utf8_lossy(b: &[u8]) -> (s: String)
    ensures
        valid_utf8(b@) ==> s@ == decode_utf8(b@),
        !valid_utf8(b@) ==> s@ == utf8_lossy(b@),
{
    String::from_utf8_lossy(b).into_owned()
}

/// Decimal rendering of a signed integer.
pub open spec fn signed_decimal(x: int) -> Seq<char> {
    if x < 0 {
        "-"@ + decimal((-x) as nat)
    } else {
        decimal(x as nat)
    }
}

fn i32_to_string(x: i32) -> (s: String)
    ensures
        s@ == signed_decimal(x as int),
{
    if x < 0 {
        let m: u64 = (-(x as i64)) as u64;
        let mut s = owned("-");
        let d = u64_to_string(m);
        append(&mut s, d.as_str());
        s
    } else {
        u64_to_string(x as u64)
    }
}

/// How a received packet decodes: its id, type and body, or the reason it
/// is malformed.
pub open spec fn decode_spec(b: Seq<u8>) -> Result<(i32, i32, Seq<char>), Seq<char>> {
    if b.len() < 14 {
        Err("packet too short"@)
    } else {
        let size = le32_at(b, 0);
        if !(10 <= size <= MAX_PACKET_SIZE) {
            Err("invalid size "@ + signed_decimal(size as int))
        } else if b.len() - 4 != size {
            Err("size does not match body"@)
        } else if !(b[b.len() - 2] == 0 && b[b.len() - 1] == 0) {
            Err("missing null terminators"@)
        } else {
            Ok((le32_at(b, 4), le32_at(b, 8), lossy_text(b.subrange(12, b.len() - 2))))
        }
    }
}

/// Decodes one framed packet (size field included).
pub fn decode_packet(bytes: &[u8]) -> (res: Result<RconPacket, RconError>)
    ensures
        match decode_spec(bytes@) {
            Ok((id, ty, body)) => res matches Ok(p) && p.id == id && p.packet_type == ty
                && p.body@ == body,
            Err(m) => res matches Err(RconError::Malformed(e)) && e@ == m,
        },
{
    let n = bytes.len();
    if n < 14 {
        return Err(RconError::Malformed(owned("packet too short")));
    }
    let size = read_le32(bytes, 0);
    if !(10 <= size && size <= MAX_PACKET_SIZE) {
        let mut m = owned("invalid size ");
        let d = i32_to_string(size);
        append(&mut m, d.as_str());
        return Err(RconError::Malformed(m));
    }
    if n - 4 != size as usize {
        return Err(RconError::Malformed(owned("size does not match body")));
    }
    let id = read_le32(bytes, 4);
    let packet_type = read_le32(bytes, 8);
    if !(bytes[n - 2] == 0 && bytes[n - 1] == 0) {
        return Err(RconError::Malformed(owned("missing null terminators")));
    }
    let mut body: Vec<u8> = Vec::new();
    let mut i: usize = 12;
    while i < n - 2
        invariant
            n == bytes@.len(),
            n >= 14,
            12 <= i <= n - 2,
            body@ == bytes@.subrange(12, i as int),
        decreases n - 2 - i,
    {
        body.push(bytes[i]);
        assert(bytes@.subrange(12, i + 1) =~= bytes@.subrange(12, i as int).push(bytes@[i as int]));
        i = i + 1;
    }
    let text = from_utf8_lossy(body.as_slice());
    Ok(RconPacket { id, packet_type, body: text })
}

/// Decoding what `encode_packet` wrote gives the packet back, for every body
/// that fits in a packet.
pub proof fn lemma_packet_round_trip(id: i32, packet_type: i32, body: Seq<char>)
    requires
        encode_utf8(body).len() + 10 <= MAX_PACKET_SIZE,
    ensures
        decode_spec(packet_bytes(id, packet_type, body)) == Ok::<(i32, i32, Seq<char>), Seq<char>>(
            (id, packet_type, body),
        ),
{
    let e = encode_utf8(body);
    let size = (e.len() + 10) as i32;
    let b = packet_bytes(id, packet_type, body);
    assert(b.len() == e.len() + 14);
    lemma_le32_round_trip(size);
    lemma_le32_round_trip(id);
    lemma_le32_round_trip(packet_type);
    assert(b.subrange(0, 4) =~= le32(size));
    assert(b[0] == le32(size)[0] && b[1] == le32(size)[1] && b[2] == le32(size)[2] && b[3]
        == le32(size)[3]);
    assert(b[4] == le32(id)[0] && b[5] == le32(id)[1] && b[6] == le32(id)[2] && b[7]
        == le32(id)[3]);
    assert(b[8] == le32(packet_type)[0] && b[9] == le32(packet_type)[1] && b[10] == le32(
        packet_type,
    )[2] && b[11] == le32(packet_type)[3]);
    assert(b.subrange(12, b.len() - 2) =~= e);
    encode_utf8_valid_utf8(body);
    encode_utf8_decode_utf8(body);
    assert(b[b.len() - 2] == 0 && b[b.len() - 1] == 0);
}

// ---------------------------------------------------------------------------
// Chat lines and travel commands
// ---------------------------------------------------------------------------

/// A travel command found in a chat line.
#[derive(Clone, Debug, PartialEq, Eq)]
pub struct DetectedCommand {
    pub command: String,
    pub argument: String,
    pub mode: String,
}

/// Characters stripped from both ends of a travel argument.
pub open spec fn is_quote(c: char) -> bool {
    c == '"' || c == '\'' || c == '.' || c == '!'
}

pub open spec fn strip_quotes_start(s: Seq<char>) -> Seq<char>
    decreases s.len(),
{
    if s.len() > 0 && is_quote(s[0]) {
        strip_quotes_start(s.drop_first())
    } else {
        s
    }
}

pub open spec fn strip_quotes_end(s: Seq<char>) -> Seq<char>
    decreases s.len(),
{
    if s.len() > 0 && is_quote(s.last()) {
        strip_quotes_end(s.drop_last())
    } else {
        s
    }
}

/// `s` without quotes, dots and exclamation marks at either end.
pub open spec fn strip_quotes(s: Seq<char>) -> Seq<char> {
    strip_quotes_end(strip_quotes_start(s))
}

proof fn lemma_strip_quotes_start_at(s: Seq<char>, a: int)
    requires
        0 <= a <= s.len(),
        forall|j: int| 0 <= j < a ==> is_quote(s[j]),
        a == s.len() || !is_quote(s[a]),
    ensures
        strip_quotes_start(s) == s.subrange(a, s.len() as int),
    decreases a,
{
    if a == 0 {
        assert(s.subrange(0, s.len() as int) =~= s);
    } else {
        let t = s.drop_first();
        assert forall|j: int| 0 <= j < a - 1 implies is_quote(t[j]) by {
            assert(t[j] == s[j + 1]);
        }
        lemma_strip_quotes_start_at(t, a - 1);
        assert(t.subrange(a - 1, t.len() as int) =~= s.subrange(a, s.len() as int));
    }
}

proof fn lemma_strip_quotes_end_at(s: Seq<char>, b: int)
    requires
        0 <= b <= s.len(),
        forall|j: int| b <= j < s.len() ==> is_quote(s[j]),
        b == 0 || !is_quote(s[b - 1]),
    ensures
        strip_quotes_end(s) == s.subrange(0, b),
    decreases s.len() - b,
{
    if b == s.len() {
        assert(s.subrange(0, b) =~= s);
    } else {
        let t = s.drop_last();
        lemma_strip_quotes_end_at(t, b);
        assert(t.subrange(0, b) =~= s.subrange(0, b));
    }
}

fn char_is_quote(c: char) -> (res: bool)
    ensures
        res == is_quote(c),
{
    c == '"' || c == '\'' || c == '.' || c == '!'
}

fn strip_quotes_vec(v: &Vec<char>) -> (res: Vec<char>)
    ensures
        res@ == strip_quotes(v@),
{
    let n = v.len();
    let mut a: usize = 0;
    while a < n && char_is_quote(v[a])
        invariant
            0 <= a <= n,
            n == v@.len(),
            forall|j: int| 0 <= j < a ==> is_quote(v@[j]),
        decreases n - a,
    {
        a = a + 1;
    }
    proof {
        lemma_strip_quotes_start_at(v@, a as int);
    }
    let ghost t = v@.subrange(a as int, n as int);
    let mut b = n;
    while b > a && char_is_quote(v[b - 1])
        invariant
            0 <= a <= b <= n,
            n == v@.len(),
            t == v@.subrange(a as int, n as int),
            forall|j: int| b <= j < n ==> is_quote(v@[j]),
        decreases b - a,
    {
        b = b - 1;
    }
    proof {
        lemma_strip_quotes_end_at(t, b - a);
        assert(t.subrange(0, b - a) =~= v@.subrange(a as int, b as int));
    }
    sub_vec(v, a, b)
}

/// The argument of the `!travel` command in a chat message, found without
/// regard to ASCII case: the text after `!travel`, which must begin with
/// whitespace, trimmed and stripped of quotes; `None` when there is no
/// command or no argument.
pub open spec fn travel_argument(m: Seq<char>) -> Option<Seq<char>> {
    match find(lower_seq(m), "!travel"@) {
        Some(idx) => {
            let after = m.skip(idx + 7);
            if after.len() > 0 && !is_ws(after[0]) {
                None
            } else {
                let arg = strip_quotes(trim(after));
                if arg.len() == 0 {
                    None
                } else {
                    Some(arg)
                }
            }
        },
        None => None,
    }
}

/// `d` is the command detected in a message whose travel argument is `arg`.
pub open spec fn is_travel_command(d: DetectedCommand, arg: Seq<char>) -> bool {
    d.command@ == "travel"@ && d.argument@ == arg && d.mode@ == "live_chat"@
}

fn travel_argument_of(v: &Vec<char>) -> (res: Option<Vec<char>>)
    ensures
        match res {
            Some(a) => travel_argument(v@) == Some(a@),
            None => travel_argument(v@) is None,
        },
{
    let lv = lower_vec(v);
    let pat = chars_of("!travel");
    proof {
        reveal_strlit("!travel");
    }
    match find_seq(&lv, &pat) {
        Some(idx) => {
            let n = v.len();
            let after = sub_vec(v, idx + 7, n);
            assert(after@ =~= v@.skip(idx + 7));
            if after.len() > 0 && !char_is_ws(after[0]) {
                return None;
            }
            let t = trim_vec(&after);
            let arg = strip_quotes_vec(&t);
            if arg.len() == 0 {
                None
            } else {
                Some(arg)
            }
        },
        None => None,
    }
}

/// Finds a `!travel <map>` command in a chat message.
pub fn parse_detected_command(message: &str) -> (res: Option<DetectedCommand>)
    ensures
        match travel_argument(message@) {
            Some(arg) => res matches Some(d) && is_travel_command(d, arg),
            None => res is None,
        },
{
    let v = chars_of(message);
    match travel_argument_of(&v) {
        Some(arg) => Some(
            DetectedCommand {
                command: owned("travel"),
                argument: string_from(&arg),
                mode: owned("live_chat"),
            },
        ),
        None => None,
    }
}

/// A chat line split into who wrote it, what it says, and its command.
#[derive(Clone, Debug)]
pub struct ParsedChatLine {
    pub player: String,
    pub message: String,
    pub detected_command: Option<DetectedCommand>,
}

/// `p` without leading `[...]` channel tags (such as `[Global]`), each
/// removal followed by trimming.
pub open spec fn strip_tags(p: Seq<char>) -> Seq<char>
    decreases p.len(),
{
    if p.len() > 0 && p[0] == '[' {
        match index_of(p, ']') {
            Some(e) => {
                proof {
                    lemma_index_of_from_bounds(p, ']', 0);
                    lemma_trim_len(p.skip(e + 1));
                }
                strip_tags(trim(p.skip(e + 1)))
            },
            None => p,
        }
    } else {
        p
    }
}

/// Who wrote a chat line that holds a travel command: the text before
/// `!travel`, up to its last `:`, trimmed and without channel tags.
pub open spec fn chat_player(raw: Seq<char>) -> Seq<char> {
    let idx = match find(lower_seq(raw), "!travel"@) {
        Some(i) => i,
        None => 0,
    };
    let before = trim(raw.take(idx));
    let actor = match last_index_of(before, ':') {
        Some(k) => trim(before.take(k)),
        None => trim(before),
    };
    strip_tags(actor)
}

/// `c` is the parse of chat line `raw`.
pub open spec fn is_parsed_chat_line(c: ParsedChatLine, raw: Seq<char>) -> bool {
    match travel_argument(raw) {
        Some(arg) => {
            &&& c.player@ == chat_player(raw)
            &&& c.message@ == "!travel "@ + arg
            &&& c.detected_command matches Some(d) && is_travel_command(d, arg)
        },
        None => {
            &&& c.player@ == Seq::<char>::empty()
            &&& c.message@ == trim(raw)
            &&& c.detected_command is None
        },
    }
}

fn strip_tags_vec(p: Vec<char>) -> (res: Vec<char>)
    ensures
        res@ == strip_tags(p@),
    decreases p@.len(),
{
    if p.len() > 0 && p[0] == '[' {
        match index_of_char(&p, ']') {
            Some(e) => {
                let n = p.len();
                let rest = sub_vec(&p, e + 1, n);
                assert(rest@ =~= p@.skip(e + 1));
                let t = trim_vec(&rest);
                proof {
                    lemma_trim_len(rest@);
                }
                strip_tags_vec(t)
            },
            None => p,
        }
    } else {
        p
    }
}

/// Splits a chat line into player, message and travel command.
pub fn parse_chat_line(raw: &str) -> (res: ParsedChatLine)
    ensures
        is_parsed_chat_line(res, raw@),
{
    let v = chars_of(raw);
    match travel_argument_of(&v) {
        None => {
            let t = trim_vec(&v);
            ParsedChatLine {
                player: String::new(),
                message: string_from(&t),
                detected_command: None,
            }
        },
        Some(arg) => {
            let lv = lower_vec(&v);
            let pat = chars_of("!travel");
            let idx = match find_seq(&lv, &pat) {
                Some(i) => i,
                None => 0,
            };
            let head = sub_vec(&v, 0, idx);
            assert(head@ =~= v@.take(idx as int));
            let before = trim_vec(&head);
            let actor = match last_index_of_char(&before, ':') {
                Some(k) => {
                    let a = sub_vec(&before, 0, k);
                    assert(a@ =~= before@.take(k as int));
                    trim_vec(&a)
                },
                None => trim_vec(&before),
            };
            let player = strip_tags_vec(actor);
            let mut message = owned("!travel ");
            append_vec(&mut message, &arg);
            let arg_text = string_from(&arg);
            ParsedChatLine {
                player: string_from(&player),
                message,
                detected_command: Some(
                    DetectedCommand {
                        command: owned("travel"),
                        argument: arg_text,
                        mode: owned("live_chat"),
                    },
                ),
            }
        },
    }
}

/// The player named on one line of `ListPlayers` output, if any: blank
/// lines and "no players" notices name none; a leading `N. ` index and
/// everything from the first `,` are dropped.
pub open spec fn player_on_line(line: Seq<char>) -> Option<Seq<char>> {
    let t = trim(line);
    if t.len() == 0 || eq_ignore_case(t, "no players connected"@) || contains(
        lower_seq(t),
        "no players"@,
    ) {
        None
    } else {
        let without_index = match split_once_seq(t, ". "@) {
            Some((_, name)) => name,
            None => t,
        };
        let first = match index_of(without_index, ',') {
            Some(k) => without_index.take(k),
            None => without_index,
        };
        let name = trim(first);
        if name.len() == 0 {
            None
        } else {
            Some(name)
        }
    }
}

/// A `ListPlayers` line `N. <name>,<rest>` names exactly `<name>`: the
/// index and everything from the first comma are dropped, and the name is
/// kept whole, spaces inside it included.
pub proof fn lemma_indexed_line_names_player(idx: Seq<char>, name: Seq<char>, rest: Seq<char>)
    requires
        idx.len() > 0,
        forall|i: int| 0 <= i < idx.len() ==> is_digit(#[trigger] idx[i]),
        name.len() > 0,
        !is_ws(name[0]),
        !is_ws(name.last()),
        forall|i: int| 0 <= i < name.len() ==> #[trigger] name[i] != ',',
        rest.len() == 0 || !is_ws(rest.last()),
        !contains(lower_seq(idx + ". "@ + name + ","@ + rest), "no players"@),
    ensures
        player_on_line(idx + ". "@ + name + ","@ + rest) == Some(name),
{
    reveal_strlit(". ");
    reveal_strlit(",");
    reveal_strlit("no players connected");
    let dot = ". "@;
    let line = idx + dot + name + ","@ + rest;
    let n = idx.len() as int;
    assert(line[0] == idx[0]);
    if rest.len() > 0 {
        assert(line.last() == rest.last());
    } else {
        assert(line.last() == ',');
    }
    crate::text::lemma_trim_unchanged(line);
    assert(trim(line) == line);
    assert(!eq_ignore_case(line, "no players connected"@)) by {
        if eq_ignore_case(line, "no players connected"@) {
            assert(lower_seq(line)[0] == lower_seq("no players connected"@)[0]);
        }
    }
    assert(line.subrange(n, n + 2) =~= dot);
    assert forall|j: int| 0 <= j < n implies #[trigger] line.subrange(j, j + dot.len()) != dot by {
        assert(line.subrange(j, j + dot.len())[0] == idx[j]);
    }
    crate::text::lemma_find_from_at(line, dot, 0, n);
    let w = line.skip(n + 2);
    assert(w =~= name + ","@ + rest);
    let m = name.len() as int;
    assert(w[m] == ',');
    assert forall|j: int| 0 <= j < m implies w[j] != ',' by {
        assert(w[j] == name[j]);
    }
    crate::text::lemma_index_of_from_at(w, ',', 0, m);
    assert(w.take(m) =~= name);
    crate::text::lemma_trim_unchanged(name);
}

/// The players named on `ls`, in order.
pub open spec fn players_on_lines(ls: Seq<Seq<char>>) -> Seq<Seq<char>>
    decreases ls.len(),
{
    if ls.len() == 0 {
        Seq::empty()
    } else {
        match player_on_line(ls.last()) {
            Some(n) => players_on_lines(ls.drop_last()).push(n),
            None => players_on_lines(ls.drop_last()),
        }
    }
}

fn player_on_line_of(line: &Vec<char>) -> (res: Option<Vec<char>>)
    ensures
        match res {
            Some(n) => player_on_line(line@) == Some(n@),
            None => player_on_line(line@) is None,
        },
{
    let t = trim_vec(line);
    let nop = chars_of("no players connected");
    let lt = lower_vec(&t);
    if t.len() == 0 || range_eq_ignore_case(&t, 0, t.len(), &nop) || vec_contains_str(
        &lt,
        "no players",
    ) {
        assert(t@.subrange(0, t@.len() as int) =~= t@);
        return None;
    }
    assert(t@.subrange(0, t@.len() as int) =~= t@);
    let without_index = match split_once_str(&t, ". ") {
        Some((_, name)) => name,
        None => t,
    };
    let first = match index_of_char(&without_index, ',') {
        Some(k) => {
            let f = sub_vec(&without_index, 0, k);
            assert(f@ =~= without_index@.take(k as int));
            f
        },
        None => without_index,
    };
    let name = trim_vec(&first);
    if name.len() == 0 {
        None
    } else {
        Some(name)
    }
}

/// The player names in `ListPlayers` output.
pub fn parse_players(input: &str) -> (res: Vec<String>)
    ensures
        crate::text::str_views(res@) == players_on_lines(lines(input@)),
{
    let v = chars_of(input);
    let ls = lines_of(&v);
    let mut res: Vec<String> = Vec::new();
    let mut k: usize = 0;
    while k < ls.len()
        invariant
            0 <= k <= ls@.len(),
            views(ls@) == lines(input@),
            crate::text::str_views(res@) == players_on_lines(views(ls@).take(k as int)),
        decreases ls@.len() - k,
    {
        let ghost pre = views(ls@).take(k + 1);
        assert(pre.drop_last() =~= views(ls@).take(k as int));
        assert(pre.last() == ls@[k as int]@);
        match player_on_line_of(&ls[k]) {
            Some(n) => {
                let ghost old_res = res@;
                let name = string_from(&n);
                res.push(name);
                assert(crate::text::str_views(res@) =~= crate::text::str_views(old_res).push(n@));
            },
            None => {},
        }
        k = k + 1;
    }
    assert(views(ls@).take(ls@.len() as int) =~= views(ls@));
    res
}

// ---------------------------------------------------------------------------
// Text sent to players and written to the audit log
// ---------------------------------------------------------------------------

/// `s` with each line break replaced by a space.
pub open spec fn breaks_to_spaces(s: Seq<char>) -> Seq<char> {
    Seq::new(s.len(), |i: int| if s[i] == '\n' || s[i] == '\r' { ' ' } else { s[i] })
}

/// The first `n` characters of `s` (all of it when shorter).
pub open spec fn take_at_most(s: Seq<char>, n: int) -> Seq<char> {
    if s.len() <= n {
        s
    } else {
        s.take(n)
    }
}

/// A chat message as it may be sent to ARK: one line, runs of whitespace
/// collapsed to single spaces, at most 220 characters.
pub open spec fn sanitized_chat(m: Seq<char>) -> Seq<char> {
    take_at_most(join(words(breaks_to_spaces(m)), " "@), 220)
}

/// No line break anywhere in `s`.
pub open spec fn one_line(s: Seq<char>) -> bool {
    forall|i: int| 0 <= i < s.len() ==> #[trigger] s[i] != '\n' && s[i] != '\r'
}

proof fn lemma_words_state_one_line(s: Seq<char>)
    ensures
        forall|k: int| 0 <= k < words_state_of(s).0.len() ==> one_line(#[trigger] words_state_of(s).0[k]),
        one_line(words_state_of(s).1),
    decreases s.len(),
{
    if s.len() > 0 {
        lemma_words_state_one_line(s.drop_last());
        let st = words_state_of(s.drop_last());
        let c = s.last();
        if !is_ws(c) {
            assert(c != '\n' && c != '\r');
            let p = st.1.push(c);
            assert forall|i: int| 0 <= i < p.len() implies #[trigger] p[i] != '\n' && p[i] != '\r' by {
                if i < st.1.len() {
                    assert(p[i] == st.1[i]);
                }
            }
        } else if st.1.len() > 0 {
            let q = st.0.push(st.1);
            assert forall|k: int| 0 <= k < q.len() implies one_line(#[trigger] q[k]) by {
                if k < st.0.len() {
                    assert(q[k] == st.0[k]);
                }
            }
            assert(one_line(Seq::<char>::empty()));
        }
    }
}

pub open spec fn words_state_of(s: Seq<char>) -> (Seq<Seq<char>>, Seq<char>) {
    crate::text::words_state(s)
}

proof fn lemma_words_one_line(s: Seq<char>)
    ensures
        forall|k: int| 0 <= k < words(s).len() ==> one_line(#[trigger] words(s)[k]),
{
    lemma_words_state_one_line(s);
    let st = words_state_of(s);
    if st.1.len() > 0 {
        let q = st.0.push(st.1);
        assert forall|k: int| 0 <= k < q.len() implies one_line(#[trigger] q[k]) by {
            if k < st.0.len() {
                assert(q[k] == st.0[k]);
            }
        }
    }
}

proof fn lemma_join_one_line(ws: Seq<Seq<char>>, sep: Seq<char>)
    requires
        forall|k: int| 0 <= k < ws.len() ==> one_line(#[trigger] ws[k]),
        one_line(sep),
    ensures
        one_line(join(ws, sep)),
    decreases ws.len(),
{
    if ws.len() > 1 {
        let init = ws.drop_last();
        assert forall|k: int| 0 <= k < init.len() implies one_line(#[trigger] init[k]) by {
            assert(init[k] == ws[k]);
        }
        lemma_join_one_line(init, sep);
        let a = join(init, sep);
        let r = a + sep + ws.last();
        assert(one_line(ws[ws.len() - 1]));
        assert forall|i: int| 0 <= i < r.len() implies #[trigger] r[i] != '\n' && r[i] != '\r' by {
            if i < a.len() {
                assert(r[i] == a[i]);
            } else if i < a.len() + sep.len() {
                assert(r[i] == sep[i - a.len()]);
            } else {
                assert(r[i] == ws.last()[i - a.len() - sep.len()]);
            }
        }
    } else if ws.len() == 1 {
        assert(one_line(ws[0]));
    }
}

/// A sanitized chat message is a single line of at most 220 characters.
pub proof fn lemma_sanitized_chat_one_line(m: Seq<char>)
    ensures
        one_line(sanitized_chat(m)),
        sanitized_chat(m).len() <= 220,
{
    let ws = words(breaks_to_spaces(m));
    lemma_words_one_line(breaks_to_spaces(m));
    reveal_strlit(" ");
    lemma_join_one_line(ws, " "@);
    let j = join(ws, " "@);
    if j.len() > 220 {
        assert forall|i: int| 0 <= i < j.take(220).len() implies #[trigger] j.take(220)[i] != '\n'
            && j.take(220)[i] != '\r' by {
            assert(j.take(220)[i] == j[i]);
        }
    }
}

/// Makes a message safe to send with `ServerChat`.
pub fn sanitize_chat_message(message: &str) -> (res: String)
    ensures
        res@ == sanitized_chat(message@),
        one_line(res@),
        res@.len() <= 220,
{
    let v = chars_of(message);
    let mut m: Vec<char> = Vec::new();
    let mut i: usize = 0;
    while i < v.len()
        invariant
            0 <= i <= v@.len(),
            m@ == breaks_to_spaces(v@).take(i as int),
        decreases v@.len() - i,
    {
        let c = v[i];
        m.push(if c == '\n' || c == '\r' { ' ' } else { c });
        assert(m@ =~= breaks_to_spaces(v@).take(i + 1));
        i = i + 1;
    }
    assert(m@ =~= breaks_to_spaces(v@));
    let ws = words_of(&m);
    let joined = join_vecs(&ws, " ");
    let t = take_vec(&joined, 220);
    proof {
        lemma_sanitized_chat_one_line(message@);
    }
    string_from(&t)
}

/// Whether `p` contains an ASCII digit.
pub open spec fn has_digit(p: Seq<char>) -> bool {
    exists|i: int| 0 <= i < p.len() && is_digit(#[trigger] p[i])
}

/// A word of an error text, or `[redacted]` when it is longer than 48 bytes
/// and contains a digit (a token, an address, an id).
pub open spec fn redact_word(p: Seq<char>) -> Seq<char> {
    if encode_utf8(p).len() > 48 && has_digit(p) {
        "[redacted]"@
    } else {
        p
    }
}

/// An error text with its long numeric words redacted and its whitespace
/// collapsed to single spaces.
pub open spec fn sanitized_error(s: Seq<char>) -> Seq<char> {
    join(Seq::new(words(s).len(), |i: int| redact_word(words(s)[i])), " "@)
}

fn vec_has_digit(v: &Vec<char>) -> (res: bool)
    ensures
        res == has_digit(v@),
{
    let mut i: usize = 0;
    while i < v.len()
        invariant
            0 <= i <= v@.len(),
            forall|j: int| 0 <= j < i ==> !is_digit(#[trigger] v@[j]),
        decreases v@.len() - i,
    {
        if char_is_digit(v[i]) {
            assert(is_digit(v@[i as int]));
            return true;
        }
        i = i + 1;
    }
    false
}

fn sanitize_error_vec(input: &str) -> (res: Vec<char>)
    ensures
        res@ == sanitized_error(input@),
{
    let v = chars_of(input);
    let ws = words_of(&v);
    let mut parts: Vec<Vec<char>> = Vec::new();
    let mut k: usize = 0;
    while k < ws.len()
        invariant
            0 <= k <= ws@.len(),
            views(ws@) == words(input@),
            views(parts@) == Seq::new(k as nat, |i: int| redact_word(words(input@)[i])),
        decreases ws@.len() - k,
    {
        let w = &ws[k];
        let text = string_from(w);
        let nbytes = text.as_str().as_bytes().len();
        assert(nbytes == encode_utf8(w@).len());
        let part = if nbytes > 48 && vec_has_digit(w) {
            chars_of("[redacted]")
        } else {
            w.clone()
        };
        assert(w@ == words(input@)[k as int]);
        assert(part@ == redact_word(w@));
        let ghost old_parts = parts@;
        let ghost pv = part@;
        parts.push(part);
        assert(views(parts@) =~= views(old_parts).push(pv));
        assert(views(parts@) =~= Seq::new((k + 1) as nat, |i: int| redact_word(words(input@)[i])));
        k = k + 1;
    }
    join_vecs(&parts, " ")
}

/// Redacts long numeric words from an error text before it is logged.
pub fn sanitize_error(input: &str) -> (res: String)
    ensures
        res@ == sanitized_error(input@),
{
    let v = sanitize_error_vec(input);
    string_from(&v)
}

/// An error text as a single audit token: sanitized, words joined with `_`,
/// at most 160 characters; `unknown` when nothing is left.
pub open spec fn token_text(s: Seq<char>) -> Seq<char> {
    let t = join(words(sanitized_error(s)), "_"@);
    if trim(t).len() == 0 {
        "unknown"@
    } else {
        take_at_most(t, 160)
    }
}

/// An error as one token for a history detail: sanitized, spaces as underscores, at most 160 characters, `unknown` when blank.
pub fn token_value(value: &str) -> (res: String)
    ensures
        res@ == token_text(value@),
{
    let s = sanitize_error_vec(value);
    let ws = words_of(&s);
    let t = join_vecs(&ws, "_");
    let tt = trim_vec(&t);
    if tt.len() == 0 {
        owned("unknown")
    } else {
        let r = take_vec(&t, 160);
        string_from(&r)
    }
}

/// The label of a feedback attempt for the audit log.
pub open spec fn feedback_label(r: Result<(), String>) -> Seq<char> {
    match r {
        Ok(()) => "sent"@,
        Err(e) => "feedback_unavailable:"@ + e@,
    }
}

/// How a feedback attempt ended, for the audit log.
pub fn feedback_result_label(result: &Result<(), String>) -> (res: String)
    ensures
        res@ == feedback_label(*result),
{
    match result {
        Ok(()) => owned("sent"),
        Err(e) => {
            let mut s = owned("feedback_unavailable:");
            append(&mut s, e.as_str());
            s
        },
    }
}

/// The travel-history detail recorded after both feedback messages.
pub open spec fn feedback_detail(received: Result<(), String>, decision: Result<(), String>) -> Seq<
    char,
> {
    let sent = received is Ok && decision is Ok;
    let error = match received {
        Err(e) => token_text(e@),
        Ok(()) => match decision {
            Err(e) => token_text(e@),
            Ok(()) => "none"@,
        },
    };
    "feedbackAttempted=true feedbackSent="@ + (if sent {
        "true"@
    } else {
        "false"@
    }) + " feedbackResult="@ + (if sent {
        "sent"@
    } else {
        "failed"@
    }) + " feedbackError="@ + error
}

/// The history detail recording whether travel feedback was sent.
pub fn feedback_history_detail(received: &Result<(), String>, decision: &Result<(), String>) -> (res:
    String)
    ensures
        res@ == feedback_detail(*received, *decision),
{
    let sent = received.is_ok() && decision.is_ok();
    let error = match received {
        Err(e) => token_value(e.as_str()),
        Ok(()) => match decision {
            Err(e) => token_value(e.as_str()),
            Ok(()) => owned("none"),
        },
    };
    let mut s = owned("feedbackAttempted=true feedbackSent=");
    append(
        &mut s,
        if sent {
            "true"
        } else {
            "false"
        },
    );
    append(&mut s, " feedbackResult=");
    append(
        &mut s,
        if sent {
            "sent"
        } else {
            "failed"
        },
    );
    append(&mut s, " feedbackError=");
    append(&mut s, error.as_str());
    s
}

/// Lines of the game log that carry nothing: blank lines and the server's
/// empty-answer notice.
pub open spec fn ignorable_game_log_line(line: Seq<char>) -> bool {
    trim(line).len() == 0 || eq_ignore_case(trim(line), "Server received, But no response!!"@)
}

/// Whether a game-log line carries nothing: blank, or the server's empty-reply notice.
pub fn is_ignorable_game_log_line(line: &str) -> (res: bool)
    ensures
        res == ignorable_game_log_line(line@),
{
    let v = chars_of(line);
    let t = trim_vec(&v);
    let pat = chars_of("Server received, But no response!!");
    let r = t.len() == 0 || range_eq_ignore_case(&t, 0, t.len(), &pat);
    assert(t@.subrange(0, t@.len() as int) =~= t@);
    r
}

// ---------------------------------------------------------------------------
// Player-count policies
// ---------------------------------------------------------------------------

/// What the idle-shutdown policy does with a travel slot after a poll.
#[derive(Clone, Copy, Debug, PartialEq, Eq, Structural)]
pub enum IdlePolicyDecision {
    Noop,
    SetIdleSince(u64),
    ClearIdle,
    ShutdownDue,
}

/// The idle-shutdown decision: only a running travel slot with a confirmed
/// count of zero players starts or keeps an idle timer, and it is due for
/// shutdown once the timer has run for `threshold_secs`.
pub open spec fn idle_decision(
    is_home: bool,
    active: bool,
    player_count: Option<u32>,
    idle_zero_since: Option<u64>,
    now: u64,
    threshold_secs: u64,
) -> IdlePolicyDecision {
    if is_home || !active {
        IdlePolicyDecision::ClearIdle
    } else {
        match player_count {
            Some(n) => if n == 0 {
                match idle_zero_since {
                    Some(since) => if (if now >= since { now - since } else { 0 }) >= threshold_secs {
                        IdlePolicyDecision::ShutdownDue
                    } else {
                        IdlePolicyDecision::Noop
                    },
                    None => IdlePolicyDecision::SetIdleSince(now),
                }
            } else {
                IdlePolicyDecision::ClearIdle
            },
            None => IdlePolicyDecision::ClearIdle,
        }
    }
}

/// The idle-shutdown step for one slot.
pub fn idle_policy_update(
    is_home: bool,
    active: bool,
    player_count: Option<u32>,
    idle_zero_since: Option<u64>,
    now: u64,
    threshold_secs: u64,
) -> (res: IdlePolicyDecision)
    ensures
        res == idle_decision(is_home, active, player_count, idle_zero_since, now, threshold_secs),
        res == IdlePolicyDecision::ShutdownDue ==> !is_home && active && player_count == Some(0u32),
{
    if is_home || !active {
        return IdlePolicyDecision::ClearIdle;
    }
    match player_count {
        Some(0) => match idle_zero_since {
            Some(since) => {
                if now.saturating_sub(since) >= threshold_secs {
                    IdlePolicyDecision::ShutdownDue
                } else {
                    IdlePolicyDecision::Noop
                }
            },
            None => IdlePolicyDecision::SetIdleSince(now),
        },
        Some(_) => IdlePolicyDecision::ClearIdle,
        None => IdlePolicyDecision::ClearIdle,
    }
}

/// Home may enter Resource Standby only when it has a confirmed count of
/// zero players, a travel map has players, and RAM is under pressure.
pub open spec fn standby_allowed(home: Option<u32>, travel_has_players: bool, under_pressure: bool) -> bool {
    home == Some(0u32) && travel_has_players && under_pressure
}

/// Whether Home may enter Resource Standby: confirmed empty, players on a travel map, RAM under pressure.
pub fn home_standby_allowed(
    home_player_count: Option<u32>,
    travel_has_players: bool,
    under_pressure: bool,
) -> (res: bool)
    ensures
        res == standby_allowed(home_player_count, travel_has_players, under_pressure),
{
    match home_player_count {
        Some(0) => travel_has_players && under_pressure,
        _ => false,
    }
}

/// The idle-shutdown policy never shuts down the Home slot, a stopped slot,
/// or a slot whose player count is unknown or above zero.
pub proof fn lemma_idle_shutdown_needs_confirmed_empty_travel_slot(
    is_home: bool,
    active: bool,
    player_count: Option<u32>,
    idle_zero_since: Option<u64>,
    now: u64,
    threshold_secs: u64,
)
    requires
        idle_decision(is_home, active, player_count, idle_zero_since, now, threshold_secs)
            == IdlePolicyDecision::ShutdownDue,
    ensures
        !is_home,
        active,
        player_count == Some(0u32),
        idle_zero_since is Some,
{
}

/// Resource Standby is never allowed while Home's player count is unknown
/// or above zero.
pub proof fn lemma_standby_needs_confirmed_empty_home(
    home: Option<u32>,
    travel_has_players: bool,
    under_pressure: bool,
)
    requires
        home != Some(0u32),
    ensures
        !standby_allowed(home, travel_has_players, under_pressure),
{
}

// ---------------------------------------------------------------------------
// Chat history
// ---------------------------------------------------------------------------

pub const MAX_CHAT_LINES: usize = 100;
pub const MAX_SEEN_LINES: usize = 1000;

/// One chat line kept for the dashboard.
#[derive(Clone, Debug)]
pub struct ChatMessage {
    pub id: String,
    pub ts: String,
    pub slot_id: String,
    pub player: String,
    pub message: String,
    pub source: String,
    pub detected_command: Option<DetectedCommand>,
}

fn copy_command(d: &DetectedCommand) -> (res: DetectedCommand)
    ensures
        res == *d,
{
    DetectedCommand { command: d.command.clone(), argument: d.argument.clone(), mode: d.mode.clone() }
}

fn copy_message(m: &ChatMessage) -> (res: ChatMessage)
    ensures
        res == *m,
{
    ChatMessage {
        id: m.id.clone(),
        ts: m.ts.clone(),
        slot_id: m.slot_id.clone(),
        player: m.player.clone(),
        message: m.message.clone(),
        source: m.source.clone(),
        detected_command: match &m.detected_command {
            Some(d) => Some(copy_command(d)),
            None => None,
        },
    }
}

/// The last `n` elements of `s` (all of them when there are fewer).
pub open spec fn keep_last<A>(s: Seq<A>, n: int) -> Seq<A> {
    if s.len() > n {
        s.skip(s.len() - n)
    } else {
        s
    }
}

fn push_bounded<A>(v: &mut Vec<A>, x: A, n: usize)
    requires
        n > 0,
    ensures
        final(v)@ == keep_last(old(v)@.push(x), n as int),
{
    v.push(x);
    let ghost full = v@;
    if v.len() > n {
        let k = v.len() - n;
        let mut rest: Vec<A> = v.split_off(k);
        assert(rest@ =~= full.skip(k as int));
        core::mem::swap(v, &mut rest);
    }
}

/// Connection state of an RCON endpoint.
#[derive(Clone, Copy, Debug, PartialEq, Eq, Structural)]
pub enum RconConnState {
    Connected,
    Connecting,
    Disconnected,
    Disabled,
    Unavailable,
}

pub open spec fn conn_label(s: RconConnState) -> Seq<char> {
    match s {
        RconConnState::Connected => "Connected"@,
        RconConnState::Connecting => "Connecting"@,
        RconConnState::Disconnected => "Disconnected"@,
        RconConnState::Disabled => "Disabled"@,
        RconConnState::Unavailable => "Unavailable"@,
    }
}

impl RconConnState {
    /// The state as shown on the dashboard.
    pub fn as_str(&self) -> (res: &'static str)
        ensures
            res@ == conn_label(*self),
    {
        match self {
            RconConnState::Connected => "Connected",
            RconConnState::Connecting => "Connecting",
            RconConnState::Disconnected => "Disconnected",
            RconConnState::Disabled => "Disabled",
            RconConnState::Unavailable => "Unavailable",
        }
    }
}

/// What was last learned over RCON about one slot.
#[derive(Clone, Debug)]
pub struct SlotRuntime {
    pub slot_id: String,
    pub slot_key: String,
    pub map_id: String,
    pub host: String,
    pub port: u16,
    pub configured: bool,
    pub active: bool,
    pub state: RconConnState,
    pub player_count: Option<u32>,
    pub players: Vec<String>,
    pub last_player_poll: Option<String>,
    pub last_chat_poll: Option<String>,
    pub last_error: Option<String>,
    pub chat_source: String,
    pub idle_zero_since: Option<u64>,
}

/// The live RCON picture: per-slot state, recent chat and travel commands.
pub struct RconRuntimeState {
    pub slots: Vec<SlotRuntime>,
    pub messages: Vec<ChatMessage>,
    pub detected_commands: Vec<ChatMessage>,
    /// Keys of the chat lines already seen, oldest first.
    pub seen: Vec<String>,
    pub log_offsets: Vec<(String, u64)>,
    /// When Home last had a confirmed count of zero players.
    pub home_idle_since: Option<u64>,
}

/// The key under which a chat line counts as seen.
pub open spec fn seen_key(slot_id: Seq<char>, source: Seq<char>, line: Seq<char>) -> Seq<char> {
    slot_id + ":"@ + source + ":"@ + line
}

/// `m` is the chat message recorded for a parsed line.
pub open spec fn is_chat_message(
    m: ChatMessage,
    now: u64,
    index: nat,
    slot_id: Seq<char>,
    source: Seq<char>,
    line: Seq<char>,
) -> bool {
    let p = ParsedChatLine { player: m.player, message: m.message, detected_command: m.detected_command };
    &&& m.id@ == "chat-"@ + crate::text::decimal(now as nat) + "-"@ + crate::text::decimal(index)
    &&& m.ts@ == crate::text::decimal(now as nat)
    &&& m.slot_id@ == slot_id
    &&& m.source@ == source
    &&& is_parsed_chat_line(p, line)
}

impl RconRuntimeState {
    /// The keys of the chat lines already seen, oldest first.
    pub open spec fn seen_keys(&self) -> Seq<Seq<char>> {
        crate::text::str_views(self.seen@)
    }

    /// An empty state.
    pub fn new() -> (res: Self)
        ensures
            res.slots@.len() == 0,
            res.messages@.len() == 0,
            res.detected_commands@.len() == 0,
            res.seen_keys().len() == 0,
            res.log_offsets@.len() == 0,
            res.home_idle_since is None,
    {
        let r = RconRuntimeState {
            slots: Vec::new(),
            messages: Vec::new(),
            detected_commands: Vec::new(),
            seen: Vec::new(),
            log_offsets: Vec::new(),
            home_idle_since: None,
        };
        assert(r.seen_keys() =~= Seq::<Seq<char>>::empty());
        r
    }

    /// Records a chat line. Blank lines and lines already seen for the same
    /// slot and source are ignored; the seen list keeps the last 1000 keys.
    /// A line with a message or a travel command is kept (the last 100);
    /// the message is returned when it holds a travel command, which is
    /// also kept (the last 100).
    pub fn push_chat_line(&mut self, slot_id: &str, source: &str, raw: &str, now: u64) -> (res: Option<ChatMessage>)
        ensures
            ({
                let line = trim(raw@);
                let key = seen_key(slot_id@, source@, line);
                if line.len() == 0 || old(self).seen_keys().contains(key) {
                    &&& res is None
                    &&& final(self).seen_keys() == old(self).seen_keys()
                    &&& final(self).messages@ == old(self).messages@
                    &&& final(self).detected_commands@ == old(self).detected_commands@
                } else {
                    let arg = travel_argument(line);
                    &&& final(self).seen_keys() == keep_last(old(self).seen_keys().push(key), 1000)
                    &&& if arg is None && trim(line).len() == 0 {
                        &&& res is None
                        &&& final(self).messages@ == old(self).messages@
                        &&& final(self).detected_commands@ == old(self).detected_commands@
                    } else {
                        exists|m: ChatMessage| {
                            &&& is_chat_message(m, now, old(self).messages@.len(), slot_id@, source@, line)
                            &&& final(self).messages@ == keep_last(old(self).messages@.push(m), 100)
                            &&& if arg is Some {
                                &&& final(self).detected_commands@ == keep_last(old(self).detected_commands@.push(m), 100)
                                &&& res == Some(m)
                            } else {
                                &&& final(self).detected_commands@ == old(self).detected_commands@
                                &&& res is None
                            }
                        }
                    }
                }
            }),
            final(self).slots == old(self).slots,
            final(self).log_offsets == old(self).log_offsets,
            final(self).home_idle_since == old(self).home_idle_since,
    {
        let v = chars_of(raw);
        let nv = trim_vec(&v);
        let normalized = string_from(&nv);
        if nv.len() == 0 {
            return None;
        }
        let mut key = crate::text::cat3(slot_id, ":", source);
        append(&mut key, ":");
        append(&mut key, normalized.as_str());
        let kv = chars_of(key.as_str());
        let mut i: usize = 0;
        while i < self.seen.len()
            invariant
                0 <= i <= self.seen@.len(),
                kv@ == key@,
                *self == *old(self),
                key@ == seen_key(slot_id@, source@, trim(raw@)),
                trim(raw@).len() > 0,
                forall|j: int| 0 <= j < i ==> crate::text::str_views(self.seen@)[j] != key@,
            decreases self.seen@.len() - i,
        {
            if vec_eq_str(&kv, self.seen[i].as_str()) {
                assert(crate::text::str_views(self.seen@)[i as int] == key@);
                return None;
            }
            i = i + 1;
        }
        let ghost old_seen = self.seen@;
        push_bounded(&mut self.seen, key, MAX_SEEN_LINES);
        proof {
            assert(crate::text::str_views(old_seen.push(key)) =~= crate::text::str_views(old_seen).push(key@));
            let a = old_seen.push(key);
            if a.len() > 1000 {
                assert(crate::text::str_views(a.skip(a.len() - 1000)) =~= crate::text::str_views(a).skip(a.len() - 1000));
            }
        }
        let parsed = parse_chat_line(normalized.as_str());
        let ghost parsed_copy = parsed;
        proof {
            lemma_trim_idempotent(raw@);
        }
        if parsed.message.as_str().unicode_len() == 0 && parsed.detected_command.is_none() {
            return None;
        }
        let n = self.messages.len();
        let nows = u64_to_string(now);
        let ns = u64_to_string(n as u64);
        let mut id = crate::text::cat3("chat-", nows.as_str(), "-");
        append(&mut id, ns.as_str());
        let has_command = parsed.detected_command.is_some();
        let message = ChatMessage {
            id,
            ts: nows,
            slot_id: owned(slot_id),
            player: parsed.player,
            message: parsed.message,
            source: owned(source),
            detected_command: parsed.detected_command,
        };
        proof {
            reveal_strlit("");
            let pm = ParsedChatLine {
                player: message.player,
                message: message.message,
                detected_command: message.detected_command,
            };
            assert(pm == parsed_copy);
            assert(is_chat_message(message, now, n as nat, slot_id@, source@, trim(raw@)));
        }
        let kept = copy_message(&message);
        push_bounded(&mut self.messages, kept, MAX_CHAT_LINES);
        if has_command {
            let kept2 = copy_message(&message);
            push_bounded(&mut self.detected_commands, kept2, MAX_CHAT_LINES);
            return Some(message);
        }
        None
    }
}

/// Once `push_chat_line` has recorded a line, the line's key is among the
/// seen keys, so pushing the same line again for the same slot and source
/// is ignored; the seen list, the messages and the commands never grow past
/// their bounds.
pub proof fn lemma_recorded_line_is_seen(seen: Seq<Seq<char>>, slot_id: Seq<char>, source: Seq<char>, raw: Seq<char>)
    ensures
        keep_last(seen.push(seen_key(slot_id, source, trim(raw))), 1000).contains(seen_key(slot_id, source, trim(raw))),
{
    let key = seen_key(slot_id, source, trim(raw));
    let a = seen.push(key);
    let k = keep_last(a, 1000);
    assert(k[k.len() - 1] == key);
}

/// Keeping the last `n` elements never leaves more than `n`.
pub proof fn lemma_keep_last_bounded<A>(s: Seq<A>, x: A, n: int)
    requires
        n >= 0,
    ensures
        keep_last(s.push(x), n).len() <= n,
{
}

// ---------------------------------------------------------------------------
// Per-slot RCON state
// ---------------------------------------------------------------------------

/// What one poll of a slot found.
#[derive(Clone, Debug)]
pub enum PollResult {
    Disabled(String),
    Stopped,
    Unavailable(String),
    Players { players: Vec<String>, chat_source: String },
}

pub open spec fn has_slot_id(id: Seq<char>) -> spec_fn(SlotRuntime) -> bool {
    |s: SlotRuntime| s.slot_id@ == id
}

/// The index of the entry for slot `id`.
pub open spec fn slot_index(v: Seq<SlotRuntime>, id: Seq<char>) -> Option<int> {
    first_where(v, has_slot_id(id))
}

/// `e` is the entry for `slot` after a poll with `result`, starting from
/// the previous entry `prev` (if any).
pub open spec fn is_polled_entry(
    e: SlotRuntime,
    prev: Option<SlotRuntime>,
    slot: ServerSlot,
    key: Seq<char>,
    map_id: Seq<char>,
    active: bool,
    endpoint: Option<(Seq<char>, u16)>,
    result: PollResult,
    now: u64,
) -> bool {
    let base_player_poll = match prev { Some(p) => opt_str(p.last_player_poll), None => None };
    let base_chat_poll = match prev { Some(p) => opt_str(p.last_chat_poll), None => None };
    let base_idle = match prev { Some(p) => p.idle_zero_since, None => None };
    &&& e.slot_id@ == slot.id@
    &&& e.slot_key@ == key
    &&& e.map_id@ == map_id
    &&& match endpoint {
        Some((h, p)) => e.host@ == h && e.port == p,
        None => e.host@ == "127.0.0.1"@ && e.port == slot.rcon_port,
    }
    &&& e.configured == endpoint is Some
    &&& e.active == active
    &&& opt_str(e.last_chat_poll) == base_chat_poll
    &&& match result {
        PollResult::Disabled(reason) => {
            &&& e.state == RconConnState::Disabled && e.player_count is None && e.players@.len() == 0
            &&& opt_str(e.last_error) == Some(reason@) && e.chat_source@ == "disabled"@
            &&& opt_str(e.last_player_poll) == base_player_poll && e.idle_zero_since == base_idle
        },
        PollResult::Stopped => {
            &&& e.state == RconConnState::Disconnected && e.player_count is None && e.players@.len() == 0
            &&& e.last_error is None && e.chat_source@ == "stopped"@
            &&& opt_str(e.last_player_poll) == base_player_poll && e.idle_zero_since is None
        },
        PollResult::Unavailable(reason) => {
            &&& e.state == RconConnState::Unavailable && e.player_count is None && e.players@.len() == 0
            &&& opt_str(e.last_error) == Some(reason@) && e.chat_source@ == "unavailable"@
            &&& opt_str(e.last_player_poll) == base_player_poll && e.idle_zero_since == base_idle
        },
        PollResult::Players { players, chat_source } => {
            &&& e.state == RconConnState::Connected
            &&& e.player_count == Some(players@.len() as u32)
            &&& e.players@ == players@
            &&& opt_str(e.last_player_poll) == Some(crate::text::decimal(now as nat))
            &&& e.last_error is None && e.chat_source@ == chat_source@
            &&& e.idle_zero_since == base_idle
        },
    }
}

pub(crate) fn find_slot_index(v: &Vec<SlotRuntime>, id: &str) -> (res: Option<usize>)
    ensures
        match slot_index(v@, id@) {
            Some(i) => res matches Some(k) && k as int == i && k < v@.len(),
            None => res is None,
        },
{
    let mut i: usize = 0;
    while i < v.len()
        invariant
            0 <= i <= v@.len(),
            forall|j: int| 0 <= j < i ==> !has_slot_id(id@)(#[trigger] v@[j]),
        decreases v@.len() - i,
    {
        if crate::text::str_eq(v[i].slot_id.as_str(), id) {
            proof {
                lemma_first_where_at(v@, has_slot_id(id@), i as int);
            }
            return Some(i);
        }
        i = i + 1;
    }
    proof {
        lemma_first_where_none(v@, has_slot_id(id@));
    }
    None
}

fn copy_opt_string(o: &Option<String>) -> (res: Option<String>)
    ensures
        res == *o,
{
    match o {
        Some(s) => Some(s.clone()),
        None => None,
    }
}

impl RconRuntimeState {
    /// The entry of slot `slot_id`.
    pub fn endpoint_for(&self, slot_id: &str) -> (res: Option<&SlotRuntime>)
        ensures
            match slot_index(self.slots@, slot_id@) {
                Some(i) => res == Some(&self.slots@[i]),
                None => res is None,
            },
    {
        match find_slot_index(&self.slots, slot_id) {
            Some(i) => Some(&self.slots[i]),
            None => None,
        }
    }

    /// The player count of a slot: known only while the slot runs and a
    /// poll has counted its players.
    pub fn player_count(&self, slot_id: &str) -> (res: Option<u32>)
        ensures
            res == match slot_index(self.slots@, slot_id@) {
                Some(i) => if self.slots@[i].active {
                    self.slots@[i].player_count
                } else {
                    None
                },
                None => None,
            },
    {
        match find_slot_index(&self.slots, slot_id) {
            Some(i) => {
                let s = &self.slots[i];
                if s.active && s.player_count.is_some() {
                    s.player_count
                } else {
                    None
                }
            },
            None => None,
        }
    }

    /// Records the result of polling `slot`.
    pub fn update_slot(
        &mut self,
        slot: &ServerSlot,
        slot_key: &str,
        map_id: String,
        active: bool,
        endpoint: Option<(&str, u16)>,
        result: PollResult,
        now: u64,
    )
        ensures
            ({
                let ep = match endpoint {
                    Some((h, p)) => Some((h@, p)),
                    None => None,
                };
                match slot_index(old(self).slots@, slot.id@) {
                    Some(i) => {
                        &&& final(self).slots@.len() == old(self).slots@.len()
                        &&& forall|j: int| 0 <= j < old(self).slots@.len() && j != i ==> final(self).slots@[j] == old(self).slots@[j]
                        &&& is_polled_entry(final(self).slots@[i], Some(old(self).slots@[i]), *slot, slot_key@, map_id@, active, ep, result, now)
                    },
                    None => {
                        &&& final(self).slots@.len() == old(self).slots@.len() + 1
                        &&& forall|j: int| 0 <= j < old(self).slots@.len() ==> final(self).slots@[j] == old(self).slots@[j]
                        &&& is_polled_entry(final(self).slots@.last(), None, *slot, slot_key@, map_id@, active, ep, result, now)
                    },
                }
            }),
            final(self).messages == old(self).messages,
            final(self).detected_commands == old(self).detected_commands,
            final(self).seen == old(self).seen,
            final(self).log_offsets == old(self).log_offsets,
            final(self).home_idle_since == old(self).home_idle_since,
    {
        let (host, port) = match endpoint {
            Some((h, p)) => (owned(h), p),
            None => (owned("127.0.0.1"), slot.rcon_port),
        };
        let idx = find_slot_index(&self.slots, slot.id.as_str());
        let (last_player_poll, last_chat_poll, idle_zero_since) = match idx {
            Some(i) => (
                copy_opt_string(&self.slots[i].last_player_poll),
                copy_opt_string(&self.slots[i].last_chat_poll),
                self.slots[i].idle_zero_since,
            ),
            None => (None, None, None),
        };
        let mut entry = SlotRuntime {
            slot_id: slot.id.clone(),
            slot_key: owned(slot_key),
            map_id,
            host,
            port,
            configured: endpoint.is_some(),
            active,
            state: RconConnState::Connecting,
            player_count: None,
            players: Vec::new(),
            last_player_poll,
            last_chat_poll,
            last_error: None,
            chat_source: owned("pending"),
            idle_zero_since,
        };
        match result {
            PollResult::Disabled(reason) => {
                entry.state = RconConnState::Disabled;
                entry.last_error = Some(reason);
                entry.chat_source = owned("disabled");
            },
            PollResult::Stopped => {
                entry.state = RconConnState::Disconnected;
                entry.chat_source = owned("stopped");
                entry.idle_zero_since = None;
            },
            PollResult::Unavailable(reason) => {
                entry.state = RconConnState::Unavailable;
                entry.last_error = Some(reason);
                entry.chat_source = owned("unavailable");
            },
            PollResult::Players { players, chat_source } => {
                entry.state = RconConnState::Connected;
                entry.player_count = Some(players.len() as u32);
                entry.players = players;
                entry.last_player_poll = Some(u64_to_string(now));
                entry.chat_source = chat_source;
            },
        }
        match idx {
            Some(i) => {
                self.slots.set(i, entry);
            },
            None => {
                self.slots.push(entry);
            },
        }
    }
}

// ---------------------------------------------------------------------------
// Status, players and chat for the dashboard
// ---------------------------------------------------------------------------

/// One RCON endpoint as the dashboard shows it.
#[derive(Clone, Debug)]
pub struct RconEndpoint {
    pub slot_id: String,
    pub map_id: String,
    pub host: String,
    pub port: u16,
    pub state: String,
    pub last_player_poll: Option<String>,
    pub last_chat_poll: Option<String>,
    pub player_count: Option<u32>,
    pub player_count_source: String,
    pub players: Vec<String>,
    pub last_error: Option<String>,
    pub configured: bool,
    pub active: bool,
    pub chat_source: String,
}

impl RconEndpoint {
    /// An endpoint for map `map_id` as a test fixture describes it: connected
    /// (polled at `now`, chat from the game log) or disconnected.
    pub fn test_endpoint(map_id: &str, host: &str, port: u16, connected: bool, players: u32, now: u64) -> (res: Self)
        ensures
            res.slot_id@ == map_id@ && res.map_id@ == map_id@ && res.host@ == host@ && res.port == port,
            res.state@ == (if connected { "Connected"@ } else { "Disconnected"@ }),
            opt_str(res.last_player_poll) == (if connected { Some(decimal(now as nat)) } else { None }),
            opt_str(res.last_chat_poll) == (if connected { Some(decimal(now as nat)) } else { None }),
            res.player_count == Some(players),
            res.player_count_source@ == (if connected { "rcon"@ } else { "rcon_unavailable"@ }),
            res.players@.len() == 0,
            res.last_error is None,
            res.configured,
            res.active == connected,
            res.chat_source@ == (if connected { "rcon_gamelog"@ } else { "unavailable"@ }),
    {
        RconEndpoint {
            slot_id: owned(map_id),
            map_id: owned(map_id),
            host: owned(host),
            port,
            state: if connected {
                owned(RconConnState::Connected.as_str())
            } else {
                owned(RconConnState::Disconnected.as_str())
            },
            last_player_poll: if connected { Some(u64_to_string(now)) } else { None },
            last_chat_poll: if connected { Some(u64_to_string(now)) } else { None },
            player_count: Some(players),
            player_count_source: if connected { owned("rcon") } else { owned("rcon_unavailable") },
            players: Vec::new(),
            last_error: None,
            configured: true,
            active: connected,
            chat_source: if connected { owned("rcon_gamelog") } else { owned("unavailable") },
        }
    }
}

/// The RCON picture for all configured slots.
#[derive(Clone, Debug)]
pub struct RconListener {
    pub enabled: bool,
    pub poll_interval_secs: u32,
    pub endpoints: Vec<RconEndpoint>,
    pub implemented: bool,
    pub chat_command_source: String,
}

/// Whether RCON is switched on in both places of the configuration.
pub open spec fn rcon_on(c: Config) -> bool {
    c.operations.rcon_enabled && c.rcon.enabled
}

/// `e` shows `slot` given its runtime entry `rt` and the set password
/// variables `envs`.
pub open spec fn is_endpoint(e: RconEndpoint, c: Config, slot: ServerSlot, rt: Option<SlotRuntime>, envs: Seq<Seq<char>>) -> bool {
    let enabled = rcon_on(c);
    let configured = slot.rcon is Some;
    let missing_password = match slot.rcon {
        Some(r) => !envs.contains(r.password_env@),
        None => false,
    };
    &&& e.slot_id@ == slot.id@
    &&& e.map_id@ == crate::travel::effective_map(slot)
    &&& e.host@ == match slot.rcon { Some(r) => r.host@, None => "127.0.0.1"@ }
    &&& e.port == match slot.rcon { Some(r) => r.port, None => slot.rcon_port }
    &&& e.state@ == if !enabled {
        "Disabled"@
    } else if !configured {
        "Unavailable"@
    } else {
        match rt { Some(r) => conn_label(r.state), None => "Connecting"@ }
    }
    &&& opt_str(e.last_error) == if !enabled {
        Some("RCON disabled in manager config"@)
    } else if !configured {
        Some("RCON endpoint not configured for slot"@)
    } else if missing_password {
        Some("missing password env "@ + slot.rcon->Some_0.password_env@)
    } else {
        match rt { Some(r) => opt_str(r.last_error), None => None }
    }
    &&& opt_str(e.last_player_poll) == match rt { Some(r) => opt_str(r.last_player_poll), None => None }
    &&& opt_str(e.last_chat_poll) == match rt { Some(r) => opt_str(r.last_chat_poll), None => None }
    &&& e.player_count == match rt { Some(r) => r.player_count, None => None }
    &&& e.player_count_source@ == match rt {
        Some(r) => if r.player_count is Some {
            "rcon"@
        } else if r.active {
            "rcon_unavailable"@
        } else {
            "stopped"@
        },
        None => if enabled { "pending"@ } else { "disabled"@ },
    }
    &&& e.players@ == match rt { Some(r) => r.players@, None => Seq::empty() }
    &&& e.configured == configured
    &&& e.active == match rt { Some(r) => r.active, None => false }
    &&& e.chat_source@ == match rt {
        Some(r) => r.chat_source@,
        None => if enabled { "pending"@ } else { "disabled"@ },
    }
}

/// The runtime entry of a slot, if any.
pub open spec fn runtime_of(v: Seq<SlotRuntime>, id: Seq<char>) -> Option<SlotRuntime> {
    match slot_index(v, id) {
        Some(i) => Some(v[i]),
        None => None,
    }
}

/// The source the travel-command feed comes from.
pub open spec fn command_source(enabled: bool, eps: Seq<RconEndpoint>) -> Seq<char> {
    if !enabled {
        "disabled"@
    } else if exists|i: int| 0 <= i < eps.len() && (#[trigger] eps[i]).chat_source@ == "rcon_gamelog"@ {
        "rcon_gamelog"@
    } else if exists|i: int| 0 <= i < eps.len() && (#[trigger] eps[i]).chat_source@ == "log_tail"@ {
        "log_tail"@
    } else {
        "unavailable"@
    }
}

fn copy_runtime_strings(v: &Vec<String>) -> (res: Vec<String>)
    ensures
        res@ == v@,
{
    let mut r: Vec<String> = Vec::new();
    let mut i: usize = 0;
    while i < v.len()
        invariant
            0 <= i <= v@.len(),
            r@ == v@.take(i as int),
        decreases v@.len() - i,
    {
        r.push(v[i].clone());
        assert(r@ =~= v@.take(i + 1));
        i = i + 1;
    }
    assert(v@.take(v@.len() as int) =~= v@);
    r
}

fn has_env(envs: &Vec<String>, name: &str) -> (res: bool)
    ensures
        res == crate::text::str_views(envs@).contains(name@),
{
    let mut i: usize = 0;
    while i < envs.len()
        invariant
            0 <= i <= envs@.len(),
            forall|j: int| 0 <= j < i ==> crate::text::str_views(envs@)[j] != name@,
        decreases envs@.len() - i,
    {
        if crate::text::str_eq(envs[i].as_str(), name) {
            assert(crate::text::str_views(envs@)[i as int] == name@);
            return true;
        }
        i = i + 1;
    }
    false
}

fn chat_source_in(eps: &Vec<RconEndpoint>, source: &str) -> (res: bool)
    ensures
        res == exists|i: int| 0 <= i < eps@.len() && (#[trigger] eps@[i]).chat_source@ == source@,
{
    let mut i: usize = 0;
    while i < eps.len()
        invariant
            0 <= i <= eps@.len(),
            forall|j: int| 0 <= j < i ==> (#[trigger] eps@[j]).chat_source@ != source@,
        decreases eps@.len() - i,
    {
        if crate::text::str_eq(eps[i].chat_source.as_str(), source) {
            return true;
        }
        i = i + 1;
    }
    false
}

impl RconRuntimeState {
    fn endpoint_of(&self, config: &Config, slot: &ServerSlot, envs: &Vec<String>) -> (res: RconEndpoint)
        ensures
            is_endpoint(res, *config, *slot, runtime_of(self.slots@, slot.id@), crate::text::str_views(envs@)),
    {
        let enabled = config.operations.rcon_enabled && config.rcon.enabled;
        let map_id = crate::travel::effective_slot_map_id(config, slot);
        let rt = self.endpoint_for(slot.id.as_str());
        let configured = slot.rcon.is_some();
        let missing_password = match &slot.rcon {
            Some(r) => !has_env(envs, r.password_env.as_str()),
            None => false,
        };
        let state = if !enabled {
            RconConnState::Disabled
        } else if !configured {
            RconConnState::Unavailable
        } else {
            match rt {
                Some(r) => r.state,
                None => RconConnState::Connecting,
            }
        };
        let last_error = if !enabled {
            Some(owned("RCON disabled in manager config"))
        } else if !configured {
            Some(owned("RCON endpoint not configured for slot"))
        } else if missing_password {
            match &slot.rcon {
                Some(r) => Some(crate::text::cat2("missing password env ", r.password_env.as_str())),
                None => None,
            }
        } else {
            match rt {
                Some(r) => copy_opt_string(&r.last_error),
                None => None,
            }
        };
        RconEndpoint {
            slot_id: slot.id.clone(),
            map_id,
            host: match &slot.rcon {
                Some(r) => r.host.clone(),
                None => owned("127.0.0.1"),
            },
            port: match &slot.rcon {
                Some(r) => r.port,
                None => slot.rcon_port,
            },
            state: owned(state.as_str()),
            last_player_poll: match rt {
                Some(r) => copy_opt_string(&r.last_player_poll),
                None => None,
            },
            last_chat_poll: match rt {
                Some(r) => copy_opt_string(&r.last_chat_poll),
                None => None,
            },
            player_count: match rt {
                Some(r) => r.player_count,
                None => None,
            },
            player_count_source: match rt {
                Some(r) => if r.player_count.is_some() {
                    owned("rcon")
                } else if r.active {
                    owned("rcon_unavailable")
                } else {
                    owned("stopped")
                },
                None => if enabled {
                    owned("pending")
                } else {
                    owned("disabled")
                },
            },
            players: match rt {
                Some(r) => copy_runtime_strings(&r.players),
                None => Vec::new(),
            },
            last_error,
            configured,
            active: match rt {
                Some(r) => r.active,
                None => false,
            },
            chat_source: match rt {
                Some(r) => r.chat_source.clone(),
                None => if enabled {
                    owned("pending")
                } else {
                    owned("disabled")
                },
            },
        }
    }

    /// The RCON picture for the configured slots; `password_envs` names the
    /// password variables that are set to a non-empty value.
    pub fn status_from_config(&self, config: &Config, password_envs: &Vec<String>) -> (res: RconListener)
        ensures
            ({
                let list = match config.slots {
                    Some(s) => slot_list(s),
                    None => Seq::empty(),
                };
                &&& res.enabled == rcon_on(*config)
                &&& res.poll_interval_secs == config.rcon.poll_interval_seconds
                &&& res.implemented
                &&& res.endpoints@.len() == list.len()
                &&& forall|i: int| 0 <= i < list.len() ==> is_endpoint(
                    #[trigger] res.endpoints@[i],
                    *config,
                    list[i].0,
                    runtime_of(self.slots@, list[i].0.id@),
                    crate::text::str_views(password_envs@),
                )
                &&& res.chat_command_source@ == command_source(rcon_on(*config), res.endpoints@)
            }),
    {
        let enabled = config.operations.rcon_enabled && config.rcon.enabled;
        let mut endpoints: Vec<RconEndpoint> = Vec::new();
        let ghost list = match &config.slots {
            Some(s) => slot_list(*s),
            None => Seq::<(ServerSlot, Seq<char>, bool)>::empty(),
        };
        match &config.slots {
            Some(slots) => {
                let all = slots.iter();
                let mut k: usize = 0;
                while k < all.len()
                    invariant
                        0 <= k <= all@.len(),
                        list == slot_entries(all@),
                        endpoints@.len() == k,
                        forall|i: int| 0 <= i < k ==> is_endpoint(
                            #[trigger] endpoints@[i],
                            *config,
                            list[i].0,
                            runtime_of(self.slots@, list[i].0.id@),
                            crate::text::str_views(password_envs@),
                        ),
                    decreases all@.len() - k,
                {
                    let (slot, _key, _h) = all[k];
                    let e = self.endpoint_of(config, slot, password_envs);
                    endpoints.push(e);
                    k = k + 1;
                }
            },
            None => {},
        }
        let source = if !enabled {
            "disabled"
        } else if chat_source_in(&endpoints, "rcon_gamelog") {
            "rcon_gamelog"
        } else if chat_source_in(&endpoints, "log_tail") {
            "log_tail"
        } else {
            "unavailable"
        };
        RconListener {
            enabled,
            poll_interval_secs: config.rcon.poll_interval_seconds,
            endpoints,
            implemented: true,
            chat_command_source: owned(source),
        }
    }
}

/// A player on a map.
#[derive(Clone, Debug)]
pub struct Player {
    pub name: String,
    pub level: u32,
    pub tribe: String,
    pub connected_mins: u32,
    pub map: String,
}

#[derive(Clone, Debug)]
pub struct PlayersResponse {
    pub players: Vec<Player>,
    pub source: String,
    pub rcon_enabled: bool,
    pub available: bool,
    pub reason: String,
}

#[derive(Clone, Debug)]
pub struct ChatResponse {
    pub messages: Vec<ChatMessage>,
    pub detected_commands: Vec<ChatMessage>,
    pub source: String,
    pub available: bool,
    pub reason: String,
}

/// The display name of map `map_id`: the first configured map with that id,
/// else the id itself.
pub open spec fn map_display_name(c: Config, map_id: Seq<char>) -> Seq<char> {
    match first_where(c.maps@, |m: crate::config::MapConfig| m.id@ == map_id) {
        Some(i) => c.maps@[i].name@,
        None => map_id,
    }
}

/// The display name of a map id: the configured name, else the id.
pub fn map_name(config: &Config, map_id: &str) -> (res: String)
    ensures
        res@ == map_display_name(*config, map_id@),
{
    let ghost p = |m: crate::config::MapConfig| m.id@ == map_id@;
    let mut i: usize = 0;
    while i < config.maps.len()
        invariant
            0 <= i <= config.maps@.len(),
            p == (|m: crate::config::MapConfig| m.id@ == map_id@),
            forall|j: int| 0 <= j < i ==> !p(#[trigger] config.maps@[j]),
        decreases config.maps@.len() - i,
    {
        if crate::text::str_eq(config.maps[i].id.as_str(), map_id) {
            proof {
                lemma_first_where_at(config.maps@, p, i as int);
            }
            return config.maps[i].name.clone();
        }
        i = i + 1;
    }
    proof {
        lemma_first_where_none(config.maps@, p);
    }
    owned(map_id)
}

/// Folds the running slots: the listed players (name and map), whether a
/// count is known, whether a running slot lacks one, and the errors seen.
pub open spec fn players_fold(c: Config, v: Seq<SlotRuntime>) -> (Seq<(Seq<char>, Seq<char>)>, bool, bool, Seq<Seq<char>>)
    decreases v.len(),
{
    if v.len() == 0 {
        (Seq::empty(), false, false, Seq::empty())
    } else {
        let prev = players_fold(c, v.drop_last());
        let s = v.last();
        if !s.active {
            prev
        } else if s.player_count is Some {
            let name = map_display_name(c, s.map_id@);
            (prev.0 + Seq::new(s.players@.len(), |i: int| (s.players@[i]@, name)), true, prev.2, prev.3)
        } else {
            (prev.0, prev.1, true, match s.last_error {
                Some(e) => prev.3.push(s.slot_id@ + ": "@ + e@),
                None => prev.3,
            })
        }
    }
}

/// `r` is the player list reported for runtime slots `v`.
pub open spec fn is_players_response(r: PlayersResponse, c: Config, v: Seq<SlotRuntime>) -> bool {
    let f = players_fold(c, v);
    let enabled = rcon_on(c);
    let available = enabled && f.1 && !f.2;
    &&& Seq::new(r.players@.len(), |i: int| (r.players@[i].name@, r.players@[i].map@)) == f.0
    &&& forall|i: int| 0 <= i < r.players@.len() ==> (#[trigger] r.players@[i]).level == 0
        && r.players@[i].tribe@.len() == 0 && r.players@[i].connected_mins == 0
    &&& r.source@ == if f.1 { "rcon"@ } else if enabled { "rcon_unavailable"@ } else { "disabled"@ }
    &&& r.rcon_enabled == enabled
    &&& r.available == available
    &&& r.reason@ == if available {
        "RCON player polling live"@
    } else if !enabled {
        "RCON disabled in manager config"@
    } else if f.3.len() == 0 {
        "RCON player polling has not succeeded yet"@
    } else {
        crate::text::join(f.3, "; "@)
    }
}

/// The newest `n` elements of `s`, newest first.
pub open spec fn newest_first<A>(s: Seq<A>, n: int) -> Seq<A> {
    keep_last(s, n).reverse()
}

fn newest_messages(v: &Vec<ChatMessage>, n: usize) -> (res: Vec<ChatMessage>)
    ensures
        res@ == newest_first(v@, n as int),
{
    let mut r: Vec<ChatMessage> = Vec::new();
    let len = v.len();
    let stop = if len > n { len - n } else { 0 };
    let ghost target = newest_first(v@, n as int);
    let mut i = len;
    while i > stop
        invariant
            stop <= i <= len,
            len == v@.len(),
            stop == if len > n { len - n } else { 0 },
            target == newest_first(v@, n as int),
            r@.len() == len - i,
            forall|j: int| 0 <= j < r@.len() ==> r@[j] == v@[len - 1 - j],
        decreases i - stop,
    {
        let m = copy_message(&v[i - 1]);
        r.push(m);
        i = i - 1;
    }
    assert(r@ =~= target);
    r
}

impl RconRuntimeState {
    /// The players reported by the running slots.
    pub fn players_response(&self, config: &Config) -> (res: PlayersResponse)
        ensures
            is_players_response(res, *config, self.slots@),
    {
        let mut rows: Vec<Player> = Vec::new();
        let mut known = false;
        let mut active_unavailable = false;
        let mut errors: Vec<Vec<char>> = Vec::new();
        let mut k: usize = 0;
        while k < self.slots.len()
            invariant
                0 <= k <= self.slots@.len(),
                ({
                    let f = players_fold(*config, self.slots@.take(k as int));
                    &&& Seq::new(rows@.len(), |i: int| (rows@[i].name@, rows@[i].map@)) == f.0
                    &&& known == f.1 && active_unavailable == f.2
                    &&& views(errors@) == f.3
                }),
                forall|i: int| 0 <= i < rows@.len() ==> (#[trigger] rows@[i]).level == 0
                    && rows@[i].tribe@.len() == 0 && rows@[i].connected_mins == 0,
            decreases self.slots@.len() - k,
        {
            assert(self.slots@.take(k + 1).drop_last() =~= self.slots@.take(k as int));
            let s = &self.slots[k];
            if s.active {
                if s.player_count.is_some() {
                    known = true;
                    let name = map_name(config, s.map_id.as_str());
                    let ghost before = rows@;
                    let mut j: usize = 0;
                    while j < s.players.len()
                        invariant
                            0 <= j <= s.players@.len(),
                            rows@.len() == before.len() + j,
                            forall|i: int| 0 <= i < before.len() ==> rows@[i] == before[i],
                            forall|i: int| 0 <= i < j ==> (#[trigger] rows@[before.len() + i]).name@ == s.players@[i]@
                                && rows@[before.len() + i].map@ == name@,
                            forall|i: int| 0 <= i < rows@.len() ==> (#[trigger] rows@[i]).level == 0
                                && rows@[i].tribe@.len() == 0 && rows@[i].connected_mins == 0,
                        decreases s.players@.len() - j,
                    {
                        rows.push(Player {
                            name: s.players[j].clone(),
                            level: 0,
                            tribe: String::new(),
                            connected_mins: 0,
                            map: name.clone(),
                        });
                        j = j + 1;
                    }
                    assert forall|i: int| before.len() <= i < rows@.len() implies rows@[i].name@
                        == s.players@[i - before.len()]@ && rows@[i].map@ == name@ by {
                        let q = i - before.len();
                        assert(rows@[before.len() + q] == rows@[i]);
                    }
                    assert(Seq::new(rows@.len(), |i: int| (rows@[i].name@, rows@[i].map@)) =~= Seq::new(
                        before.len(),
                        |i: int| (before[i].name@, before[i].map@),
                    ) + Seq::new(s.players@.len(), |i: int| (s.players@[i]@, name@)));
                } else {
                    active_unavailable = true;
                    match &s.last_error {
                        Some(e) => {
                            let mut t = chars_of(s.slot_id.as_str());
                            let sep = chars_of(": ");
                            let ev = chars_of(e.as_str());
                            let ghost t0 = t@;
                            let mut t2 = t.clone();
                            let ghost eb = errors@;
                            crate::text::append_vec_vec(&mut t2, &sep);
                            crate::text::append_vec_vec(&mut t2, &ev);
                            errors.push(t2);
                            assert(views(errors@) =~= views(eb).push(s.slot_id@ + ": "@ + e@));
                        },
                        None => {},
                    }
                }
            }
            k = k + 1;
        }
        assert(self.slots@.take(self.slots@.len() as int) =~= self.slots@);
        let enabled = config.operations.rcon_enabled && config.rcon.enabled;
        let available = enabled && known && !active_unavailable;
        let source = if known {
            "rcon"
        } else if enabled {
            "rcon_unavailable"
        } else {
            "disabled"
        };
        let reason = if available {
            owned("RCON player polling live")
        } else if !enabled {
            owned("RCON disabled in manager config")
        } else if errors.len() == 0 {
            owned("RCON player polling has not succeeded yet")
        } else {
            let j = join_vecs(&errors, "; ");
            string_from(&j)
        };
        PlayersResponse { players: rows, source: owned(source), rcon_enabled: enabled, available, reason }
    }
}

pub open spec fn any_message_from(v: Seq<ChatMessage>, src: Seq<char>) -> bool {
    exists|i: int| 0 <= i < v.len() && (#[trigger] v[i]).source@ == src
}

pub open spec fn any_slot_chat(v: Seq<SlotRuntime>, src: Seq<char>) -> bool {
    exists|i: int| 0 <= i < v.len() && (#[trigger] v[i]).chat_source@ == src
}

/// Where the chat feed comes from.
pub open spec fn chat_feed_source(enabled: bool, msgs: Seq<ChatMessage>, slots: Seq<SlotRuntime>) -> Seq<char> {
    if !enabled {
        "disabled"@
    } else if any_message_from(msgs, "rcon_gamelog"@) {
        "rcon_gamelog"@
    } else if any_message_from(msgs, "log_tail"@) {
        "log_tail"@
    } else if any_slot_chat(slots, "rcon_gamelog"@) {
        "rcon_gamelog"@
    } else if any_slot_chat(slots, "log_tail"@) {
        "log_tail"@
    } else {
        "unavailable"@
    }
}

fn message_from_in(v: &Vec<ChatMessage>, src: &str) -> (res: bool)
    ensures
        res == any_message_from(v@, src@),
{
    let mut i: usize = 0;
    while i < v.len()
        invariant
            0 <= i <= v@.len(),
            forall|j: int| 0 <= j < i ==> (#[trigger] v@[j]).source@ != src@,
        decreases v@.len() - i,
    {
        if crate::text::str_eq(v[i].source.as_str(), src) {
            return true;
        }
        i = i + 1;
    }
    false
}

fn slot_chat_in(v: &Vec<SlotRuntime>, src: &str) -> (res: bool)
    ensures
        res == any_slot_chat(v@, src@),
{
    let mut i: usize = 0;
    while i < v.len()
        invariant
            0 <= i <= v@.len(),
            forall|j: int| 0 <= j < i ==> (#[trigger] v@[j]).chat_source@ != src@,
        decreases v@.len() - i,
    {
        if crate::text::str_eq(v[i].chat_source.as_str(), src) {
            return true;
        }
        i = i + 1;
    }
    false
}

impl RconRuntimeState {
    /// The recent chat (newest first, at most 50 of each kind) and its source.
    pub fn chat_response(&self, config: &Config) -> (res: ChatResponse)
        ensures
            ({
                let src = chat_feed_source(rcon_on(*config), self.messages@, self.slots@);
                &&& res.messages@ == newest_first(self.messages@, 50)
                &&& res.detected_commands@ == newest_first(self.detected_commands@, 50)
                &&& res.source@ == src
                &&& res.available == (src != "disabled"@ && src != "unavailable"@)
                &&& res.reason@ == if src == "unavailable"@ {
                    "No RCON game log or ARK log chat line has been observed yet"@
                } else {
                    "chat command source active"@
                }
            }),
    {
        let enabled = config.operations.rcon_enabled && config.rcon.enabled;
        let source = if !enabled {
            "disabled"
        } else if message_from_in(&self.messages, "rcon_gamelog") {
            "rcon_gamelog"
        } else if message_from_in(&self.messages, "log_tail") {
            "log_tail"
        } else if slot_chat_in(&self.slots, "rcon_gamelog") {
            "rcon_gamelog"
        } else if slot_chat_in(&self.slots, "log_tail") {
            "log_tail"
        } else {
            "unavailable"
        };
        let unavailable = crate::text::eq_str(source, "unavailable");
        let available = !crate::text::eq_str(source, "disabled") && !unavailable;
        ChatResponse {
            messages: newest_messages(&self.messages, 50),
            detected_commands: newest_messages(&self.detected_commands, 50),
            source: owned(source),
            available,
            reason: if unavailable {
                owned("No RCON game log or ARK log chat line has been observed yet")
            } else {
                owned("chat command source active")
            },
        }
    }

    /// Moves the read position of a log file to its current length `len` and
    /// returns where reading should start, or `None` when there is nothing
    /// new. A file seen for the first time starts at its end; a file that
    /// shrank (rotated) is read from the start.
    pub fn advance_log_offset(&mut self, path: &str, len: u64) -> (res: Option<u64>)
        ensures
            ({
                let prev = match first_where(old(self).log_offsets@, |e: (String, u64)| e.0@ == path@) {
                    Some(i) => old(self).log_offsets@[i].1,
                    None => len,
                };
                let start = if len < prev { 0 } else { prev };
                &&& res == if len == start { None } else { Some(start) }
                &&& exists|i: int| 0 <= i < final(self).log_offsets@.len() && (#[trigger] final(self).log_offsets@[i]).0@ == path@
                    && final(self).log_offsets@[i].1 == len
            }),
            final(self).slots == old(self).slots,
            final(self).messages == old(self).messages,
            final(self).detected_commands == old(self).detected_commands,
            final(self).seen == old(self).seen,
            final(self).home_idle_since == old(self).home_idle_since,
    {
        let ghost p = |e: (String, u64)| e.0@ == path@;
        let mut i: usize = 0;
        while i < self.log_offsets.len()
            invariant
                0 <= i <= self.log_offsets@.len(),
                p == (|e: (String, u64)| e.0@ == path@),
                *self == *old(self),
                forall|j: int| 0 <= j < i ==> !p(#[trigger] self.log_offsets@[j]),
            decreases self.log_offsets@.len() - i,
        {
            if crate::text::str_eq(self.log_offsets[i].0.as_str(), path) {
                proof {
                    lemma_first_where_at(self.log_offsets@, p, i as int);
                }
                let prev = self.log_offsets[i].1;
                let start = if len < prev { 0 } else { prev };
                self.log_offsets.set(i, (owned(path), len));
                assert(self.log_offsets@[i as int].0@ == path@);
                return if len == start { None } else { Some(start) };
            }
            i = i + 1;
        }
        proof {
            lemma_first_where_none(self.log_offsets@, p);
        }
        self.log_offsets.push((owned(path), len));
        assert(self.log_offsets@[self.log_offsets@.len() - 1].0@ == path@);
        None
    }

    /// The slot that log-tail chat lines are attributed to: the first running
    /// slot, else the Home slot, else `unknown`.
    pub fn default_chat_slot_id(&self, config: &Config) -> (res: String)
        ensures
            res@ == match first_where(self.slots@, |s: SlotRuntime| s.active) {
                Some(i) => self.slots@[i].slot_id@,
                None => match config.slots {
                    Some(s) => s.home.id@,
                    None => "unknown"@,
                },
            },
    {
        let ghost p = |s: SlotRuntime| s.active;
        let mut i: usize = 0;
        while i < self.slots.len()
            invariant
                0 <= i <= self.slots@.len(),
                p == (|s: SlotRuntime| s.active),
                forall|j: int| 0 <= j < i ==> !p(#[trigger] self.slots@[j]),
            decreases self.slots@.len() - i,
        {
            if self.slots[i].active {
                proof {
                    lemma_first_where_at(self.slots@, p, i as int);
                }
                return self.slots[i].slot_id.clone();
            }
            i = i + 1;
        }
        proof {
            lemma_first_where_none(self.slots@, p);
        }
        match &config.slots {
            Some(s) => s.home.id.clone(),
            None => owned("unknown"),
        }
    }
}

// ---------------------------------------------------------------------------
// Polling and in-game travel commands
// ---------------------------------------------------------------------------

/// What to do for one slot in a poll round.
#[derive(Clone, Debug)]
pub enum PollPlan {
    /// Nothing to ask the server; the poll ends with this result.
    Done(PollResult),
    /// Ask the server for its players and game log.
    Query,
}

/// The poll decision before any RCON traffic: disabled, stopped, missing
/// endpoint or password, or query.
pub fn poll_plan(enabled: bool, active: bool, endpoint: Option<&SlotRconConfig>, password_present: bool) -> (res: PollPlan)
    ensures
        !enabled ==> (res matches PollPlan::Done(PollResult::Disabled(m)) && m@ == "RCON disabled in manager config"@),
        enabled && !active ==> res matches PollPlan::Done(PollResult::Stopped),
        enabled && active && endpoint is None ==> (res matches PollPlan::Done(PollResult::Unavailable(m))
            && m@ == "RCON endpoint not configured for slot"@),
        enabled && active && endpoint is Some && !password_present ==> (res matches PollPlan::Done(
            PollResult::Unavailable(m),
        ) && m@ == "missing password env "@ + endpoint->Some_0.password_env@),
        enabled && active && endpoint is Some && password_present ==> res matches PollPlan::Query,
{
    if !enabled {
        return PollPlan::Done(PollResult::Disabled(owned("RCON disabled in manager config")));
    }
    if !active {
        return PollPlan::Done(PollResult::Stopped);
    }
    match endpoint {
        Some(r) => {
            if !password_present {
                PollPlan::Done(
                    PollResult::Unavailable(crate::text::cat2("missing password env ", r.password_env.as_str())),
                )
            } else {
                PollPlan::Query
            }
        },
        None => PollPlan::Done(PollResult::Unavailable(owned("RCON endpoint not configured for slot"))),
    }
}

/// The game-log lines worth reading, in order.
pub open spec fn chat_lines(log: Seq<char>) -> Seq<Seq<char>> {
    kept_lines(lines(log))
}

/// The lines of `ls` that are not ignorable, in order.
pub open spec fn kept_lines(ls: Seq<Seq<char>>) -> Seq<Seq<char>>
    decreases ls.len(),
{
    if ls.len() == 0 {
        Seq::empty()
    } else if ignorable_game_log_line(ls.last()) {
        kept_lines(ls.drop_last())
    } else {
        kept_lines(ls.drop_last()).push(ls.last())
    }
}

/// The poll result after querying a server: its players and the game-log
/// lines to read as chat, or the sanitized error.
pub fn poll_result_from(list: &Result<String, RconError>, game_log: &Option<String>) -> (res: (PollResult, Vec<String>))
    ensures
        match list {
            Ok(raw) => {
                let ls = match game_log {
                    Some(g) => chat_lines(g@),
                    None => Seq::empty(),
                };
                &&& res.0 matches PollResult::Players { players, chat_source }
                    && crate::text::str_views(players@) == players_on_lines(lines(raw@))
                    && chat_source@ == if ls.len() > 0 { "rcon_gamelog"@ } else { "rcon"@ }
                &&& crate::text::str_views(res.1@) == ls
            },
            Err(e) => res.0 matches PollResult::Unavailable(m) && m@ == sanitized_error(rcon_error_message(*e))
                && res.1@.len() == 0,
        },
{
    match list {
        Ok(raw) => {
            let players = parse_players(raw.as_str());
            let mut kept: Vec<String> = Vec::new();
            match game_log {
                Some(g) => {
                    let gv = chars_of(g.as_str());
                    let ls = lines_of(&gv);
                    let ghost all = lines(g@);
                    let mut k: usize = 0;
                    while k < ls.len()
                        invariant
                            0 <= k <= ls@.len(),
                            views(ls@) == all,
                            all == lines(g@),
                            crate::text::str_views(kept@) == kept_lines(all.take(k as int)),
                        decreases ls@.len() - k,
                    {
                        let text = string_from(&ls[k]);
                        assert(all.take(k + 1).drop_last() =~= all.take(k as int));
                        assert(all.take(k + 1).last() == text@);
                        let ghost before = kept@;
                        if !is_ignorable_game_log_line(text.as_str()) {
                            kept.push(text);
                            assert(crate::text::str_views(kept@) =~= crate::text::str_views(before).push(ls@[k as int]@));
                        }
                        k = k + 1;
                    }
                    assert(all.take(ls@.len() as int) =~= all);
                },
                None => {
                    assert(crate::text::str_views(kept@) =~= Seq::<Seq<char>>::empty());
                },
            }
            let chat_source = if kept.len() > 0 {
                owned("rcon_gamelog")
            } else {
                owned("rcon")
            };
            (PollResult::Players { players, chat_source }, kept)
        },
        Err(e) => {
            let m = e.message();
            (PollResult::Unavailable(sanitize_error(m.as_str())), Vec::new())
        },
    }
}

/// The message sent back to players for a travel decision.
pub open spec fn feedback_text(d: crate::travel::TravelDecision) -> Seq<char> {
    "[ARK Cluster] "@ + if d.status@ == "blocked"@ && contains(d.reason@, "travel scheduler disabled"@) {
        "Travel is currently unavailable: "@ + d.reason@ + "."@
    } else {
        d.user_message@
    }
}

/// The in-game chat reply to a travel decision.
pub fn ark_feedback_for_decision(decision: &crate::travel::TravelDecision) -> (res: String)
    ensures
        res@ == feedback_text(*decision),
{
    let blocked = crate::text::eq_str(decision.status.as_str(), "blocked") && crate::text::str_contains(
        decision.reason.as_str(),
        "travel scheduler disabled",
    );
    let mut s = owned("[ARK Cluster] ");
    if blocked {
        append(&mut s, "Travel is currently unavailable: ");
        append(&mut s, decision.reason.as_str());
        append(&mut s, ".");
        proof {
            assert(s@ =~= "[ARK Cluster] "@ + ("Travel is currently unavailable: "@ + decision.reason@ + "."@));
        }
    } else {
        append(&mut s, decision.user_message.as_str());
    }
    s
}

/// The acknowledgement sent when a travel command arrives: the configured
/// map's display name when the request names one, else the request.
pub fn received_feedback(config: &Config, requested_map: &str) -> (res: String)
    ensures
        res@ == "[ARK Cluster] Travel request received: "@ + match crate::travel::resolved_index(*config, requested_map@) {
            Some(i) => config.maps@[i].name@,
            None => requested_map@,
        } + "."@,
{
    let name = match crate::travel::resolve_map(config, requested_map) {
        Some(m) => m.name.as_str(),
        None => requested_map,
    };
    crate::text::cat3("[ARK Cluster] Travel request received: ", name, ".")
}

/// The travel request an in-game chat command makes, if it is a travel
/// command: the player as actor (`unknown-player` when blank).
pub fn chat_travel_request(message: &ChatMessage) -> (res: Option<crate::travel::TravelRequestBody>)
    ensures
        match message.detected_command {
            Some(cmd) => if cmd.command@ == "travel"@ {
                res matches Some(r) && r.map@ == cmd.argument@ && r.source@ == "in_game_chat"@
                    && r.actor@ == if trim(message.player@).len() == 0 {
                    "unknown-player"@
                } else {
                    message.player@
                } && r.actor_discord_id is None
            } else {
                res is None
            },
            None => res is None,
        },
{
    match &message.detected_command {
        Some(cmd) => {
            if !crate::text::eq_str(cmd.command.as_str(), "travel") {
                return None;
            }
            Some(crate::travel::TravelRequestBody {
                map: cmd.argument.clone(),
                source: owned("in_game_chat"),
                actor: if crate::text::is_blank(message.player.as_str()) {
                    owned("unknown-player")
                } else {
                    message.player.clone()
                },
                actor_discord_id: None,
            })
        },
        None => None,
    }
}

/// Where and what to send as chat feedback to slot `slot_id`, given the
/// RCON password read for it, or why it cannot be sent.
pub open spec fn chat_feedback_plan(c: Config, slot_id: Seq<char>, password: Seq<char>, message: Seq<char>)
    -> Result<(Seq<char>, u16, Seq<char>), Seq<char>>
{
    match c.slots {
        None => Err("slot config unavailable"@),
        Some(_) => match crate::maps::find_slot(c, crate::maps::slot_id_match(slot_id)) {
            None => Err("source slot "@ + slot_id + " is not configured"@),
            Some(e) => match e.0.rcon {
                None => Err("source slot "@ + slot_id + " has no RCON endpoint"@),
                Some(r) => if trim(password).len() == 0 {
                    Err("missing password env "@ + r.password_env@)
                } else {
                    Ok((r.host@, r.port, "ServerChat "@ + sanitized_chat(message)))
                },
            },
        },
    }
}

/// The RCON host, port and command that send `message` as server chat on
/// slot `slot_id`, or why it cannot be sent (no slots, unknown slot, no
/// RCON endpoint, blank password).
pub fn chat_feedback_command(config: &Config, slot_id: &str, password: &str, message: &str)
    -> (res: Result<(String, u16, String), String>)
    ensures
        match (res, chat_feedback_plan(*config, slot_id@, password@, message@)) {
            (Ok((h, p, cmd)), Ok((sh, sp, scmd))) => h@ == sh && p == sp && cmd@ == scmd,
            (Err(e), Err(se)) => e@ == se,
            _ => false,
        },
{
    if config.slots.is_none() {
        return Err(owned("slot config unavailable"));
    }
    let slot = match crate::maps::configured_slot_by_id(config, slot_id) {
        Some((s, _)) => s,
        None => {
            return Err(crate::text::cat3("source slot ", slot_id, " is not configured"));
        },
    };
    let rcon = match &slot.rcon {
        Some(r) => r,
        None => {
            return Err(crate::text::cat3("source slot ", slot_id, " has no RCON endpoint"));
        },
    };
    if crate::text::is_blank(password) {
        return Err(crate::text::cat2("missing password env ", rcon.password_env.as_str()));
    }
    let safe = sanitize_chat_message(message);
    let cmd = crate::text::cat2("ServerChat ", safe.as_str());
    Ok((rcon.host.clone(), rcon.port, cmd))
}

/// The audit detail of a processed in-game travel command.
pub open spec fn travel_command_detail(
    d: crate::travel::TravelDecision,
    received: Result<(), String>,
    decided: Result<(), String>,
) -> Seq<char> {
    "id="@ + d.id@ + " status="@ + d.status@ + " reason="@ + d.reason@ + " feedbackReceived="@
        + feedback_label(received) + " feedbackResult="@ + feedback_label(decided)
}

/// The audit detail of a processed in-game travel command.
pub fn travel_command_audit_detail(
    decision: &crate::travel::TravelDecision,
    received: &Result<(), String>,
    decided: &Result<(), String>,
) -> (res: String)
    ensures
        res@ == travel_command_detail(*decision, *received, *decided),
{
    let a = feedback_result_label(received);
    let b = feedback_result_label(decided);
    let mut s = owned("id=");
    append(&mut s, decision.id.as_str());
    append(&mut s, " status=");
    append(&mut s, decision.status.as_str());
    append(&mut s, " reason=");
    append(&mut s, decision.reason.as_str());
    append(&mut s, " feedbackReceived=");
    append(&mut s, a.as_str());
    append(&mut s, " feedbackResult=");
    append(&mut s, b.as_str());
    s
}

/// The severity of the audit event for a processed travel command.
pub fn travel_command_severity(decision: &crate::travel::TravelDecision) -> (res: crate::audit::Severity)
    ensures
        res == (if decision.accepted { crate::audit::Severity::Info } else { crate::audit::Severity::Warn }),
{
    if decision.accepted {
        crate::audit::Severity::Info
    } else {
        crate::audit::Severity::Warn
    }
}

// ---------------------------------------------------------------------------
// One RCON exchange: authenticate, send a command, collect the response
// ---------------------------------------------------------------------------

/// How many packets are read while waiting for the authentication reply.
pub const AUTH_READ_ATTEMPTS: usize = 4;

/// The authentication packet for `password`.
pub fn auth_packet(password: &str) -> (res: RconPacket)
    ensures
        res.id == 1 && res.packet_type == RCON_AUTH && res.body@ == password@,
{
    RconPacket { id: 1, packet_type: RCON_AUTH, body: owned(password) }
}

/// The packet that runs `command`.
pub fn command_packet(command: &str) -> (res: RconPacket)
    ensures
        res.id == 2 && res.packet_type == RCON_EXECCOMMAND && res.body@ == command@,
{
    RconPacket { id: 2, packet_type: RCON_EXECCOMMAND, body: owned(command) }
}

/// What a packet read while authenticating means.
#[derive(Clone, Copy, Debug, PartialEq, Eq, Structural)]
pub enum AuthReply {
    /// The server refused the password (id -1).
    Rejected,
    /// The server accepted the password.
    Accepted,
    /// Some other packet; keep reading.
    Ignored,
}

/// What an authentication reply says: rejected, accepted, or not the reply.
pub fn auth_reply(packet: &RconPacket) -> (res: AuthReply)
    ensures
        res == (if packet.id == -1 {
            AuthReply::Rejected
        } else if packet.id == 1 && packet.packet_type == RCON_AUTH_RESPONSE {
            AuthReply::Accepted
        } else {
            AuthReply::Ignored
        }),
{
    if packet.id == -1 {
        AuthReply::Rejected
    } else if packet.id == 1 && packet.packet_type == RCON_AUTH_RESPONSE {
        AuthReply::Accepted
    } else {
        AuthReply::Ignored
    }
}

/// Adds a packet read after the command to the response: only packets
/// answering the command (id 2, response value) count; returns whether it
/// counted.
pub fn absorb_response(response: &mut String, packet: &RconPacket) -> (counted: bool)
    ensures
        counted == (packet.id == 2 && packet.packet_type == RCON_RESPONSE_VALUE),
        counted ==> final(response)@ == old(response)@ + packet.body@,
        !counted ==> final(response)@ == old(response)@,
{
    if packet.id == 2 && packet.packet_type == RCON_RESPONSE_VALUE {
        append(response, packet.body.as_str());
        true
    } else {
        false
    }
}

/// The outcome of a read that timed out: the end of the response once some
/// of it arrived, else a command timeout.
pub fn on_read_timeout(got_any: bool) -> (res: Result<(), RconError>)
    ensures
        got_any ==> res is Ok,
        !got_any ==> res matches Err(RconError::CommandTimeout),
{
    if got_any {
        Ok(())
    } else {
        Err(RconError::CommandTimeout)
    }
}

// ---------------------------------------------------------------------------
// Server log files that are tailed for chat
// ---------------------------------------------------------------------------

/// A rotated server log name: `ShooterGame.log` or `ShooterGame_*.log`.
pub open spec fn is_log_name(n: Seq<char>) -> bool {
    n == "ShooterGame.log"@ || (crate::text::starts_with(n, "ShooterGame_"@) && crate::text::ends_with(n, ".log"@))
}

/// The log directory under the ARK root (`/srv/ark` when blank).
pub open spec fn log_dir(c: Config) -> Seq<char> {
    crate::backup::path_join(
        if trim(c.paths.ark_root@).len() == 0 { "/srv/ark"@ } else { c.paths.ark_root@ },
        "server/ShooterGame/Saved/Logs"@,
    )
}

/// The log files to tail: the main log first, then each listed log file
/// not already present, in the order given.
pub open spec fn log_paths(dir: Seq<char>, names: Seq<Seq<char>>) -> Seq<Seq<char>>
    decreases names.len(),
{
    if names.len() == 0 {
        seq![crate::backup::path_join(dir, "ShooterGame.log"@)]
    } else {
        let prev = log_paths(dir, names.drop_last());
        let p = crate::backup::path_join(dir, names.last());
        if is_log_name(names.last()) && !prev.contains(p) {
            prev.push(p)
        } else {
            prev
        }
    }
}

fn contains_string(v: &Vec<String>, t: &str) -> (res: bool)
    ensures
        res == crate::text::str_views(v@).contains(t@),
{
    let mut i: usize = 0;
    while i < v.len()
        invariant
            0 <= i <= v@.len(),
            forall|j: int| 0 <= j < i ==> v@[j]@ != t@,
        decreases v@.len() - i,
    {
        if crate::text::str_eq(v[i].as_str(), t) {
            assert(crate::text::str_views(v@)[i as int] == t@);
            return true;
        }
        i = i + 1;
    }
    proof {
        if crate::text::str_views(v@).contains(t@) {
            let j = choose|j: int| 0 <= j < crate::text::str_views(v@).len() && crate::text::str_views(v@)[j] == t@;
            assert(v@[j]@ == t@);
        }
    }
    false
}

/// The log files to tail, given the names of the files in the log
/// directory in sorted order.
pub fn log_candidates(config: &Config, sorted_names: &Vec<String>) -> (res: Vec<String>)
    ensures
        crate::text::str_views(res@) == log_paths(log_dir(*config), crate::text::str_views(sorted_names@)),
{
    let root = if crate::text::is_blank(config.paths.ark_root.as_str()) {
        "/srv/ark"
    } else {
        config.paths.ark_root.as_str()
    };
    let dir = crate::backup::join_path(root, "server/ShooterGame/Saved/Logs");
    let ghost names = crate::text::str_views(sorted_names@);
    let mut out: Vec<String> = Vec::new();
    out.push(crate::backup::join_path(dir.as_str(), "ShooterGame.log"));
    assert(crate::text::str_views(out@) =~= log_paths(dir@, names.take(0)));
    let mut i: usize = 0;
    while i < sorted_names.len()
        invariant
            0 <= i <= sorted_names@.len(),
            names == crate::text::str_views(sorted_names@),
            dir@ == log_dir(*config),
            crate::text::str_views(out@) == log_paths(dir@, names.take(i as int)),
        decreases sorted_names@.len() - i,
    {
        let n = sorted_names[i].as_str();
        let p = crate::backup::join_path(dir.as_str(), n);
        let is_log = crate::text::eq_str(n, "ShooterGame.log") || (crate::text::str_starts_with(n, "ShooterGame_")
            && crate::text::str_ends_with(n, ".log"));
        assert(names.take(i + 1).drop_last() =~= names.take(i as int));
        assert(names.take(i + 1).last() == n@);
        if is_log && !contains_string(&out, p.as_str()) {
            let ghost before = out@;
            out.push(p);
            assert(crate::text::str_views(out@) =~= crate::text::str_views(before).push(crate::backup::path_join(dir@, n@)));
        }
        i = i + 1;
    }
    assert(names.take(sorted_names@.len() as int) =~= names);
    out
}

/// After a poll that did not list the players, the slot's count is unknown:
/// player counts come only from a successful RCON player poll.
pub proof fn lemma_count_only_from_player_poll(
    e: SlotRuntime,
    prev: Option<SlotRuntime>,
    slot: ServerSlot,
    key: Seq<char>,
    map_id: Seq<char>,
    active: bool,
    endpoint: Option<(Seq<char>, u16)>,
    result: PollResult,
    now: u64,
)
    requires
        is_polled_entry(e, prev, slot, key, map_id, active, endpoint, result, now),
    ensures
        e.player_count is Some <==> result is Players,
        result matches PollResult::Players { players, chat_source } ==> e.player_count == Some(players@.len() as u32),
{
}

} // verus!
