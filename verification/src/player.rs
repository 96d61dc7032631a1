//! Players: identity, connection status, and the identity update that reacts
//! to engine user-info messages.

use vstd::prelude::*;
use vstd::slice::{slice_subrange, slice_to_vec};
use vstd::string::StringSliceAdditionalSpecFns;
use crate::{AnalyzerEvent, AnalyzerState};
use crate::dod::{Class, Team};
use crate::kill::{KillStreak, WeaponStat};
use crate::mortality::MortalityChange;

verus! {

/// Opaque string identity of a player, stable across disconnect and reconnect
/// within one demo, held as bytes.
#[derive(Clone, Debug, PartialEq, Eq, Hash)]
pub struct PlayerGlobalId(pub Vec<u8>);

/// Represents whether a [Player] is connected to the server.
#[derive(Clone, Copy, Debug, PartialEq, Eq, Structural)]
pub enum ConnectionStatus {
    /// Player is currently connected to the server.
    Connected {
        /// Identifier assigned by the server that represents the [Player]'s
        /// connection.
        client_id: u8,
    },
    Disconnected,
}

/// One participant of the match, identified by [PlayerGlobalId].
pub struct Player {
    pub id: PlayerGlobalId,
    pub connection_status: ConnectionStatus,
    pub name: Vec<u8>,
    pub team: Option<Team>,
    pub class: Option<Class>,
    pub stats: (i32, i32, i32),
    pub kill_streaks: Vec<KillStreak>,
    pub weapon_breakdown: Vec<WeaponStat>,
    pub mortality: Vec<MortalityChange>,
}

impl Player {
    pub fn new(id: PlayerGlobalId) -> (r: Player)
        ensures
            r.id == id,
            r.connection_status == ConnectionStatus::Disconnected,
            r.name@.len() == 0,
            r.team is None,
            r.class is None,
            r.stats == (0i32, 0i32, 0i32),
            r.kill_streaks@.len() == 0,
            r.weapon_breakdown@.len() == 0,
            r.mortality@.len() == 0,
    {
        Player {
            id,
            connection_status: ConnectionStatus::Disconnected,
            name: Vec::new(),
            team: None,
            class: None,
            stats: (0, 0, 0),
            kill_streaks: Vec::new(),
            weapon_breakdown: Vec::new(),
            mortality: Vec::new(),
        }
    }

    pub fn with_connection_status(&mut self, connection_status: ConnectionStatus)
        ensures
            *final(self) == (Player { connection_status, ..*old(self) }),
    {
        self.connection_status = connection_status;
    }

    pub fn with_name(&mut self, name: Vec<u8>)
        ensures
            *final(self) == (Player { name, ..*old(self) }),
    {
        self.name = name;
    }

    pub fn with_team(&mut self, team: Option<Team>)
        ensures
            *final(self) == (Player { team, ..*old(self) }),
    {
        self.team = team;
    }
}

/// The classic rendered Steam identity, held as ASCII bytes.
#[derive(Clone, Debug, PartialEq, Eq)]
pub struct SteamId(pub Vec<u8>);

/// The least 64-bit Steam account identity; smaller decimal values are not
/// account identities.
pub const STEAM_ID64_BASE: u64 = 76561197960265728;

/// The decimal value of ASCII digits, or nothing when the bytes are empty,
/// hold a non-digit, or overflow 64 bits.
pub open spec fn spec_parse_u64(b: Seq<u8>) -> Option<u64>
    decreases b.len(),
{
    if b.len() == 0 {
        None
    } else if b.len() == 1 {
        if 48 <= b[0] <= 57 {
            Some((b[0] - 48) as u64)
        } else {
            None
        }
    } else {
        match spec_parse_u64(b.drop_last()) {
            Some(hi) => if 48 <= b.last() <= 57 && hi * 10 + (b.last() - 48) <= u64::MAX {
                Some((hi * 10 + (b.last() - 48)) as u64)
            } else {
                None
            },
            None => None,
        }
    }
}

fn parse_u64(b: &[u8]) -> (r: Option<u64>)
    ensures
        r == spec_parse_u64(b@),
{
    if b.len() == 0 {
        return None;
    }
    let mut acc: u64 = 0;
    let mut i: usize = 0;
    if b[0] < 48 || b[0] > 57 {
        proof {
            lemma_parse_u64_prefix_none(b@, 1);
        }
        return None;
    }
    acc = (b[0] - 48) as u64;
    i = 1;
    while i < b.len()
        invariant
            1 <= i <= b@.len(),
            spec_parse_u64(b@.subrange(0, i as int)) == Some(acc),
        decreases b@.len() - i,
    {
        let d = b[i];
        proof {
            assert(b@.subrange(0, i + 1).drop_last() =~= b@.subrange(0, i as int));
            assert(b@.subrange(0, i + 1).last() == b@[i as int]);
        }
        if d < 48 || d > 57 {
            proof {
                lemma_parse_u64_prefix_none(b@, i + 1);
            }
            return None;
        }
        if acc > (u64::MAX - (d - 48) as u64) / 10 {
            proof {
                lemma_parse_u64_prefix_none(b@, i + 1);
            }
            return None;
        }
        acc = acc * 10 + (d - 48) as u64;
        i = i + 1;
    }
    proof {
        assert(b@.subrange(0, b@.len() as int) =~= b@);
    }
    Some(acc)
}

/// Once a prefix fails to parse, the whole sequence fails.
proof fn lemma_parse_u64_prefix_none(b: Seq<u8>, n: int)
    requires
        0 < n <= b.len(),
        spec_parse_u64(b.subrange(0, n)) is None,
    ensures
        spec_parse_u64(b) is None,
    decreases b.len() - n,
{
    if n < b.len() {
        assert(b.subrange(0, n + 1).drop_last() =~= b.subrange(0, n));
        lemma_parse_u64_prefix_none(b, n + 1);
    } else {
        assert(b.subrange(0, n) =~= b);
    }
}

/// The decimal digits of a 64-bit value, most significant first.
pub open spec fn spec_u64_dec(n: u64) -> Seq<u8>
    decreases n,
{
    if n < 10 {
        seq![(48 + n) as u8]
    } else {
        spec_u64_dec((n / 10) as u64).push((48 + n % 10) as u8)
    }
}

/// Appends the decimal digits of `n`.
fn push_u64_dec(n: u64, out: &mut Vec<u8>)
    ensures
        final(out)@ == old(out)@ + spec_u64_dec(n),
    decreases n,
{
    if n < 10 {
        out.push(48 + n as u8);
        proof {
            assert(out@ =~= old(out)@ + spec_u64_dec(n));
        }
    } else {
        push_u64_dec(n / 10, out);
        out.push(48 + (n % 10) as u8);
        proof {
            assert(out@ =~= old(out)@ + spec_u64_dec(n));
        }
    }
}

/// The ASCII bytes of `STEAM_0:`.
pub open spec fn spec_steam_prefix() -> Seq<u8> {
    seq![83u8, 84u8, 69u8, 65u8, 77u8, 95u8, 48u8, 58u8]
}

/// The rendered classic identity of a 64-bit account value:
/// `STEAM_0:Y:Z` where `Y` is the low bit and `Z` the rest of the offset from
/// [STEAM_ID64_BASE].
pub open spec fn spec_steam_id_render(id64: u64) -> Seq<u8> {
    spec_steam_prefix() + spec_u64_dec(((id64 - STEAM_ID64_BASE) % 2) as u64) + seq![58u8]
        + spec_u64_dec(((id64 - STEAM_ID64_BASE) / 2) as u64)
}

impl SteamId {
    /// Derives the rendered Steam identity from a global id.
    ///
    /// The projection exists exactly when the id is a decimal 64-bit value no
    /// smaller than [STEAM_ID64_BASE].
    pub fn try_from_global_id(value: &PlayerGlobalId) -> (r: Option<SteamId>)
        ensures
            (match spec_parse_u64(value.0@) {
                Some(id64) => if id64 >= STEAM_ID64_BASE {
                    r matches Some(s) && s.0@ == spec_steam_id_render(id64)
                } else {
                    r is None
                },
                None => r is None,
            }),
    {
        let id64 = match parse_u64(value.0.as_slice()) {
            Some(v) => v,
            None => {
                return None;
            },
        };
        if id64 < STEAM_ID64_BASE {
            return None;
        }
        let account = id64 - STEAM_ID64_BASE;
        let mut out: Vec<u8> = Vec::new();
        out.push(83);
        out.push(84);
        out.push(69);
        out.push(65);
        out.push(77);
        out.push(95);
        out.push(48);
        out.push(58);
        proof {
            assert(out@ =~= spec_steam_prefix());
        }
        push_u64_dec(account % 2, &mut out);
        out.push(58);
        push_u64_dec(account / 2, &mut out);
        proof {
            assert(out@ =~= spec_steam_id_render(id64));
        }
        Some(SteamId(out))
    }
}

// ---------------------------------------------------------------------------
// The userinfo blob: a backslash-delimited `\key\value\...` byte string
// ---------------------------------------------------------------------------

/// Bytes stripped from both ends of a userinfo blob before splitting.
pub open spec fn spec_is_sep(b: u8) -> bool {
    b == 0 || b == 92
}

/// A userinfo blob with the NUL and backslash padding stripped from both
/// ends.
pub open spec fn spec_trim_info(b: Seq<u8>) -> Seq<u8>
    decreases b.len(),
{
    if b.len() > 0 && spec_is_sep(b[0]) {
        spec_trim_info(b.drop_first())
    } else if b.len() > 0 && spec_is_sep(b.last()) {
        spec_trim_info(b.drop_last())
    } else {
        b
    }
}

proof fn lemma_trim_info(b: Seq<u8>, lo: int, hi: int)
    requires
        0 <= lo <= hi <= b.len(),
        forall|j: int| 0 <= j < lo ==> spec_is_sep(#[trigger] b[j]),
        forall|j: int| hi <= j < b.len() ==> spec_is_sep(#[trigger] b[j]),
        lo < hi ==> !spec_is_sep(b[lo]) && !spec_is_sep(b[hi - 1]),
    ensures
        spec_trim_info(b) == b.subrange(lo, hi),
    decreases b.len(),
{
    if b.len() > 0 && spec_is_sep(b[0]) {
        if lo == hi {
            lemma_trim_info(b.drop_first(), 0, 0);
            assert(b.drop_first().subrange(0, 0) =~= b.subrange(lo, hi));
        } else {
            lemma_trim_info(b.drop_first(), lo - 1, hi - 1);
            assert(b.drop_first().subrange(lo - 1, hi - 1) =~= b.subrange(lo, hi));
        }
    } else if b.len() > 0 && spec_is_sep(b.last()) {
        if lo == hi {
            lemma_trim_info(b.drop_last(), lo, lo);
            assert(b.drop_last().subrange(lo, lo) =~= b.subrange(lo, hi));
        } else {
            lemma_trim_info(b.drop_last(), lo, hi);
            assert(b.drop_last().subrange(lo, hi) =~= b.subrange(lo, hi));
        }
    } else {
        assert(b =~= b.subrange(lo, hi));
    }
}

/// The first backslash at or after `i`, or the length when there is none.
pub open spec fn spec_sep_pos_from(b: Seq<u8>, i: int) -> int
    decreases b.len() - i when 0 <= i <= b.len()
{
    if i >= b.len() {
        b.len() as int
    } else if b[i] == 92 {
        i
    } else {
        spec_sep_pos_from(b, i + 1)
    }
}

proof fn lemma_sep_pos(b: Seq<u8>, i: int)
    requires
        0 <= i <= b.len(),
    ensures
        i <= spec_sep_pos_from(b, i) <= b.len(),
        spec_sep_pos_from(b, i) < b.len() ==> b[spec_sep_pos_from(b, i)] == 92,
        forall|j: int| i <= j < spec_sep_pos_from(b, i) ==> b[j] != 92,
    decreases b.len() - i,
{
    if i < b.len() && b[i] != 92 {
        lemma_sep_pos(b, i + 1);
    }
}

fn sep_pos(data: &[u8], start: usize) -> (r: usize)
    requires
        start <= data@.len(),
    ensures
        r == spec_sep_pos_from(data@, start as int),
        start <= r <= data@.len(),
{
    proof {
        lemma_sep_pos(data@, start as int);
    }
    let mut i: usize = start;
    while i < data.len()
        invariant
            start <= i <= data@.len(),
            spec_sep_pos_from(data@, start as int) == spec_sep_pos_from(data@, i as int),
        decreases data@.len() - i,
    {
        if data[i] == 92 {
            return i;
        }
        i = i + 1;
    }
    i
}

/// The fields of a trimmed userinfo blob: the segments between backslashes.
pub open spec fn spec_split_fields(b: Seq<u8>) -> Seq<Seq<u8>>
    decreases b.len(),
{
    let k = spec_sep_pos_from(b, 0);
    if 0 <= k < b.len() {
        seq![b.subrange(0, k)] + spec_split_fields(b.subrange(k + 1, b.len() as int))
    } else {
        seq![b]
    }
}

/// The byte sequences that a vector of byte vectors holds.
pub open spec fn spec_views_of(parts: Seq<Vec<u8>>) -> Seq<Seq<u8>> {
    parts.map_values(|v: Vec<u8>| v@)
}

fn split_fields(data: &[u8]) -> (r: Vec<Vec<u8>>)
    ensures
        spec_views_of(r@) == spec_split_fields(data@),
{
    let mut parts: Vec<Vec<u8>> = Vec::new();
    let mut pos: usize = 0;
    proof {
        assert(data@.subrange(0, data@.len() as int) =~= data@);
    }
    loop
        invariant_except_break
            0 <= pos <= data@.len(),
            spec_split_fields(data@) =~= spec_views_of(parts@) + spec_split_fields(
                data@.subrange(pos as int, data@.len() as int),
            ),
        ensures
            spec_views_of(parts@) =~= spec_split_fields(data@),
        decreases data@.len() - pos,
    {
        let k = sep_pos(data, pos);
        proof {
            lemma_sep_pos(data@, pos as int);
        }
        let segment = slice_to_vec(slice_subrange(data, pos, k));
        parts.push(segment);
        let ghost rest = data@.subrange(pos as int, data@.len() as int);
        proof {
            lemma_sep_pos(rest, 0);
            assert(rest.subrange(0, (k - pos) as int) =~= data@.subrange(pos as int, k as int));
            assert(spec_sep_pos_from(rest, 0) == k - pos) by {
                lemma_sep_pos_offset(data@, pos as int);
            }
            if k < data.len() {
                assert(rest.subrange(k - pos + 1, rest.len() as int) =~= data@.subrange(
                    k + 1,
                    data@.len() as int,
                ));
            }
        }
        if k == data.len() {
            break;
        }
        pos = k + 1;
    }
    parts
}

/// Searching a suffix for a backslash matches searching the whole from the
/// suffix's start.
proof fn lemma_sep_pos_offset(b: Seq<u8>, pos: int)
    requires
        0 <= pos <= b.len(),
    ensures
        spec_sep_pos_from(b.subrange(pos, b.len() as int), 0) == spec_sep_pos_from(b, pos) - pos,
    decreases b.len() - pos,
{
    let rest = b.subrange(pos, b.len() as int);
    if pos < b.len() && b[pos] != 92 {
        lemma_sep_pos_offset(b, pos + 1);
        assert(b.subrange(pos + 1, b.len() as int) =~= rest.subrange(1, rest.len() as int));
        lemma_sep_pos_shift(rest);
    }
}

/// Searching from index one matches searching the dropped-head sequence.
proof fn lemma_sep_pos_shift(b: Seq<u8>)
    requires
        b.len() > 0,
        b[0] != 92,
    ensures
        spec_sep_pos_from(b, 0) == spec_sep_pos_from(b.subrange(1, b.len() as int), 0) + 1,
    decreases b.len(),
{
    lemma_sep_pos_shift_from(b, 1);
}

proof fn lemma_sep_pos_shift_from(b: Seq<u8>, i: int)
    requires
        1 <= i <= b.len(),
    ensures
        spec_sep_pos_from(b, i) == spec_sep_pos_from(b.subrange(1, b.len() as int), i - 1) + 1,
    decreases b.len() - i,
{
    if i < b.len() && b[i] != 92 {
        lemma_sep_pos_shift_from(b, i + 1);
    }
}

/// The value of the last `\key\value` pair carrying `key`, scanning the
/// first `n` pairs.
pub open spec fn spec_lookup_field(parts: Seq<Seq<u8>>, key: Seq<u8>, n: int) -> Option<Seq<u8>>
    decreases n when n >= 0
{
    if n <= 0 {
        None
    } else if parts[2 * (n - 1)] == key {
        Some(parts[2 * (n - 1) + 1])
    } else {
        spec_lookup_field(parts, key, n - 1)
    }
}

/// The value carried for `key`, the last occurrence winning; the trailing
/// odd field, if any, belongs to no pair.
pub open spec fn spec_field(parts: Seq<Seq<u8>>, key: Seq<u8>) -> Option<Seq<u8>> {
    spec_lookup_field(parts, key, (parts.len() / 2) as int)
}

fn lookup_field<'a>(parts: &'a Vec<Vec<u8>>, key: &str) -> (r: Option<&'a Vec<u8>>)
    ensures
        match r {
            Some(v) => spec_field(spec_views_of(parts@), key.spec_bytes()) == Some(v@),
            None => spec_field(spec_views_of(parts@), key.spec_bytes()) is None,
        },
{
    let len = parts.len();
    let npairs = len / 2;
    let mut n = npairs;
    while n > 0
        invariant
            0 <= n <= npairs,
            len == parts@.len(),
            npairs == len / 2,
            spec_lookup_field(spec_views_of(parts@), key.spec_bytes(), npairs as int)
                == spec_lookup_field(spec_views_of(parts@), key.spec_bytes(), n as int),
        decreases n,
    {
        proof {
            assert(2 * (n as int - 1) + 1 < parts@.len());
        }
        if crate::decode::bytes_eq_str(parts[2 * (n - 1)].as_slice(), key) {
            return Some(&parts[2 * (n - 1) + 1]);
        }
        n = n - 1;
    }
    None
}

// ---------------------------------------------------------------------------
// Identity derivation
// ---------------------------------------------------------------------------

/// The lowercase ASCII hex digit of a value below sixteen.
pub open spec fn spec_hex_digit(v: u8) -> u8 {
    if v < 10 {
        (48 + v) as u8
    } else {
        (87 + v) as u8
    }
}

/// Byte `k` of the little-endian encoding of a 32-bit value.
pub open spec fn spec_le_byte(id: u32, k: int) -> u8 {
    if k == 0 {
        (id % 256) as u8
    } else if k == 1 {
        ((id / 256) % 256) as u8
    } else if k == 2 {
        ((id / 65536) % 256) as u8
    } else {
        ((id / 16777216) % 256) as u8
    }
}

/// The fallback identity for a player without a Steam id: the lowercase hex
/// of sixteen bytes, the connection id's little-endian bytes repeated four
/// times — the layout of a deterministic sixteen-byte identifier rendered
/// without hyphens.
pub open spec fn spec_uuid_hex(id: u32) -> Seq<u8> {
    Seq::new(
        32,
        |i: int|
            {
                let byte = spec_le_byte(id, (i / 2) % 4);
                if i % 2 == 0 {
                    spec_hex_digit(byte / 16)
                } else {
                    spec_hex_digit(byte % 16)
                }
            },
    )
}

fn uuid_hex(id: u32) -> (r: Vec<u8>)
    ensures
        r@ == spec_uuid_hex(id),
{
    let mut out: Vec<u8> = Vec::new();
    let mut i: usize = 0;
    while i < 32
        invariant
            0 <= i <= 32,
            out@.len() == i,
            forall|j: int| 0 <= j < i ==> out@[j] == spec_uuid_hex(id)[j],
        decreases 32 - i,
    {
        let bidx = (i / 2) % 4;
        let byte: u8 = if bidx == 0 {
            (id % 256) as u8
        } else if bidx == 1 {
            ((id / 256) % 256) as u8
        } else if bidx == 2 {
            ((id / 65536) % 256) as u8
        } else {
            ((id / 16777216) % 256) as u8
        };
        let v: u8 = if i % 2 == 0 {
            byte / 16
        } else {
            byte % 16
        };
        let digit: u8 = if v < 10 {
            48 + v
        } else {
            87 + v
        };
        out.push(digit);
        i = i + 1;
    }
    proof {
        assert(out@ =~= spec_uuid_hex(id));
    }
    out
}

/// The ASCII bytes of `Player `.
pub open spec fn spec_player_name_prefix() -> Seq<u8> {
    seq![80u8, 108u8, 97u8, 121u8, 101u8, 114u8, 32u8]
}

/// The display name used when the userinfo carries none: `Player ` followed
/// by the decimal connection id.
pub open spec fn spec_default_name(id: u32) -> Seq<u8> {
    spec_player_name_prefix() + spec_u64_dec(id as u64)
}

fn default_name(id: u32) -> (r: Vec<u8>)
    ensures
        r@ == spec_default_name(id),
{
    let mut out: Vec<u8> = Vec::new();
    out.push(80);
    out.push(108);
    out.push(97);
    out.push(121);
    out.push(101);
    out.push(114);
    out.push(32);
    proof {
        assert(out@ =~= spec_player_name_prefix());
    }
    push_u64_dec(id as u64, &mut out);
    out
}

// ---------------------------------------------------------------------------
// The identity update
// ---------------------------------------------------------------------------

/// The player's derived global id: the `*sid` field when present, else the
/// deterministic hex identity seeded by the connection id.
pub open spec fn spec_global_id_bytes(parts: Seq<Seq<u8>>, conn_id: u32) -> Seq<u8> {
    match spec_field(parts, "*sid".spec_bytes()) {
        Some(v) => v,
        None => spec_uuid_hex(conn_id),
    }
}

/// The player's display name: the `name` field when present, else the
/// default name.
pub open spec fn spec_player_name_bytes(parts: Seq<Seq<u8>>, conn_id: u32) -> Seq<u8> {
    match spec_field(parts, "name".spec_bytes()) {
        Some(v) => v,
        None => spec_default_name(conn_id),
    }
}

/// The team named by the `team` field, when present and recognizable.
pub open spec fn spec_team_field(parts: Seq<Seq<u8>>) -> Option<Team> {
    match spec_field(parts, "team".spec_bytes()) {
        Some(v) => Team::spec_from_name(v),
        None => None,
    }
}

/// Whether the blob marks a spectator-relay client, which the analysis
/// ignores entirely.
pub open spec fn spec_is_hltv(parts: Seq<Seq<u8>>) -> bool {
    spec_field(parts, "*hltv".spec_bytes()) == Some("1".spec_bytes())
}

/// `q` is `p` toggled to disconnected.
pub open spec fn spec_disconnected_of(p: Player, q: Player) -> bool {
    q == (Player { connection_status: ConnectionStatus::Disconnected, ..p })
}

/// `q` is `p` placed in slot `index` with a fresh name, its team overwritten
/// only when the blob names a recognizable one.
pub open spec fn spec_reconnected_of(
    p: Player,
    q: Player,
    index: u8,
    pname: Seq<u8>,
    tf: Option<Team>,
) -> bool {
    &&& q.id == p.id
    &&& q.connection_status == (ConnectionStatus::Connected { client_id: index })
    &&& q.name@ == pname
    &&& q.team == (if tf is Some {
        tf
    } else {
        p.team
    })
    &&& q.class == p.class
    &&& q.stats == p.stats
    &&& q.kill_streaks == p.kill_streaks
    &&& q.weapon_breakdown == p.weapon_breakdown
    &&& q.mortality == p.mortality
}

/// `q` is a first-seen player: default fields, connected to slot `index`.
pub open spec fn spec_new_connected(
    q: Player,
    gid: Seq<u8>,
    index: u8,
    pname: Seq<u8>,
    tf: Option<Team>,
) -> bool {
    &&& q.id.0@ == gid
    &&& q.connection_status == (ConnectionStatus::Connected { client_id: index })
    &&& q.name@ == pname
    &&& q.team == tf
    &&& q.class is None
    &&& q.stats == (0i32, 0i32, 0i32)
    &&& q.kill_streaks@.len() == 0
    &&& q.weapon_breakdown@.len() == 0
    &&& q.mortality@.len() == 0
}

/// What one engine user-info message does to the roster.
///
/// An empty blob disconnects the slot's occupant; a spectator-relay blob is
/// ignored; otherwise the identified player — created on first observation —
/// takes the slot, any previous occupant of the slot is toggled to
/// disconnected, and everyone else is untouched.
pub open spec fn spec_player_update(
    pre: AnalyzerState,
    post: AnalyzerState,
    index: u8,
    conn_id: u32,
    info: Seq<u8>,
) -> bool {
    let parts = spec_split_fields(spec_trim_info(info));
    let n0 = pre.players@.len() as int;
    if parts.len() / 2 == 0 {
        match crate::spec_find_connected(pre.players@, index) {
            Some(o) => {
                &&& post.players@.len() == n0
                &&& spec_disconnected_of(pre.players@[o], post.players@[o])
                &&& forall|j: int| 0 <= j < n0 && j != o ==> post.players@[j] == pre.players@[j]
            },
            None => post.players == pre.players,
        }
    } else if spec_is_hltv(parts) {
        post.players == pre.players
    } else {
        let gid = spec_global_id_bytes(parts, conn_id);
        let pname = spec_player_name_bytes(parts, conn_id);
        let tf = spec_team_field(parts);
        let existing = crate::spec_find_by_id(pre.players@, gid);
        let occupant = crate::spec_find_connected(pre.players@, index);
        let target: int = match existing {
            Some(e) => e,
            None => n0,
        };
        &&& post.players@.len() == n0 + (if existing is Some {
            0int
        } else {
            1
        })
        &&& forall|j: int|
            0 <= j < n0 && j != target && occupant != Some(j) ==> post.players@[j]
                == pre.players@[j]
        &&& (occupant matches Some(o) ==> (o == target || spec_disconnected_of(
            pre.players@[o],
            post.players@[o],
        )))
        &&& (match existing {
            Some(e) => spec_reconnected_of(pre.players@[e], post.players@[e], index, pname, tf),
            None => spec_new_connected(post.players@[n0], gid, index, pname, tf),
        })
    }
}

/// A player that is not connected to slot `cid` does not change what the
/// slot search finds.
proof fn lemma_find_connected_push(players: Seq<Player>, p: Player, cid: u8)
    requires
        crate::spec_client_of(p) != Some(cid),
    ensures
        crate::spec_find_connected(players.push(p), cid) == crate::spec_find_connected(
            players,
            cid,
        ),
{
    lemma_find_connected_push_from(players, p, cid, 0);
}

proof fn lemma_find_connected_push_from(players: Seq<Player>, p: Player, cid: u8, i: int)
    requires
        crate::spec_client_of(p) != Some(cid),
        0 <= i <= players.len(),
    ensures
        crate::spec_find_connected_from(players.push(p), cid, i)
            == crate::spec_find_connected_from(players, cid, i),
    decreases players.len() - i,
{
    if i < players.len() {
        lemma_find_connected_push_from(players, p, cid, i + 1);
    } else {
        assert(players.push(p)[i] == p);
        assert(crate::spec_find_connected_from(players.push(p), cid, i + 1) is None);
        assert(crate::spec_find_connected_from(players, cid, i) is None);
    }
}

/// Reacts to engine user-info messages: the player-identity update.
///
/// Players are created on first observation and never removed; slot churn
/// only toggles connection status, so identities stay stable across
/// disconnect and reconnect.
pub fn use_player_updates(state: &mut AnalyzerState, event: &AnalyzerEvent)
    requires
        old(state).wf(),
    ensures
        final(state).wf(),
        final(state).current_time == old(state).current_time,
        final(state).rounds == old(state).rounds,
        final(state).team_scores == old(state).team_scores,
        final(state).clan_match_detection == old(state).clan_match_detection,
        forall|n: int|
            #[trigger] crate::spec_breakdown_counters_bounded(*old(state), n)
                ==> crate::spec_breakdown_counters_bounded(*final(state), n),
        (match event {
            AnalyzerEvent::SvcUpdateUserInfo { index, id, user_info } => spec_player_update(
                *old(state),
                *final(state),
                *index,
                *id,
                user_info@,
            ),
            _ => final(state).players == old(state).players,
        }),
{
    if let AnalyzerEvent::SvcUpdateUserInfo { index, id, user_info } = event {
        player_update(state, *index, *id, user_info);
    }
}

/// The body of the identity update for one user-info message.
#[verifier::rlimit(100)]
fn player_update(state: &mut AnalyzerState, index: u8, conn_id: u32, user_info: &Vec<u8>)
    requires
        old(state).wf(),
    ensures
        final(state).wf(),
        final(state).current_time == old(state).current_time,
        final(state).rounds == old(state).rounds,
        final(state).team_scores == old(state).team_scores,
        final(state).clan_match_detection == old(state).clan_match_detection,
        forall|n: int|
            #[trigger] crate::spec_breakdown_counters_bounded(*old(state), n)
                ==> crate::spec_breakdown_counters_bounded(*final(state), n),
        spec_player_update(*old(state), *final(state), index, conn_id, user_info@),
{
    let data = user_info.as_slice();
    let mut lo: usize = 0;
    let mut hi: usize = data.len();
    while lo < data.len() && (data[lo] == 0 || data[lo] == 92)
        invariant
            0 <= lo <= data@.len(),
            forall|j: int| 0 <= j < lo ==> spec_is_sep(#[trigger] data@[j]),
        decreases data@.len() - lo,
    {
        lo = lo + 1;
    }
    if lo == data.len() {
        hi = lo;
    } else {
        while hi > lo && (data[hi - 1] == 0 || data[hi - 1] == 92)
            invariant
                lo <= hi <= data@.len(),
                forall|j: int| hi <= j < data@.len() ==> spec_is_sep(#[trigger] data@[j]),
            decreases hi,
        {
            hi = hi - 1;
        }
    }
    proof {
        lemma_trim_info(data@, lo as int, hi as int);
    }
    let trimmed = slice_subrange(data, lo, hi);
    let parts = split_fields(trimmed);
    let npairs = parts.len() / 2;
    let ghost parts_v = spec_views_of(parts@);
    if npairs == 0 {
        if let Some(o) = state.find_player_index_by_client(index) {
            let occupant = &mut state.players[o];
            occupant.connection_status = ConnectionStatus::Disconnected;
        }
        return;
    }
    if let Some(v) = lookup_field(&parts, "*hltv") {
        if crate::decode::bytes_eq_str(v.as_slice(), "1") {
            return;
        }
    }
    let gid_vec: Vec<u8> = match lookup_field(&parts, "*sid") {
        Some(v) => slice_to_vec(v.as_slice()),
        None => uuid_hex(conn_id),
    };
    let pname: Vec<u8> = match lookup_field(&parts, "name") {
        Some(v) => slice_to_vec(v.as_slice()),
        None => default_name(conn_id),
    };
    let team_field: Option<Team> = match lookup_field(&parts, "team") {
        Some(v) => Team::from_name(v.as_slice()),
        None => None,
    };
    let gid = PlayerGlobalId(gid_vec);
    let n0 = state.players.len();
    let existing = state.find_player_index_by_id(&gid);
    let target: usize = match existing {
        Some(e) => e,
        None => {
            let fresh = Player::new(gid);
            state.players.push(fresh);
            n0
        },
    };
    let occupant = state.find_player_index_by_client(index);
    proof {
        if existing is None {
            lemma_find_connected_push(old(state).players@, state.players@[n0 as int], index);
        }
    }
    if let Some(o) = occupant {
        if o != target {
            let flushed = &mut state.players[o];
            flushed.connection_status = ConnectionStatus::Disconnected;
        }
    }
    let connected = &mut state.players[target];
    connected.connection_status = ConnectionStatus::Connected { client_id: index };
    connected.name = pname;
    if let Some(t) = team_field {
        connected.team = Some(t);
    }
    proof {
        let pre = *old(state);
        let post = *state;
        crate::lemma_find_connected(pre.players@, index, 0);
        crate::lemma_find_by_id(pre.players@, spec_global_id_bytes(parts_v, conn_id), 0);
        assert(spec_player_update(pre, post, index, conn_id, user_info@));
        assert forall|i: int|
            0 <= i < post.players@.len() implies crate::spec_player_wf(
            #[trigger] post.players@[i],
            post.current_time,
        ) by {
            if i < pre.players@.len() {
                assert(crate::spec_player_wf(pre.players@[i], pre.current_time));
            }
        }
        assert forall|i: int, j: int|
            0 <= i < j < post.players@.len() implies (#[trigger] post.players@[i]).id.0@ != (
            #[trigger] post.players@[j]).id.0@ by {}
        assert forall|i: int, j: int|
            0 <= i < j < post.players@.len() && crate::spec_client_of(
                #[trigger] post.players@[i],
            ) is Some implies crate::spec_client_of(post.players@[i]) != crate::spec_client_of(
            #[trigger] post.players@[j],
        ) by {}
    }
}

} // verus!
