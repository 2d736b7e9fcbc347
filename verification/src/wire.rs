//! Framing of the binary messages exchanged with the relay server.
//!
//! Every message starts with one tag byte. Player ids are two bytes, most
//! significant first. Payloads (serialized game values) follow the header
//! unchanged; turning them into values is left to the caller.
use vstd::prelude::*;
use vstd::string::*;

verus! {

/// Relay → any: the relay refused something; the rest is a UTF-8 text.
pub const SERVER_ERROR: u8 = 0;

/// Relay → joining client: player id and rule variation.
pub const HAND_SHAKE_RESPONSE: u8 = 1;

/// Relay → host: a client joined; its id follows.
pub const NEW_CLIENT: u8 = 2;

/// Relay → host: a client left; its id follows.
pub const CLIENT_DISCONNECTS: u8 = 3;

/// Client → host (the relay inserts the sender's id after the tag): a move
/// request.
pub const SERVER_RPC: u8 = 4;

/// Host → relay: disconnect the player whose id follows.
pub const CLIENT_GETS_KICKED: u8 = 5;

/// Host → clients: one or more serialized deltas, back to back.
pub const DELTA_UPDATE: u8 = 6;

/// Host → new client: the full view state.
pub const FULL_UPDATE: u8 = 7;

/// Host → all clients: the full view state of a new round.
pub const RESET: u8 = 8;

/// Host → relay: the host leaves; the room closes.
pub const SERVER_DISCONNECTS: u8 = 9;

/// Client → relay: this client leaves.
pub const CLIENT_DISCONNECTS_SELF: u8 = 10;

/// Bytes of a player id on the wire.
pub const CLIENT_ID_SIZE: usize = 2;

/// A local structure that gets completed by the handshake.
#[derive(Clone, Copy, Debug, PartialEq, Eq, Structural)]
pub struct GameSetting {
    pub player_id: u16,
    pub rule_variation: u16,
}

/// Contains the commands that go to the hosting client.
#[derive(Clone, Debug)]
pub enum ToServerCommands<ServerRpcPayload> {
    ClientJoin(u16),
    ClientLeft(u16),
    Rpc(u16, ServerRpcPayload),
}

/// An update that the host sends to a client, still serialized.
#[derive(Clone, Debug)]
pub enum UpdateFrame<Bytes> {
    /// Zero or more serialized deltas, back to back.
    Deltas(Bytes),
    /// One serialized view state.
    Full(Bytes),
}

/// A 16-bit value from its two bytes, most significant first.
pub open spec fn be_u16(hi: u8, lo: u8) -> u16 {
    (hi as int * 256 + lo as int) as u16
}

/// The two bytes of a 16-bit value, most significant first.
pub open spec fn be_bytes(v: u16) -> Seq<u8> {
    seq![(v / 256) as u8, (v % 256) as u8]
}

/// The decimal digits of `n`, as `{:?}` prints an unsigned integer.
pub open spec fn decimal(n: nat) -> Seq<char>
    decreases n,
{
    if n < 10 {
        seq![(48 + n) as char]
    } else {
        decimal(n / 10).push((48 + n % 10) as char)
    }
}

/// The text that a lossy UTF-8 decoding of `bytes` gives.
pub uninterp spec fn utf8_lossy(bytes: Seq<u8>) -> Seq<char>;

/// The bytes after the tag.
pub open spec fn body(m: Seq<u8>) -> Seq<u8> {
    m.subrange(1, m.len() as int)
}

/// The error text for a message whose tag is not expected.
pub open spec fn unknown_message_text(tag: u8) -> Seq<char> {
    "Unknown message received: "@ + decimal(tag as nat)
}

/// The error text for an unexpected tag during the handshake.
pub open spec fn unknown_handshake_text(tag: u8) -> Seq<char> {
    "Unknown message received in handshake: "@ + decimal(tag as nat)
}

/// The concatenation of all chunks, in order.
pub open spec fn concat_all(chunks: Seq<Seq<u8>>) -> Seq<u8>
    decreases chunks.len(),
{
    if chunks.len() == 0 {
        seq![]
    } else {
        concat_all(chunks.drop_last()) + chunks.last()
    }
}

/// The views of byte vectors.
pub open spec fn views(v: Seq<Vec<u8>>) -> Seq<Seq<u8>> {
    v.map_values(|b: Vec<u8>| b@)
}

// ---------------------------------------------------------------------------
// Messages that this side sends.
// ---------------------------------------------------------------------------

/// Host → relay: kick `player_id`.
pub open spec fn kick_bytes(player_id: u16) -> Seq<u8> {
    seq![CLIENT_GETS_KICKED] + be_bytes(player_id)
}

/// Host → clients: the serialized deltas, back to back.
pub open spec fn delta_bytes(serialized: Seq<Seq<u8>>) -> Seq<u8> {
    seq![DELTA_UPDATE] + concat_all(serialized)
}

/// Host → client: the serialized full state.
pub open spec fn full_sync_bytes(state: Seq<u8>) -> Seq<u8> {
    seq![FULL_UPDATE] + state
}

/// Host → all clients: the serialized state of a new round.
pub open spec fn reset_bytes(state: Seq<u8>) -> Seq<u8> {
    seq![RESET] + state
}

/// Client → host: a serialized move request.
pub open spec fn rpc_bytes(payload: Seq<u8>) -> Seq<u8> {
    seq![SERVER_RPC] + payload
}

/// Leaving the room, as host or as client.
pub open spec fn disconnect_bytes(as_server: bool) -> Seq<u8> {
    if as_server {
        seq![SERVER_DISCONNECTS]
    } else {
        seq![CLIENT_DISCONNECTS_SELF]
    }
}

// ---------------------------------------------------------------------------
// Messages that this side receives.
// ---------------------------------------------------------------------------

/// A message to the host carries every byte its tag announces.
pub open spec fn host_message_complete(m: Seq<u8>) -> bool {
    &&& m.len() >= 1
    &&& (m[0] == NEW_CLIENT || m[0] == CLIENT_DISCONNECTS || m[0] == SERVER_RPC) ==> m.len() >= 3
}

/// A handshake reply carries every byte its tag announces.
pub open spec fn handshake_complete(m: Seq<u8>) -> bool {
    &&& m.len() >= 1
    &&& m[0] == HAND_SHAKE_RESPONSE ==> m.len() >= 5
}

/// What a message to the host means.
pub open spec fn host_message_meaning(m: Seq<u8>) -> Result<ToServerCommands<Seq<u8>>, Seq<char>> {
    let tag = m[0];
    if tag == SERVER_ERROR {
        Err(utf8_lossy(body(m)))
    } else if tag == NEW_CLIENT {
        Ok(ToServerCommands::ClientJoin(be_u16(m[1], m[2])))
    } else if tag == CLIENT_DISCONNECTS {
        Ok(ToServerCommands::ClientLeft(be_u16(m[1], m[2])))
    } else if tag == SERVER_RPC {
        Ok(ToServerCommands::Rpc(be_u16(m[1], m[2]), m.subrange(3, m.len() as int)))
    } else {
        Err(unknown_message_text(tag))
    }
}

/// What a message to a client means.
pub open spec fn client_message_meaning(m: Seq<u8>) -> Result<UpdateFrame<Seq<u8>>, Seq<char>> {
    let tag = m[0];
    if tag == SERVER_ERROR {
        Err(utf8_lossy(body(m)))
    } else if tag == DELTA_UPDATE {
        Ok(UpdateFrame::Deltas(body(m)))
    } else if tag == FULL_UPDATE || tag == RESET {
        Ok(UpdateFrame::Full(body(m)))
    } else {
        Err(unknown_message_text(tag))
    }
}

/// What a handshake reply means.
pub open spec fn handshake_meaning(m: Seq<u8>) -> Result<GameSetting, Seq<char>> {
    let tag = m[0];
    if tag == SERVER_ERROR {
        Err(utf8_lossy(body(m)))
    } else if tag == HAND_SHAKE_RESPONSE {
        Ok(GameSetting { player_id: be_u16(m[1], m[2]), rule_variation: be_u16(m[3], m[4]) })
    } else {
        Err(unknown_handshake_text(tag))
    }
}

/// What a run of messages to the host means: the commands of all of them in
/// order, or the error of the first one that is not a command.
pub open spec fn host_messages_meaning(ms: Seq<Seq<u8>>) -> Result<
    Seq<ToServerCommands<Seq<u8>>>,
    Seq<char>,
>
    decreases ms.len(),
{
    if ms.len() == 0 {
        Ok(seq![])
    } else {
        match host_messages_meaning(ms.drop_last()) {
            Err(e) => Err(e),
            Ok(cs) => match host_message_meaning(ms.last()) {
                Ok(c) => Ok(cs.push(c)),
                Err(e) => Err(e),
            },
        }
    }
}

/// What a run of messages to a client means: the updates of all of them in
/// order, or the error of the first one that is not an update.
pub open spec fn client_messages_meaning(ms: Seq<Seq<u8>>) -> Result<
    Seq<UpdateFrame<Seq<u8>>>,
    Seq<char>,
>
    decreases ms.len(),
{
    if ms.len() == 0 {
        Ok(seq![])
    } else {
        match client_messages_meaning(ms.drop_last()) {
            Err(e) => Err(e),
            Ok(us) => match client_message_meaning(ms.last()) {
                Ok(u) => Ok(us.push(u)),
                Err(e) => Err(e),
            },
        }
    }
}

/// The view of a command with a byte payload.
pub open spec fn command_view(c: ToServerCommands<Vec<u8>>) -> ToServerCommands<Seq<u8>> {
    match c {
        ToServerCommands::ClientJoin(id) => ToServerCommands::ClientJoin(id),
        ToServerCommands::ClientLeft(id) => ToServerCommands::ClientLeft(id),
        ToServerCommands::Rpc(id, p) => ToServerCommands::Rpc(id, p@),
    }
}

/// The view of an update frame.
pub open spec fn frame_view(u: UpdateFrame<Vec<u8>>) -> UpdateFrame<Seq<u8>> {
    match u {
        UpdateFrame::Deltas(b) => UpdateFrame::Deltas(b@),
        UpdateFrame::Full(b) => UpdateFrame::Full(b@),
    }
}

/// The view of a decoding result.
pub open spec fn result_view<T, V>(r: Result<T, String>, f: spec_fn(T) -> V) -> Result<V, Seq<char>> {
    match r {
        Ok(t) => Ok(f(t)),
        Err(e) => Err(e@),
    }
}

// ---------------------------------------------------------------------------
// Texts.
// ---------------------------------------------------------------------------

/// Calls `String::from_utf8_lossy` and takes ownership of the text. The
/// result is named by `utf8_lossy`; for ASCII bytes it is those bytes read
/// as characters, as std documents for valid UTF-8. What it makes of other
/// bytes is left to the name.
#[verifier::external_body]
fn lossy_text(bytes: &[u8]) -> (text: String)
    ensures
        text@ == utf8_lossy(bytes@),
        (forall|i: int| 0 <= i < bytes@.len() ==> #[trigger] bytes@[i] < 128) ==> text@ == bytes@.map_values(
            |b: u8| b as char,
        ),
{
    String::from_utf8_lossy(bytes).to_string()
}

/// The decimal digit `d` as text.
fn digit_text(d: u8) -> (text: &'static str)
    requires
        d < 10,
    ensures
        text@ == seq![(48 + d) as char],
{
    match d {
        0 => {
            proof {
                reveal_strlit("0");
            }
            "0"
        },
        1 => {
            proof {
                reveal_strlit("1");
            }
            "1"
        },
        2 => {
            proof {
                reveal_strlit("2");
            }
            "2"
        },
        3 => {
            proof {
                reveal_strlit("3");
            }
            "3"
        },
        4 => {
            proof {
                reveal_strlit("4");
            }
            "4"
        },
        5 => {
            proof {
                reveal_strlit("5");
            }
            "5"
        },
        6 => {
            proof {
                reveal_strlit("6");
            }
            "6"
        },
        7 => {
            proof {
                reveal_strlit("7");
            }
            "7"
        },
        8 => {
            proof {
                reveal_strlit("8");
            }
            "8"
        },
        _ => {
            proof {
                reveal_strlit("9");
            }
            "9"
        },
    }
}

/// `prefix` followed by the decimal digits of `tag`, as `{:?}` prints it.
fn text_with_number(prefix: &str, tag: u8) -> (text: String)
    ensures
        text@ == prefix@ + decimal(tag as nat),
{
    proof {
        reveal_with_fuel(decimal, 3);
    }
    let mut text = String::from_str(prefix);
    if tag >= 100 {
        text.append(digit_text(tag / 100));
    }
    if tag >= 10 {
        text.append(digit_text((tag / 10) % 10));
    }
    text.append(digit_text(tag % 10));
    proof {
        if tag >= 100 {
            assert(decimal((tag / 10) as nat) == decimal((tag / 100) as nat).push(
                (48 + (tag / 10) % 10) as char,
            ));
        }
    }
    assert(text@ =~= prefix@ + decimal(tag as nat));
    text
}

// ---------------------------------------------------------------------------
// Byte helpers.
// ---------------------------------------------------------------------------

/// Appends `src[start..]` to `out`.
fn append_from(out: &mut Vec<u8>, src: &[u8], start: usize)
    requires
        start <= src@.len(),
    ensures
        final(out)@ == old(out)@ + src@.subrange(start as int, src@.len() as int),
{
    let ghost before = out@;
    let mut i = start;
    while i < src.len()
        invariant
            start <= i <= src@.len(),
            out@ == before + src@.subrange(start as int, i as int),
        decreases src@.len() - i,
    {
        out.push(src[i]);
        i = i + 1;
        assert(out@ =~= before + src@.subrange(start as int, i as int));
    }
}

/// The 16-bit value stored most significant first at `at`.
fn read_be_u16(m: &[u8], at: usize) -> (v: u16)
    requires
        at + 2 <= m@.len(),
    ensures
        v == be_u16(m@[at as int], m@[at as int + 1]),
{
    (m[at] as u16) * 256 + (m[at + 1] as u16)
}

/// Reading back the two bytes of a 16-bit value gives the value.
pub proof fn lemma_be_u16_round_trip(v: u16)
    ensures
        be_bytes(v).len() == 2,
        be_u16(be_bytes(v)[0], be_bytes(v)[1]) == v,
{
}

// ---------------------------------------------------------------------------
// Building messages.
// ---------------------------------------------------------------------------

/// Host → relay: kick `player_id`.
pub fn kick_player_message(player_id: u16) -> (msg: Vec<u8>)
    ensures
        msg@ == kick_bytes(player_id),
{
    let mut msg: Vec<u8> = Vec::with_capacity(1 + CLIENT_ID_SIZE);
    msg.push(CLIENT_GETS_KICKED);
    msg.push((player_id / 256) as u8);
    msg.push((player_id % 256) as u8);
    assert(msg@ =~= kick_bytes(player_id));
    msg
}

/// Host → clients: the serialized deltas, back to back, after the tag.
pub fn delta_info_message(serialized: &Vec<Vec<u8>>) -> (msg: Vec<u8>)
    ensures
        msg@ == delta_bytes(views(serialized@)),
{
    let mut msg: Vec<u8> = Vec::new();
    msg.push(DELTA_UPDATE);
    let mut k: usize = 0;
    while k < serialized.len()
        invariant
            k <= serialized@.len(),
            msg@ == seq![DELTA_UPDATE] + concat_all(views(serialized@).take(k as int)),
        decreases serialized@.len() - k,
    {
        let ghost before = msg@;
        append_from(&mut msg, serialized[k].as_slice(), 0);
        proof {
            let vs = views(serialized@);
            assert(vs.take(k + 1).drop_last() =~= vs.take(k as int));
            assert(serialized[k as int]@.subrange(0, serialized[k as int]@.len() as int)
                =~= serialized[k as int]@);
            assert(msg@ =~= seq![DELTA_UPDATE] + concat_all(vs.take(k + 1)));
        }
        k = k + 1;
    }
    assert(views(serialized@).take(serialized@.len() as int) =~= views(serialized@));
    msg
}

/// A message made of `tag` and then `payload`.
fn tagged(tag: u8, payload: &[u8]) -> (msg: Vec<u8>)
    ensures
        msg@ == seq![tag] + payload@,
{
    let mut msg: Vec<u8> = Vec::new();
    msg.push(tag);
    append_from(&mut msg, payload, 0);
    assert(payload@.subrange(0, payload@.len() as int) =~= payload@);
    msg
}

/// Host → client: the serialized full state.
pub fn full_sync_message(state: &[u8]) -> (msg: Vec<u8>)
    ensures
        msg@ == full_sync_bytes(state@),
{
    tagged(FULL_UPDATE, state)
}

/// Host → all clients: the serialized state of a new round; clients treat it
/// as a full update.
pub fn reset_message(state: &[u8]) -> (msg: Vec<u8>)
    ensures
        msg@ == reset_bytes(state@),
{
    tagged(RESET, state)
}

/// Client → host: a serialized move request.
pub fn rpc_message(payload: &[u8]) -> (msg: Vec<u8>)
    ensures
        msg@ == rpc_bytes(payload@),
{
    tagged(SERVER_RPC, payload)
}

/// Leaving the room, as host or as client.
pub fn disconnect_message(as_server: bool) -> (msg: Vec<u8>)
    ensures
        msg@ == disconnect_bytes(as_server),
{
    let msg = if as_server {
        vec![SERVER_DISCONNECTS]
    } else {
        vec![CLIENT_DISCONNECTS_SELF]
    };
    assert(msg@ =~= disconnect_bytes(as_server));
    msg
}

// ---------------------------------------------------------------------------
// Reading messages.
// ---------------------------------------------------------------------------

/// Whether a message to the host carries every byte its tag announces.
pub fn is_complete_host_message(m: &[u8]) -> (complete: bool)
    ensures
        complete == host_message_complete(m@),
{
    if m.len() < 1 {
        return false;
    }
    let tag = m[0];
    if tag == NEW_CLIENT || tag == CLIENT_DISCONNECTS || tag == SERVER_RPC {
        m.len() >= 3
    } else {
        true
    }
}

/// Whether a handshake reply carries every byte its tag announces.
pub fn is_complete_handshake(m: &[u8]) -> (complete: bool)
    ensures
        complete == handshake_complete(m@),
{
    if m.len() < 1 {
        return false;
    }
    if m[0] == HAND_SHAKE_RESPONSE {
        m.len() >= 5
    } else {
        true
    }
}

/// Reads one message sent to the host.
pub fn decode_host_message(m: &[u8]) -> (r: Result<ToServerCommands<Vec<u8>>, String>)
    requires
        host_message_complete(m@),
    ensures
        result_view(r, |c: ToServerCommands<Vec<u8>>| command_view(c)) == host_message_meaning(m@),
{
    let tag = m[0];
    if tag == SERVER_ERROR {
        Err(lossy_text(slice_from(m, 1).as_slice()))
    } else if tag == NEW_CLIENT {
        Ok(ToServerCommands::ClientJoin(read_be_u16(m, 1)))
    } else if tag == CLIENT_DISCONNECTS {
        Ok(ToServerCommands::ClientLeft(read_be_u16(m, 1)))
    } else if tag == SERVER_RPC {
        let client_id = read_be_u16(m, 1);
        let mut payload: Vec<u8> = Vec::new();
        append_from(&mut payload, m, 3);
        assert(payload@ =~= m@.subrange(3, m@.len() as int));
        Ok(ToServerCommands::Rpc(client_id, payload))
    } else {
        Err(text_with_number("Unknown message received: ", tag))
    }
}

/// Reads all messages sent to the host, in order, stopping at the first one
/// that carries an error or an unknown tag.
pub fn decode_host_messages(ms: &Vec<Vec<u8>>) -> (r: Result<Vec<ToServerCommands<Vec<u8>>>, String>)
    requires
        forall|i: int| 0 <= i < ms@.len() ==> host_message_complete(#[trigger] ms@[i]@),
    ensures
        result_view(r, |v: Vec<ToServerCommands<Vec<u8>>>| v@.map_values(|c: ToServerCommands<Vec<u8>>| command_view(c)))
            == host_messages_meaning(views(ms@)),
        r is Ok ==> r->Ok_0@.len() == ms@.len() && forall|i: int|
            0 <= i < ms@.len() ==> Ok::<ToServerCommands<Seq<u8>>, Seq<char>>(
                command_view(#[trigger] r->Ok_0@[i]),
            ) == host_message_meaning(ms@[i]@),
{
    proof {
        lemma_host_messages_in_order(views(ms@));
    }
    let mut result: Vec<ToServerCommands<Vec<u8>>> = Vec::new();
    let mut k: usize = 0;
    assert(views(ms@).take(0) =~= Seq::<Seq<u8>>::empty());
    assert(result@.map_values(|c: ToServerCommands<Vec<u8>>| command_view(c)) =~= seq![]);
    while k < ms.len()
        invariant
            k <= ms@.len(),
            forall|i: int| 0 <= i < ms@.len() ==> host_message_complete(#[trigger] ms@[i]@),
            host_messages_meaning(views(ms@).take(k as int)) == Ok::<
                Seq<ToServerCommands<Seq<u8>>>,
                Seq<char>,
            >(result@.map_values(|c: ToServerCommands<Vec<u8>>| command_view(c))),
        decreases ms@.len() - k,
    {
        let ghost vs = views(ms@);
        assert(vs.take(k + 1).drop_last() =~= vs.take(k as int));
        assert(vs.take(k + 1).last() == ms@[k as int]@);
        match decode_host_message(ms[k].as_slice()) {
            Ok(c) => {
                let ghost before = result@;
                result.push(c);
                assert(result@.map_values(|c: ToServerCommands<Vec<u8>>| command_view(c))
                    =~= before.map_values(|c: ToServerCommands<Vec<u8>>| command_view(c)).push(command_view(c)));
            },
            Err(e) => {
                proof {
                    lemma_host_error_persists(vs, k as int + 1);
                }
                return Err(e);
            },
        }
        k = k + 1;
    }
    assert(views(ms@).take(ms@.len() as int) =~= views(ms@));
    proof {
        let vs = result@.map_values(|c: ToServerCommands<Vec<u8>>| command_view(c));
        assert forall|i: int| 0 <= i < ms@.len() implies Ok::<ToServerCommands<Seq<u8>>, Seq<char>>(
            command_view(#[trigger] result@[i]),
        ) == host_message_meaning(ms@[i]@) by {
            assert(vs[i] == command_view(result@[i]));
            assert(views(ms@)[i] == ms@[i]@);
        }
    }
    Ok(result)
}

/// Once a prefix of host messages fails, the whole run fails the same way.
proof fn lemma_host_error_persists(ms: Seq<Seq<u8>>, k: int)
    requires
        0 <= k <= ms.len(),
        host_messages_meaning(ms.take(k)) is Err,
    ensures
        host_messages_meaning(ms) == host_messages_meaning(ms.take(k)),
    decreases ms.len() - k,
{
    if k < ms.len() {
        assert(ms.take(k + 1).drop_last() =~= ms.take(k));
        lemma_host_error_persists(ms, k + 1);
    } else {
        assert(ms.take(k) =~= ms);
    }
}

/// Once a prefix of client messages fails, the whole run fails the same way.
proof fn lemma_client_error_persists(ms: Seq<Seq<u8>>, k: int)
    requires
        0 <= k <= ms.len(),
        client_messages_meaning(ms.take(k)) is Err,
    ensures
        client_messages_meaning(ms) == client_messages_meaning(ms.take(k)),
    decreases ms.len() - k,
{
    if k < ms.len() {
        assert(ms.take(k + 1).drop_last() =~= ms.take(k));
        lemma_client_error_persists(ms, k + 1);
    } else {
        assert(ms.take(k) =~= ms);
    }
}

/// The bytes of `m` from `start` on.
fn slice_from(m: &[u8], start: usize) -> (rest: Vec<u8>)
    requires
        start <= m@.len(),
    ensures
        rest@ == m@.subrange(start as int, m@.len() as int),
{
    let mut rest: Vec<u8> = Vec::new();
    append_from(&mut rest, m, start);
    assert(rest@ =~= m@.subrange(start as int, m@.len() as int));
    rest
}

/// Reads one message sent to a client.
pub fn decode_client_message(m: &[u8]) -> (r: Result<UpdateFrame<Vec<u8>>, String>)
    requires
        m@.len() >= 1,
    ensures
        result_view(r, |u: UpdateFrame<Vec<u8>>| frame_view(u)) == client_message_meaning(m@),
{
    let tag = m[0];
    if tag == SERVER_ERROR {
        Err(lossy_text(slice_from(m, 1).as_slice()))
    } else if tag == DELTA_UPDATE {
        Ok(UpdateFrame::Deltas(slice_from(m, 1)))
    } else if tag == FULL_UPDATE || tag == RESET {
        Ok(UpdateFrame::Full(slice_from(m, 1)))
    } else {
        Err(text_with_number("Unknown message received: ", tag))
    }
}

/// Reads all messages sent to a client, in order, stopping at the first one
/// that carries an error or an unknown tag.
pub fn decode_client_messages(ms: &Vec<Vec<u8>>) -> (r: Result<Vec<UpdateFrame<Vec<u8>>>, String>)
    requires
        forall|i: int| 0 <= i < ms@.len() ==> (#[trigger] ms@[i]@).len() >= 1,
    ensures
        result_view(r, |v: Vec<UpdateFrame<Vec<u8>>>| v@.map_values(|u: UpdateFrame<Vec<u8>>| frame_view(u)))
            == client_messages_meaning(views(ms@)),
        r is Ok ==> r->Ok_0@.len() == ms@.len() && forall|i: int|
            0 <= i < ms@.len() ==> Ok::<UpdateFrame<Seq<u8>>, Seq<char>>(
                frame_view(#[trigger] r->Ok_0@[i]),
            ) == client_message_meaning(ms@[i]@),
{
    proof {
        lemma_client_messages_in_order(views(ms@));
    }
    let mut result: Vec<UpdateFrame<Vec<u8>>> = Vec::new();
    let mut k: usize = 0;
    assert(views(ms@).take(0) =~= Seq::<Seq<u8>>::empty());
    assert(result@.map_values(|u: UpdateFrame<Vec<u8>>| frame_view(u)) =~= seq![]);
    while k < ms.len()
        invariant
            k <= ms@.len(),
            forall|i: int| 0 <= i < ms@.len() ==> (#[trigger] ms@[i]@).len() >= 1,
            client_messages_meaning(views(ms@).take(k as int)) == Ok::<
                Seq<UpdateFrame<Seq<u8>>>,
                Seq<char>,
            >(result@.map_values(|u: UpdateFrame<Vec<u8>>| frame_view(u))),
        decreases ms@.len() - k,
    {
        let ghost vs = views(ms@);
        assert(vs.take(k + 1).drop_last() =~= vs.take(k as int));
        assert(vs.take(k + 1).last() == ms@[k as int]@);
        match decode_client_message(ms[k].as_slice()) {
            Ok(u) => {
                let ghost before = result@;
                result.push(u);
                assert(result@.map_values(|u: UpdateFrame<Vec<u8>>| frame_view(u))
                    =~= before.map_values(|u: UpdateFrame<Vec<u8>>| frame_view(u)).push(frame_view(u)));
            },
            Err(e) => {
                proof {
                    lemma_client_error_persists(vs, k as int + 1);
                }
                return Err(e);
            },
        }
        k = k + 1;
    }
    assert(views(ms@).take(ms@.len() as int) =~= views(ms@));
    proof {
        let vs = result@.map_values(|u: UpdateFrame<Vec<u8>>| frame_view(u));
        assert forall|i: int| 0 <= i < ms@.len() implies Ok::<UpdateFrame<Seq<u8>>, Seq<char>>(
            frame_view(#[trigger] result@[i]),
        ) == client_message_meaning(ms@[i]@) by {
            assert(vs[i] == frame_view(result@[i]));
            assert(views(ms@)[i] == ms@[i]@);
        }
    }
    Ok(result)
}

/// Reads the relay's reply to a join request.
pub fn decode_handshake(m: &[u8]) -> (r: Result<GameSetting, String>)
    requires
        handshake_complete(m@),
    ensures
        result_view(r, |g: GameSetting| g) == handshake_meaning(m@),
{
    let tag = m[0];
    if tag == SERVER_ERROR {
        Err(lossy_text(slice_from(m, 1).as_slice()))
    } else if tag == HAND_SHAKE_RESPONSE {
        let player_id = read_be_u16(m, 1);
        let rule_variation = read_be_u16(m, 3);
        Ok(GameSetting { player_id, rule_variation })
    } else {
        Err(text_with_number("Unknown message received in handshake: ", tag))
    }
}

// ---------------------------------------------------------------------------
// Laws.
// ---------------------------------------------------------------------------

/// A client reads a full-sync message as the full state that was sent.
pub proof fn lemma_full_sync_round_trip(state: Seq<u8>)
    ensures
        full_sync_bytes(state).len() >= 1,
        client_message_meaning(full_sync_bytes(state)) == Ok::<UpdateFrame<Seq<u8>>, Seq<char>>(
            UpdateFrame::Full(state),
        ),
{
    assert(body(full_sync_bytes(state)) =~= state);
}

/// A client reads a reset message as the full state that was sent.
pub proof fn lemma_reset_round_trip(state: Seq<u8>)
    ensures
        reset_bytes(state).len() >= 1,
        client_message_meaning(reset_bytes(state)) == Ok::<UpdateFrame<Seq<u8>>, Seq<char>>(
            UpdateFrame::Full(state),
        ),
{
    assert(body(reset_bytes(state)) =~= state);
}

/// A client reads a delta message as the sent deltas, back to back.
pub proof fn lemma_delta_round_trip(serialized: Seq<Seq<u8>>)
    ensures
        delta_bytes(serialized).len() >= 1,
        client_message_meaning(delta_bytes(serialized)) == Ok::<UpdateFrame<Seq<u8>>, Seq<char>>(
            UpdateFrame::Deltas(concat_all(serialized)),
        ),
{
    assert(body(delta_bytes(serialized)) =~= concat_all(serialized));
}

/// The host reads a join or leave notice in the layout of the kick message
/// as the player id it carries.
pub proof fn lemma_player_id_round_trip(player_id: u16)
    ensures
        host_message_complete(seq![NEW_CLIENT] + be_bytes(player_id)),
        host_message_meaning(seq![NEW_CLIENT] + be_bytes(player_id)) == Ok::<
            ToServerCommands<Seq<u8>>,
            Seq<char>,
        >(ToServerCommands::ClientJoin(player_id)),
        host_message_meaning(seq![CLIENT_DISCONNECTS] + be_bytes(player_id)) == Ok::<
            ToServerCommands<Seq<u8>>,
            Seq<char>,
        >(ToServerCommands::ClientLeft(player_id)),
        kick_bytes(player_id).len() == 1 + CLIENT_ID_SIZE,
{
}

/// The host reads a forwarded move request as the sender's id and the
/// payload that the client sent.
pub proof fn lemma_rpc_round_trip(sender: u16, payload: Seq<u8>)
    ensures
        ({
            let forwarded = seq![rpc_bytes(payload)[0]] + be_bytes(sender) + body(rpc_bytes(payload));
            &&& host_message_complete(forwarded)
            &&& host_message_meaning(forwarded) == Ok::<ToServerCommands<Seq<u8>>, Seq<char>>(
                ToServerCommands::Rpc(sender, payload),
            )
        }),
{
    let forwarded = seq![rpc_bytes(payload)[0]] + be_bytes(sender) + body(rpc_bytes(payload));
    assert(body(rpc_bytes(payload)) =~= payload);
    assert(forwarded.subrange(3, forwarded.len() as int) =~= payload);
}

/// A run of messages to the host means its messages' commands one for one
/// and in arrival order: when it is a run of commands, the i-th command is
/// the meaning of the i-th message; when it fails, it fails with the error
/// of a message all of whose predecessors are commands; and it fails only
/// when some message is not a command.
pub proof fn lemma_host_messages_in_order(ms: Seq<Seq<u8>>)
    ensures
        host_messages_meaning(ms) is Ok ==> {
            &&& host_messages_meaning(ms)->Ok_0.len() == ms.len()
            &&& forall|i: int|
                0 <= i < ms.len() ==> Ok::<ToServerCommands<Seq<u8>>, Seq<char>>(
                    #[trigger] host_messages_meaning(ms)->Ok_0[i],
                ) == host_message_meaning(ms[i])
        },
        host_messages_meaning(ms) is Err ==> exists|k: int|
            0 <= k < ms.len() && host_message_meaning(#[trigger] ms[k]) == Err::<
                ToServerCommands<Seq<u8>>,
                Seq<char>,
            >(host_messages_meaning(ms)->Err_0) && forall|i: int|
                0 <= i < k ==> host_message_meaning(#[trigger] ms[i]) is Ok,
        (forall|i: int| 0 <= i < ms.len() ==> host_message_meaning(#[trigger] ms[i]) is Ok)
            ==> host_messages_meaning(ms) is Ok,
    decreases ms.len(),
{
    if ms.len() > 0 {
        let init = ms.drop_last();
        lemma_host_messages_in_order(init);
        assert(forall|i: int| 0 <= i < init.len() ==> init[i] == ms[i]);
        match host_messages_meaning(init) {
            Ok(cs) => {
                match host_message_meaning(ms.last()) {
                    Ok(c) => {
                        assert forall|i: int| 0 <= i < ms.len() implies Ok::<
                            ToServerCommands<Seq<u8>>,
                            Seq<char>,
                        >(#[trigger] host_messages_meaning(ms)->Ok_0[i]) == host_message_meaning(
                            ms[i],
                        ) by {
                            if i < init.len() {
                                assert(host_messages_meaning(ms)->Ok_0[i] == cs[i]);
                            }
                        }
                    },
                    Err(e) => {
                        assert(host_message_meaning(ms[ms.len() - 1]) == Err::<
                            ToServerCommands<Seq<u8>>,
                            Seq<char>,
                        >(e));
                        assert(forall|i: int|
                            0 <= i < ms.len() - 1 ==> host_message_meaning(#[trigger] ms[i]) is Ok) by {
                            assert forall|i: int| 0 <= i < ms.len() - 1 implies host_message_meaning(
                                #[trigger] ms[i],
                            ) is Ok by {
                                assert(init[i] == ms[i]);
                                assert(Ok::<ToServerCommands<Seq<u8>>, Seq<char>>(cs[i])
                                    == host_message_meaning(init[i]));
                            }
                        }
                    },
                }
            },
            Err(e) => {
                let k = choose|k: int|
                    0 <= k < init.len() && host_message_meaning(#[trigger] init[k]) == Err::<
                        ToServerCommands<Seq<u8>>,
                        Seq<char>,
                    >(e) && forall|i: int| 0 <= i < k ==> host_message_meaning(#[trigger] init[i]) is Ok;
                assert(ms[k] == init[k]);
                assert(forall|i: int| 0 <= i < k ==> init[i] == ms[i]);
                if forall|i: int| 0 <= i < ms.len() ==> host_message_meaning(#[trigger] ms[i]) is Ok {
                    assert(host_message_meaning(ms[k]) is Ok);
                }
            },
        }
    }
}

/// A run of messages to a client means its messages' updates one for one
/// and in arrival order; it fails with the error of a message all of whose
/// predecessors are updates, and only when some message is not an update.
pub proof fn lemma_client_messages_in_order(ms: Seq<Seq<u8>>)
    ensures
        client_messages_meaning(ms) is Ok ==> {
            &&& client_messages_meaning(ms)->Ok_0.len() == ms.len()
            &&& forall|i: int|
                0 <= i < ms.len() ==> Ok::<UpdateFrame<Seq<u8>>, Seq<char>>(
                    #[trigger] client_messages_meaning(ms)->Ok_0[i],
                ) == client_message_meaning(ms[i])
        },
        client_messages_meaning(ms) is Err ==> exists|k: int|
            0 <= k < ms.len() && client_message_meaning(#[trigger] ms[k]) == Err::<
                UpdateFrame<Seq<u8>>,
                Seq<char>,
            >(client_messages_meaning(ms)->Err_0) && forall|i: int|
                0 <= i < k ==> client_message_meaning(#[trigger] ms[i]) is Ok,
        (forall|i: int| 0 <= i < ms.len() ==> client_message_meaning(#[trigger] ms[i]) is Ok)
            ==> client_messages_meaning(ms) is Ok,
    decreases ms.len(),
{
    if ms.len() > 0 {
        let init = ms.drop_last();
        lemma_client_messages_in_order(init);
        assert(forall|i: int| 0 <= i < init.len() ==> init[i] == ms[i]);
        match client_messages_meaning(init) {
            Ok(us) => {
                match client_message_meaning(ms.last()) {
                    Ok(u) => {
                        assert forall|i: int| 0 <= i < ms.len() implies Ok::<
                            UpdateFrame<Seq<u8>>,
                            Seq<char>,
                        >(#[trigger] client_messages_meaning(ms)->Ok_0[i]) == client_message_meaning(
                            ms[i],
                        ) by {
                            if i < init.len() {
                                assert(client_messages_meaning(ms)->Ok_0[i] == us[i]);
                            }
                        }
                    },
                    Err(e) => {
                        assert(client_message_meaning(ms[ms.len() - 1]) == Err::<
                            UpdateFrame<Seq<u8>>,
                            Seq<char>,
                        >(e));
                        assert forall|i: int| 0 <= i < ms.len() - 1 implies client_message_meaning(
                            #[trigger] ms[i],
                        ) is Ok by {
                            assert(init[i] == ms[i]);
                            assert(Ok::<UpdateFrame<Seq<u8>>, Seq<char>>(us[i])
                                == client_message_meaning(init[i]));
                        }
                    },
                }
            },
            Err(e) => {
                let k = choose|k: int|
                    0 <= k < init.len() && client_message_meaning(#[trigger] init[k]) == Err::<
                        UpdateFrame<Seq<u8>>,
                        Seq<char>,
                    >(e) && forall|i: int| 0 <= i < k ==> client_message_meaning(#[trigger] init[i]) is Ok;
                assert(ms[k] == init[k]);
                assert(forall|i: int| 0 <= i < k ==> init[i] == ms[i]);
            },
        }
    }
}

/// What the host reads from each message, field by field: a join or leave
/// notice carries the player id as its two bytes after the tag, most
/// significant first; a move request carries that id and then the payload;
/// a relay error carries its text; any other tag is an unknown message.
pub proof fn lemma_host_message_fields(m: Seq<u8>)
    requires
        host_message_complete(m),
    ensures
        m[0] == NEW_CLIENT ==> (host_message_meaning(m) matches Ok(ToServerCommands::ClientJoin(id))
            && id as int == m[1] as int * 256 + m[2] as int),
        m[0] == CLIENT_DISCONNECTS ==> (host_message_meaning(m) matches Ok(
            ToServerCommands::ClientLeft(id),
        ) && id as int == m[1] as int * 256 + m[2] as int),
        m[0] == SERVER_RPC ==> (host_message_meaning(m) matches Ok(ToServerCommands::Rpc(id, p))
            && id as int == m[1] as int * 256 + m[2] as int && p == m.subrange(3, m.len() as int)),
        m[0] == SERVER_ERROR ==> host_message_meaning(m) == Err::<ToServerCommands<Seq<u8>>, Seq<char>>(
            utf8_lossy(m.subrange(1, m.len() as int)),
        ),
        m[0] != NEW_CLIENT && m[0] != CLIENT_DISCONNECTS && m[0] != SERVER_RPC && m[0] != SERVER_ERROR
            ==> host_message_meaning(m) == Err::<ToServerCommands<Seq<u8>>, Seq<char>>(
            "Unknown message received: "@ + decimal(m[0] as nat),
        ),
{
}

/// What a client reads from each message: a delta message carries the
/// deltas after its tag, a full or reset message the state after its tag,
/// a relay error its text; any other tag is an unknown message.
pub proof fn lemma_client_message_fields(m: Seq<u8>)
    requires
        m.len() >= 1,
    ensures
        m[0] == DELTA_UPDATE ==> client_message_meaning(m) == Ok::<UpdateFrame<Seq<u8>>, Seq<char>>(
            UpdateFrame::Deltas(m.subrange(1, m.len() as int)),
        ),
        m[0] == FULL_UPDATE || m[0] == RESET ==> client_message_meaning(m) == Ok::<
            UpdateFrame<Seq<u8>>,
            Seq<char>,
        >(UpdateFrame::Full(m.subrange(1, m.len() as int))),
        m[0] == SERVER_ERROR ==> client_message_meaning(m) == Err::<UpdateFrame<Seq<u8>>, Seq<char>>(
            utf8_lossy(m.subrange(1, m.len() as int)),
        ),
        m[0] != DELTA_UPDATE && m[0] != FULL_UPDATE && m[0] != RESET && m[0] != SERVER_ERROR
            ==> client_message_meaning(m) == Err::<UpdateFrame<Seq<u8>>, Seq<char>>(
            "Unknown message received: "@ + decimal(m[0] as nat),
        ),
{
}

/// The handshake reply carries the player id and then the rule variation,
/// each as two bytes, most significant first.
pub proof fn lemma_handshake_fields(m: Seq<u8>)
    requires
        handshake_complete(m),
    ensures
        m[0] == HAND_SHAKE_RESPONSE ==> (handshake_meaning(m) matches Ok(g) && g.player_id as int
            == m[1] as int * 256 + m[2] as int && g.rule_variation as int == m[3] as int * 256
            + m[4] as int),
        m[0] == SERVER_ERROR ==> handshake_meaning(m) == Err::<GameSetting, Seq<char>>(
            utf8_lossy(m.subrange(1, m.len() as int)),
        ),
        m[0] != HAND_SHAKE_RESPONSE && m[0] != SERVER_ERROR ==> handshake_meaning(m) == Err::<
            GameSetting,
            Seq<char>,
        >("Unknown message received in handshake: "@ + decimal(m[0] as nat)),
{
}

/// The messages this side sends, byte by byte: each starts with its tag;
/// a kick carries the player id in two bytes, most significant first; the
/// other messages carry their payload unchanged after the tag.
pub proof fn lemma_sent_message_layout(player_id: u16, payload: Seq<u8>)
    ensures
        kick_bytes(player_id).len() == 3,
        kick_bytes(player_id)[0] == CLIENT_GETS_KICKED,
        kick_bytes(player_id)[1] as int * 256 + kick_bytes(player_id)[2] as int == player_id,
        full_sync_bytes(payload)[0] == FULL_UPDATE,
        full_sync_bytes(payload).subrange(1, full_sync_bytes(payload).len() as int) == payload,
        reset_bytes(payload)[0] == RESET,
        reset_bytes(payload).subrange(1, reset_bytes(payload).len() as int) == payload,
        rpc_bytes(payload)[0] == SERVER_RPC,
        rpc_bytes(payload).subrange(1, rpc_bytes(payload).len() as int) == payload,
        delta_bytes(seq![payload])[0] == DELTA_UPDATE,
        delta_bytes(seq![payload]).subrange(1, delta_bytes(seq![payload]).len() as int) == payload,
        disconnect_bytes(true) == seq![SERVER_DISCONNECTS],
        disconnect_bytes(false) == seq![CLIENT_DISCONNECTS_SELF],
{
    assert(full_sync_bytes(payload).subrange(1, full_sync_bytes(payload).len() as int) =~= payload);
    assert(reset_bytes(payload).subrange(1, reset_bytes(payload).len() as int) =~= payload);
    assert(rpc_bytes(payload).subrange(1, rpc_bytes(payload).len() as int) =~= payload);
    assert(seq![payload].drop_last() =~= Seq::<Seq<u8>>::empty());
    assert(concat_all(Seq::<Seq<u8>>::empty()) == Seq::<u8>::empty());
    assert(seq![payload].last() == payload);
    assert(concat_all(seq![payload]) =~= Seq::<u8>::empty() + payload);
    assert(concat_all(seq![payload]) =~= payload);
    assert(delta_bytes(seq![payload]).subrange(1, delta_bytes(seq![payload]).len() as int)
        =~= payload);
}

/// The decimal text of a byte value: its hundreds, tens and units digits,
/// most significant first, without leading zeros.
pub proof fn lemma_decimal_digits(n: u8)
    ensures
        n < 10 ==> decimal(n as nat) == seq![(48 + n) as char],
        10 <= n < 100 ==> decimal(n as nat) == seq![(48 + n / 10) as char, (48 + n % 10) as char],
        100 <= n ==> decimal(n as nat) == seq![
            (48 + n / 100) as char,
            (48 + (n / 10) % 10) as char,
            (48 + n % 10) as char,
        ],
{
    reveal_with_fuel(decimal, 3);
    if n >= 10 {
        assert(decimal((n / 10) as nat) =~= if n / 10 < 10 {
            seq![(48 + n / 10) as char]
        } else {
            seq![(48 + n / 100) as char, (48 + (n / 10) % 10) as char]
        });
    }
    assert(decimal(n as nat) =~= if n < 10 {
        seq![(48 + n) as char]
    } else if n < 100 {
        seq![(48 + n / 10) as char, (48 + n % 10) as char]
    } else {
        seq![(48 + n / 100) as char, (48 + (n / 10) % 10) as char, (48 + n % 10) as char]
    });
}

} // verus!
