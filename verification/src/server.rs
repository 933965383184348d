//! The CemuHook server's decisions: reading client requests, keeping the list of subscribed
//! clients, and building the data events each frame sends.
//!
//! The caller owns the socket, the clock and the frame channel; it hands these functions the
//! bytes it received, the sender's address and the time, and sends what they return.

use vstd::prelude::*;

use crate::bytes;
use crate::bytes::read_u32_le;
use crate::dsu;
use crate::dsu::DSUFrame;
use crate::protocol;
use crate::protocol::{DATA_TYPE, INFO_TYPE, VERSION_TYPE};

verus! {

/// A client that sent no data request for this long (milliseconds) is dropped.
pub const CLIENT_TIMEOUT_MS: u64 = 5000;

/// The motion timestamp advances by this many microseconds per frame sent.
pub const TIMESTAMP_STEP_US: u64 = 4000;

/// Server configuration.
#[derive(Debug, Clone)]
pub struct ServerConfig {
    /// Address or host to bind to
    pub bind_addr: String,
    /// Port to listen on
    pub port: u16,
    /// Invert the y axis values on the gyro and accelerometer
    pub invert_y: bool,
}

/// A client's socket address, as plain values.
#[derive(Debug, Clone, Copy, PartialEq, Eq, Structural)]
pub enum ClientAddr {
    V4 { ip: u32, port: u16 },
    V6 { ip: u128, port: u16, flowinfo: u32, scope_id: u32 },
}

/// A subscribed client.
#[derive(Debug, Clone, Copy)]
pub struct Client {
    pub addr: ClientAddr,
    pub id: u32,
    pub slot: u8,
    /// When the client last sent a data request (milliseconds on the server's monotonic clock).
    pub last_seen_ms: u64,
    pub packet_counter: u32,
}

/// A request received from a client.
#[derive(Debug)]
pub enum Request {
    /// Fewer than 20 bytes.
    TooShort,
    /// Not a client packet (no `"DSUC"` magic).
    NotClient,
    /// Protocol version request.
    Version { client_id: u32 },
    /// Controller information request for the listed slots.
    Info { client_id: u32, slots: Vec<u8> },
    /// Controller data subscription for a slot.
    Data { client_id: u32, slot: u8 },
    /// A message type the server does not handle.
    Unhandled { client_id: u32, event_type: u32 },
}

/// The number of slots an information request asks about: its port count, capped at 4
/// (a negative count, read as a huge unsigned number, counts as 4).
pub open spec fn requested_slot_count(port_cnt: u32) -> int {
    if port_cnt > 4 {
        4
    } else {
        port_cnt as int
    }
}

/// The client ID of a request.
pub open spec fn client_id_of(buf: Seq<u8>) -> u32 {
    bytes::u32_le(buf[12], buf[13], buf[14], buf[15])
}

/// The message type of a request.
pub open spec fn event_type_of(buf: Seq<u8>) -> u32 {
    bytes::u32_le(buf[16], buf[17], buf[18], buf[19])
}

/// The port count of an information request (its signed count read as unsigned bits).
pub open spec fn port_count_of(buf: Seq<u8>) -> u32 {
    bytes::u32_le(buf[20], buf[21], buf[22], buf[23])
}

/// Read a request of `msg_len` bytes received into `buf`.
///
/// Short packets and packets without the client magic are ignored. A data request names its
/// slot in byte 21 (slot 0 when the packet is shorter than 22 bytes); an information request
/// lists up to four slots from byte 24.
pub fn parse_request(buf: &[u8; 256], msg_len: usize) -> (r: Request)
    ensures
        msg_len < 20 ==> r is TooShort,
        msg_len >= 20 && buf@.take(4) != protocol::magic_client() ==> r is NotClient,
        msg_len >= 20 && buf@.take(4) == protocol::magic_client() ==> {
            let cid = client_id_of(buf@);
            let t = event_type_of(buf@);
            if t == VERSION_TYPE {
                r == Request::Version { client_id: cid }
            } else if t == INFO_TYPE {
                r matches Request::Info { client_id, slots } && client_id == cid && slots@
                    == buf@.subrange(24, 24 + requested_slot_count(port_count_of(buf@)))
            } else if t == DATA_TYPE {
                r == Request::Data {
                    client_id: cid,
                    slot: if msg_len > 21 {
                        buf@[21]
                    } else {
                        0u8
                    },
                }
            } else {
                r == Request::Unhandled { client_id: cid, event_type: t }
            }
        },
{
    if msg_len < 20 {
        return Request::TooShort;
    }
    if !(buf[0] == 0x44 && buf[1] == 0x53 && buf[2] == 0x55 && buf[3] == 0x43) {
        assert(buf@.take(4) != protocol::magic_client()) by {
            if buf@.take(4) == protocol::magic_client() {
                assert(buf@.take(4)[0] == buf@[0]);
                assert(buf@.take(4)[1] == buf@[1]);
                assert(buf@.take(4)[2] == buf@[2]);
                assert(buf@.take(4)[3] == buf@[3]);
            }
        }
        return Request::NotClient;
    }
    assert(buf@.take(4) =~= protocol::magic_client());
    let client_id = read_u32_le(buf[12], buf[13], buf[14], buf[15]);
    let event_type = read_u32_le(buf[16], buf[17], buf[18], buf[19]);
    if event_type == VERSION_TYPE {
        Request::Version { client_id }
    } else if event_type == INFO_TYPE {
        let port_cnt = read_u32_le(buf[20], buf[21], buf[22], buf[23]);
        let requested: usize = if port_cnt > 4 {
            4
        } else {
            port_cnt as usize
        };
        let mut slots: Vec<u8> = Vec::new();
        let mut i: usize = 0;
        while i < requested
            invariant
                i <= requested <= 4,
                slots@ == buf@.subrange(24, 24 + i),
            decreases requested - i,
        {
            slots.push(buf[24 + i]);
            i = i + 1;
            assert(slots@ =~= buf@.subrange(24, 24 + i));
        }
        Request::Info { client_id, slots }
    } else if event_type == DATA_TYPE {
        let slot = if msg_len > 21 {
            buf[21]
        } else {
            0
        };
        Request::Data { client_id, slot }
    } else {
        Request::Unhandled { client_id, event_type }
    }
}

/// The name of a message type, for logging.
pub fn event_type_str(t: u32) -> (r: &'static str)
    ensures
        r@ == (if t == VERSION_TYPE {
            "VERSION"@
        } else if t == INFO_TYPE {
            "INFO"@
        } else if t == DATA_TYPE {
            "DATA"@
        } else {
            "UNKNOWN"@
        }),
{
    if t == VERSION_TYPE {
        "VERSION"
    } else if t == INFO_TYPE {
        "INFO"
    } else if t == DATA_TYPE {
        "DATA"
    } else {
        "UNKNOWN"
    }
}

/// No two clients share an address.
pub open spec fn addrs_unique(clients: Seq<Client>) -> bool {
    forall|i: int, j: int|
        0 <= i < j < clients.len() ==> #[trigger] clients[i].addr != #[trigger] clients[j].addr
}

/// `c` after a data request from it with `client_id` for `slot` at `now_ms`.
pub open spec fn refreshed(c: Client, client_id: u32, slot: u8, now_ms: u64) -> Client {
    Client { last_seen_ms: now_ms, id: client_id, slot, ..c }
}

/// A new client subscribing from `addr`.
pub open spec fn new_client(addr: ClientAddr, client_id: u32, slot: u8, now_ms: u64) -> Client {
    Client { addr, id: client_id, slot, last_seen_ms: now_ms, packet_counter: 0 }
}

/// The index of the first client with address `addr`, or -1 when there is none.
pub open spec fn index_of_addr(clients: Seq<Client>, addr: ClientAddr) -> int
    decreases clients.len(),
{
    if clients.len() == 0 {
        -1
    } else {
        let k = index_of_addr(clients.drop_last(), addr);
        if k >= 0 {
            k
        } else if clients.last().addr == addr {
            clients.len() - 1
        } else {
            -1
        }
    }
}

/// The client list after a data request from `addr` with `client_id` for `slot` at `now_ms`:
/// the first client with that address takes the request's ID and slot and counts as seen now;
/// with none, a new client with packet counter 0 is appended.
pub open spec fn registered(
    clients: Seq<Client>,
    addr: ClientAddr,
    client_id: u32,
    slot: u8,
    now_ms: u64,
) -> Seq<Client> {
    let k = index_of_addr(clients, addr);
    if k >= 0 {
        clients.update(k, refreshed(clients[k], client_id, slot, now_ms))
    } else {
        clients.push(new_client(addr, client_id, slot, now_ms))
    }
}

/// `index_of_addr` finds the first client with the address, and -1 means there is none.
pub proof fn lemma_index_of_addr(clients: Seq<Client>, addr: ClientAddr)
    ensures
        -1 <= index_of_addr(clients, addr) < clients.len(),
        index_of_addr(clients, addr) >= 0 ==> clients[index_of_addr(clients, addr)].addr == addr,
        forall|j: int|
            0 <= j < clients.len() && (index_of_addr(clients, addr) < 0 || j < index_of_addr(
                clients,
                addr,
            )) ==> #[trigger] clients[j].addr != addr,
    decreases clients.len(),
{
    if clients.len() > 0 {
        let init = clients.drop_last();
        lemma_index_of_addr(init, addr);
        assert forall|j: int|
            0 <= j < clients.len() && (index_of_addr(clients, addr) < 0 || j < index_of_addr(
                clients,
                addr,
            )) implies #[trigger] clients[j].addr != addr by {
            if j < clients.len() - 1 {
                assert(clients[j] == init[j]);
            }
        }
    }
}

/// Record a data request from `addr` at `now_ms`: the first client with that address takes the
/// request's client ID and slot and counts as seen now; when there is none, a new client with
/// packet counter 0 is appended.
pub fn register_data_request(
    clients: &mut Vec<Client>,
    addr: ClientAddr,
    client_id: u32,
    slot: u8,
    now_ms: u64,
)
    ensures
        final(clients)@ == registered(old(clients)@, addr, client_id, slot, now_ms),
{
    proof {
        lemma_index_of_addr(old(clients)@, addr);
    }
    let n = clients.len();
    let mut i: usize = 0;
    while i < n
        invariant
            n == clients@.len(),
            clients@ == old(clients)@,
            i <= n,
            forall|j: int| 0 <= j < i ==> clients@[j].addr != addr,
            -1 <= index_of_addr(old(clients)@, addr) < old(clients)@.len(),
            index_of_addr(old(clients)@, addr) >= 0 ==> old(clients)@[index_of_addr(
                old(clients)@,
                addr,
            )].addr == addr,
            forall|j: int|
                0 <= j < old(clients)@.len() && (index_of_addr(old(clients)@, addr) < 0 || j
                    < index_of_addr(old(clients)@, addr)) ==> #[trigger] old(
                    clients,
                )@[j].addr != addr,
        decreases n - i,
    {
        if clients[i].addr == addr {
            let c = clients[i];
            assert(index_of_addr(old(clients)@, addr) == i);
            clients.set(i, Client { last_seen_ms: now_ms, id: client_id, slot, ..c });
            return;
        }
        i = i + 1;
    }
    assert(index_of_addr(old(clients)@, addr) < 0) by {
        let k = index_of_addr(old(clients)@, addr);
        if k >= 0 {
            assert(old(clients)@[k].addr == addr);
        }
    }
    clients.push(Client { addr, id: client_id, slot, last_seen_ms: now_ms, packet_counter: 0 });
}

/// The client was seen less than the timeout ago (time never runs backwards here: a
/// `last_seen_ms` after `now_ms` counts as no time elapsed).
pub open spec fn is_fresh(c: Client, now_ms: u64) -> bool {
    if now_ms >= c.last_seen_ms {
        now_ms - c.last_seen_ms < CLIENT_TIMEOUT_MS
    } else {
        true
    }
}

/// The clients seen within the timeout, in order.
pub open spec fn fresh_clients(clients: Seq<Client>, now_ms: u64) -> Seq<Client> {
    clients.filter(|c: Client| is_fresh(c, now_ms))
}

/// Drop the clients not seen for the timeout, keeping the others in order.
pub fn prune_clients(clients: &mut Vec<Client>, now_ms: u64)
    ensures
        final(clients)@ == fresh_clients(old(clients)@, now_ms),
{
    let mut kept: Vec<Client> = Vec::new();
    let n = clients.len();
    let mut i: usize = 0;
    while i < n
        invariant
            n == clients@.len(),
            clients@ == old(clients)@,
            i <= n,
            kept@ == old(clients)@.take(i as int).filter(|c: Client| is_fresh(c, now_ms)),
        decreases n - i,
    {
        let c = clients[i];
        assert(old(clients)@.take(i + 1).drop_last() =~= old(clients)@.take(i as int));
        reveal_with_fuel(Seq::filter, 1);
        let elapsed: u64 = if now_ms >= c.last_seen_ms {
            now_ms - c.last_seen_ms
        } else {
            0
        };
        if elapsed < CLIENT_TIMEOUT_MS {
            kept.push(c);
        }
        i = i + 1;
    }
    assert(old(clients)@.take(n as int) =~= old(clients)@);
    *clients = kept;
}

/// The packet counter after one more packet (wrapping).
pub open spec fn next_counter(c: u32) -> u32 {
    if c == u32::MAX {
        0u32
    } else {
        (c + 1) as u32
    }
}

/// The clients after one data event each: every packet counter advances by one (wrapping).
pub open spec fn bumped(clients: Seq<Client>) -> Seq<Client> {
    clients.map_values(|c: Client| Client { packet_counter: next_counter(c.packet_counter), ..c })
}

/// A data event for one client.
#[derive(Debug, Clone, Copy)]
pub struct OutgoingPacket {
    pub addr: ClientAddr,
    pub bytes: [u8; 100],
}

/// Build the data events for `frame`: every client's packet counter advances by one (wrapping)
/// and each gets a packet with its new counter, ID and slot, in list order. With no clients
/// nothing is built and the timestamp stays; otherwise it advances by 4000 µs (wrapping).
pub fn broadcast(
    clients: &mut Vec<Client>,
    frame: &DSUFrame,
    timestamp_us: &mut u64,
    invert_pitch: bool,
) -> (out: Vec<OutgoingPacket>)
    ensures
        final(clients)@ == bumped(old(clients)@),
        out@.len() == old(clients)@.len(),
        forall|i: int|
            0 <= i < old(clients)@.len() ==> (#[trigger] out@[i]).addr == old(clients)@[i].addr
                && out@[i].bytes@ == dsu::data_event_packet(
                *frame,
                next_counter(old(clients)@[i].packet_counter),
                old(clients)@[i].id,
                old(clients)@[i].slot,
                *old(timestamp_us),
                invert_pitch,
            ),
        *final(timestamp_us) == if old(clients)@.len() == 0 {
            *old(timestamp_us)
        } else {
            ((*old(timestamp_us) + TIMESTAMP_STEP_US) % 0x1_0000_0000_0000_0000) as u64
        },
{
    let mut out: Vec<OutgoingPacket> = Vec::new();
    if clients.len() == 0 {
        assert(clients@ =~= bumped(old(clients)@));
        return out;
    }
    let ts = *timestamp_us;
    let n = clients.len();
    let mut i: usize = 0;
    while i < n
        invariant
            n == clients@.len(),
            n == old(clients)@.len(),
            ts == *old(timestamp_us),
            i <= n,
            out@.len() == i,
            forall|k: int| i <= k < n ==> clients@[k] == old(clients)@[k],
            forall|k: int|
                0 <= k < i ==> #[trigger] clients@[k] == (Client {
                    packet_counter: next_counter(old(clients)@[k].packet_counter),
                    ..old(clients)@[k]
                }),
            forall|k: int|
                0 <= k < i ==> (#[trigger] out@[k]).addr == old(clients)@[k].addr
                    && out@[k].bytes@ == dsu::data_event_packet(
                    *frame,
                    next_counter(old(clients)@[k].packet_counter),
                    old(clients)@[k].id,
                    old(clients)@[k].slot,
                    ts,
                    invert_pitch,
                ),
        decreases n - i,
    {
        let c = clients[i];
        let counter = c.packet_counter.wrapping_add(1);
        assert(counter == next_counter(c.packet_counter));
        clients.set(i, Client { packet_counter: counter, ..c });
        let mut packet = [0u8; 100];
        dsu::write_data_event(&mut packet, frame, counter, c.id, c.slot, ts, invert_pitch);
        out.push(OutgoingPacket { addr: c.addr, bytes: packet });
        i = i + 1;
    }
    *timestamp_us = ts.wrapping_add(TIMESTAMP_STEP_US);
    assert(clients@ =~= bumped(old(clients)@));
    out
}

/// No operation on the client list lets two clients share an address: registering a data
/// request, pruning stale clients and sending a frame each keep the addresses distinct.
/// After a data request from `addr`, exactly one client has that address, and it carries the
/// request's client ID and slot and counts as seen at the request's time.
pub proof fn lemma_client_addresses_stay_unique(
    clients: Seq<Client>,
    addr: ClientAddr,
    client_id: u32,
    slot: u8,
    now_ms: u64,
)
    requires
        addrs_unique(clients),
    ensures
        addrs_unique(registered(clients, addr, client_id, slot, now_ms)),
        addrs_unique(fresh_clients(clients, now_ms)),
        addrs_unique(bumped(clients)),
        ({
            let r = registered(clients, addr, client_id, slot, now_ms);
            exists|k: int|
                0 <= k < r.len() && r[k].addr == addr && r[k].id == client_id && r[k].slot == slot
                    && r[k].last_seen_ms == now_ms && forall|j: int|
                    0 <= j < r.len() && j != k ==> #[trigger] r[j].addr != addr
        }),
{
    lemma_index_of_addr(clients, addr);
    let r = registered(clients, addr, client_id, slot, now_ms);
    let k = index_of_addr(clients, addr);
    if k >= 0 {
        assert(r[k].addr == addr);
        assert forall|j: int| 0 <= j < r.len() && j != k implies #[trigger] r[j].addr != addr by {
            if j < k {
            } else {
                assert(clients[j].addr != clients[k].addr);
            }
        }
        assert forall|i: int, j: int|
            0 <= i < j < r.len() implies #[trigger] r[i].addr != #[trigger] r[j].addr by {
            assert(clients[i].addr != clients[j].addr);
        }
    } else {
        let kk = clients.len() as int;
        assert(r[kk].addr == addr);
        assert forall|j: int| 0 <= j < r.len() && j != kk implies #[trigger] r[j].addr != addr by {
            assert(r[j] == clients[j]);
        }
        assert forall|i: int, j: int|
            0 <= i < j < r.len() implies #[trigger] r[i].addr != #[trigger] r[j].addr by {
            if j < kk {
                assert(clients[i].addr != clients[j].addr);
            } else {
                assert(r[i] == clients[i]);
            }
        }
    }
    lemma_filter_keeps_unique(clients, now_ms);
    let b = bumped(clients);
    assert forall|i: int, j: int|
        0 <= i < j < b.len() implies #[trigger] b[i].addr != #[trigger] b[j].addr by {
        assert(clients[i].addr != clients[j].addr);
    }
}

/// Pruning keeps client addresses distinct.
proof fn lemma_filter_keeps_unique(clients: Seq<Client>, now_ms: u64)
    requires
        addrs_unique(clients),
    ensures
        addrs_unique(clients.filter(|c: Client| is_fresh(c, now_ms))),
    decreases clients.len(),
{
    let f = |c: Client| is_fresh(c, now_ms);
    reveal_with_fuel(Seq::filter, 1);
    if clients.len() > 0 {
        let init = clients.drop_last();
        assert(addrs_unique(init)) by {
            assert forall|i: int, j: int|
                0 <= i < j < init.len() implies #[trigger] init[i].addr != #[trigger] init[j].addr by {
                assert(init[i] == clients[i] && init[j] == clients[j]);
            }
        }
        lemma_filter_keeps_unique(init, now_ms);
        let fi = init.filter(f);
        let last = clients.last();
        assert forall|i: int| 0 <= i < fi.len() implies #[trigger] fi[i].addr != last.addr by {
            init.lemma_filter_contains_rev(f, fi[i]);
            let k = choose|k: int| 0 <= k < init.len() && init[k] == fi[i];
            assert(clients[k].addr != clients[clients.len() - 1].addr);
        }
        let r = clients.filter(f);
        assert forall|i: int, j: int|
            0 <= i < j < r.len() implies #[trigger] r[i].addr != #[trigger] r[j].addr by {
            if f(last) {
                assert(r == fi.push(last));
                if j == fi.len() {
                } else {
                }
            } else {
                assert(r == fi);
            }
        }
    }
}

/// After pruning, every client left was seen within the timeout, and every client seen within
/// the timeout is left.
pub proof fn lemma_prune_keeps_exactly_fresh(clients: Seq<Client>, now_ms: u64)
    ensures
        forall|c: Client|
            #[trigger] fresh_clients(clients, now_ms).contains(c) <==> (clients.contains(c)
                && is_fresh(c, now_ms)),
{
    let f = |c: Client| is_fresh(c, now_ms);
    assert forall|c: Client|
        #[trigger] fresh_clients(clients, now_ms).contains(c) <==> (clients.contains(c)
            && is_fresh(c, now_ms)) by {
        if clients.filter(f).contains(c) {
            clients.lemma_filter_contains_rev(f, c);
        }
        if clients.contains(c) && is_fresh(c, now_ms) {
            let k = choose|k: int| 0 <= k < clients.len() && clients[k] == c;
            clients.lemma_filter_contains(f, k);
        }
    }
}

/// A response to a request carries the request's client-ID bytes unchanged (bytes 12..16 of
/// both), whatever the response's kind.
pub proof fn lemma_responses_echo_client_id(
    buf: Seq<u8>,
    slot: u8,
    connected: bool,
    motion: protocol::Motion,
    packet_num: u32,
    timestamp_us: u64,
)
    requires
        buf.len() >= 20,
    ensures
        protocol::version_packet(client_id_of(buf)).subrange(12, 16) == buf.subrange(12, 16),
        protocol::info_packet(slot, client_id_of(buf), connected).subrange(12, 16) == buf.subrange(
            12,
            16,
        ),
        protocol::motion_data_packet(motion, packet_num, client_id_of(buf), slot, timestamp_us).subrange(
            12,
            16,
        ) == buf.subrange(12, 16),
{
    bytes::lemma_le32_of_u32_le(buf[12], buf[13], buf[14], buf[15]);
    assert(buf.subrange(12, 16) =~= seq![buf[12], buf[13], buf[14], buf[15]]);
    protocol::lemma_server_packets_well_formed(
        client_id_of(buf),
        slot,
        connected,
        motion,
        packet_num,
        timestamp_us,
    );
}

} // verus!
