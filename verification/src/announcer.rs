//! The announcement by which the client makes itself known on every network it is attached to.

use vstd::prelude::*;
use vstd::string::*;
use crate::packets::IpAddress;

verus! {

/// Bytes in an announcement.
pub const PACKET_LEN: usize = 56;

/// Where the protocol's number stands in an announcement.
pub const PROTOCOL_OFFSET: usize = 16;

/// Where the host's name stands in an announcement; it has the rest of the packet.
pub const HOSTNAME_OFFSET: usize = 24;

/// The limited broadcast address.
pub const BROADCAST: [u8; 4] = [255, 255, 255, 255];

/// The `k`-th byte of a number, least significant first.
pub open spec fn le_byte(x: u64, k: nat) -> u8
    decreases k,
{
    if k == 0 {
        (x % 256) as u8
    } else {
        le_byte(x / 256, (k - 1) as nat)
    }
}

/// The number that eight bytes, least significant first, stand for.
pub open spec fn le_value(b: Seq<u8>) -> int {
    b[0] + 0x100 * b[1] + 0x1_0000 * b[2] + 0x100_0000 * b[3] + 0x1_0000_0000 * b[4]
        + 0x100_0000_0000 * b[5] + 0x1_0000_0000_0000 * b[6] + 0x100_0000_0000_0000 * b[7]
}

/// An announcement: the product's name, the protocol's number and the host's name, each at its
/// place, later ones over earlier ones, and zeros everywhere else.
pub open spec fn announcement(name: Seq<u8>, protocol_id: u64, hostname: Seq<u8>) -> Seq<u8> {
    Seq::new(
        PACKET_LEN as nat,
        |i: int|
            if HOSTNAME_OFFSET <= i < HOSTNAME_OFFSET + hostname.len() {
                hostname[i - HOSTNAME_OFFSET]
            } else if PROTOCOL_OFFSET <= i < HOSTNAME_OFFSET {
                le_byte(protocol_id, (i - PROTOCOL_OFFSET) as nat)
            } else if i < name.len() {
                name[i]
            } else {
                0
            },
    )
}

/// Whether a name and a hostname fit in an announcement.
pub open spec fn fits_in_announcement(name: Seq<u8>, hostname: Seq<u8>) -> bool {
    name.len() <= PACKET_LEN && hostname.len() <= PACKET_LEN - HOSTNAME_OFFSET
}

fn write_bytes(packet: &mut [u8; 56], offset: usize, bytes: &[u8])
    requires
        offset + bytes@.len() <= PACKET_LEN,
    ensures
        final(packet)@ == Seq::new(
            PACKET_LEN as nat,
            |i: int|
                if offset <= i < offset + bytes@.len() {
                    bytes@[i - offset]
                } else {
                    old(packet)@[i]
                },
        ),
{
    let ghost before = packet@;
    let mut k: usize = 0;
    while k < bytes.len()
        invariant
            k <= bytes@.len(),
            offset + bytes@.len() <= PACKET_LEN,
            packet@.len() == PACKET_LEN,
            before.len() == PACKET_LEN,
            forall|i: int|
                0 <= i < PACKET_LEN ==> #[trigger] packet@[i] == (if offset <= i < offset + k {
                    bytes@[i - offset]
                } else {
                    before[i]
                }),
        decreases bytes@.len() - k,
    {
        packet[offset + k] = bytes[k];
        k = k + 1;
    }
    assert(packet@ =~= Seq::new(
        PACKET_LEN as nat,
        |i: int|
            if offset <= i < offset + bytes@.len() {
                bytes@[i - offset]
            } else {
                before[i]
            },
    ));
}

fn le_bytes(x: u64) -> (bytes: Vec<u8>)
    ensures
        bytes@.len() == 8,
        forall|k: int| 0 <= k < 8 ==> #[trigger] bytes@[k] == le_byte(x, k as nat),
{
    let mut bytes: Vec<u8> = Vec::new();
    let mut rest: u64 = x;
    while bytes.len() < 8
        invariant
            bytes@.len() <= 8,
            forall|k: int| 0 <= k < bytes@.len() ==> #[trigger] bytes@[k] == le_byte(x, k as nat),
            forall|k: nat| #[trigger] le_byte(rest, k) == le_byte(x, k + bytes@.len()),
        decreases 8 - bytes@.len(),
    {
        let ghost done = bytes@.len();
        let ghost before = rest;
        assert(le_byte(rest, 0) == le_byte(x, 0 + done));
        bytes.push((rest % 256) as u8);
        rest = rest / 256;
        assert forall|k: nat| #[trigger] le_byte(rest, k) == le_byte(x, k + bytes@.len()) by {
            assert(le_byte(before, k + 1) == le_byte(rest, k));
            assert(le_byte(before, k + 1) == le_byte(x, k + 1 + done));
        }
    }
    bytes
}

/// Builds an announcement.
pub fn build_packet(name: &str, protocol_id: u64, hostname: &str) -> (packet: [u8; 56])
    requires
        fits_in_announcement(name.spec_bytes(), hostname.spec_bytes()),
    ensures
        packet@ == announcement(name.spec_bytes(), protocol_id, hostname.spec_bytes()),
{
    let mut packet: [u8; 56] = [0;56];
    write_bytes(&mut packet, 0, name.as_bytes());
    let id = le_bytes(protocol_id);
    write_bytes(&mut packet, PROTOCOL_OFFSET, id.as_slice());
    write_bytes(&mut packet, HOSTNAME_OFFSET, hostname.as_bytes());
    assert(packet@ =~= announcement(name.spec_bytes(), protocol_id, hostname.spec_bytes()));
    packet
}

proof fn lemma_le_value(x: u64)
    ensures
        le_byte(x, 0) + 0x100 * le_byte(x, 1) + 0x1_0000 * le_byte(x, 2) + 0x100_0000 * le_byte(
            x,
            3,
        ) + 0x1_0000_0000 * le_byte(x, 4) + 0x100_0000_0000 * le_byte(x, 5)
            + 0x1_0000_0000_0000 * le_byte(x, 6) + 0x100_0000_0000_0000 * le_byte(x, 7) == x,
{
    reveal_with_fuel(le_byte, 9);
    let x1 = x / 256;
    let x2 = x1 / 256;
    let x3 = x2 / 256;
    let x4 = x3 / 256;
    let x5 = x4 / 256;
    let x6 = x5 / 256;
    let x7 = x6 / 256;
    assert(x7 < 256);
    assert(le_byte(x, 1) == le_byte(x1, 0));
    assert(le_byte(x, 2) == le_byte(x2, 0));
    assert(le_byte(x, 3) == le_byte(x3, 0));
    assert(le_byte(x, 4) == le_byte(x4, 0));
    assert(le_byte(x, 5) == le_byte(x5, 0));
    assert(le_byte(x, 6) == le_byte(x6, 0));
    assert(le_byte(x, 7) == le_byte(x7, 0));
}

/// A listener reads the protocol's number and the host's name back from an announcement, and the
/// product's name where it is short enough not to run into them.
pub proof fn announcement_reads_back(name: Seq<u8>, protocol_id: u64, hostname: Seq<u8>)
    requires
        fits_in_announcement(name, hostname),
    ensures
        announcement(name, protocol_id, hostname).len() == PACKET_LEN,
        le_value(
            announcement(name, protocol_id, hostname).subrange(
                PROTOCOL_OFFSET as int,
                HOSTNAME_OFFSET as int,
            ),
        ) == protocol_id,
        announcement(name, protocol_id, hostname).subrange(
            HOSTNAME_OFFSET as int,
            HOSTNAME_OFFSET + hostname.len(),
        ) == hostname,
        name.len() <= PROTOCOL_OFFSET ==> announcement(name, protocol_id, hostname).take(
            name.len() as int,
        ) == name,
{
    lemma_le_value(protocol_id);
    let packet = announcement(name, protocol_id, hostname);
    let id = packet.subrange(PROTOCOL_OFFSET as int, HOSTNAME_OFFSET as int);
    assert forall|k: int| 0 <= k < 8 implies #[trigger] id[k] == le_byte(protocol_id, k as nat) by {
        assert(id[k] == packet[PROTOCOL_OFFSET + k]);
    }
    assert(packet.subrange(HOSTNAME_OFFSET as int, HOSTNAME_OFFSET + hostname.len()) =~= hostname);
    if name.len() <= PROTOCOL_OFFSET {
        assert(packet.take(name.len() as int) =~= name);
    }
}

/// The sockets of an announcer, by the numbers under which the caller keeps them, and what is
/// sent on them.
#[derive(Debug, PartialEq, Eq)]
pub struct AnnouncerSocket {
    pub sockets: Vec<u64>,
    pub packet: [u8; 56],
}

/// What setting up an announcer does.
#[derive(Debug, PartialEq, Eq)]
pub enum AnnouncerStep {
    /// Bind a UDP socket to this address and allow it to broadcast.
    Open { ip: IpAddress, port: u16 },
    /// The announcer is ready.
    Ready(AnnouncerSocket),
    /// There is no socket; the error is that of the last attempt.
    Fail,
}

/// The IPv4 addresses among some addresses, in their order.
pub open spec fn ipv4_only(ips: Seq<IpAddress>) -> Seq<IpAddress> {
    ips.filter(|ip: IpAddress| ip is V4)
}

/// The sockets among some attempts to open one, in their order.
pub open spec fn opened_sockets(attempts: Seq<Option<u64>>) -> Seq<u64>
    decreases attempts.len(),
{
    if attempts.len() == 0 {
        Seq::empty()
    } else {
        let before = opened_sockets(attempts.drop_last());
        match attempts.last() {
            Some(socket) => before.push(socket),
            None => before,
        }
    }
}

fn collect_ipv4(ips: &Vec<IpAddress>) -> (r: Vec<IpAddress>)
    ensures
        r@ == ipv4_only(ips@),
{
    let ghost pred = |ip: IpAddress| ip is V4;
    let mut r: Vec<IpAddress> = Vec::new();
    let mut i: usize = 0;
    proof {
        reveal(Seq::filter);
        assert(ips@.take(0) =~= Seq::empty());
    }
    while i < ips.len()
        invariant
            i <= ips@.len(),
            pred == (|ip: IpAddress| ip is V4),
            r@ == ips@.take(i as int).filter(pred),
        decreases ips@.len() - i,
    {
        let ip = ips[i];
        proof {
            reveal(Seq::filter);
            assert(ips@.take(i + 1).drop_last() =~= ips@.take(i as int));
            assert(ips@.take(i + 1).last() == ips@[i as int]);
        }
        match ip {
            IpAddress::V4(_) => {
                r.push(ip);
            },
            _ => {},
        }
        i = i + 1;
    }
    assert(ips@.take(i as int) =~= ips@);
    r
}

fn collect_opened(attempts: &Vec<Option<u64>>, count: usize) -> (r: Vec<u64>)
    requires
        count <= attempts@.len(),
    ensures
        r@ == opened_sockets(attempts@.take(count as int)),
{
    let mut r: Vec<u64> = Vec::new();
    let mut i: usize = 0;
    assert(attempts@.take(0) =~= Seq::empty());
    while i < count
        invariant
            i <= count <= attempts@.len(),
            r@ == opened_sockets(attempts@.take(i as int)),
        decreases count - i,
    {
        proof {
            assert(attempts@.take(i + 1).drop_last() =~= attempts@.take(i as int));
            assert(attempts@.take(i + 1).last() == attempts@[i as int]);
        }
        match attempts[i] {
            Some(socket) => {
                r.push(socket);
            },
            None => {},
        }
        i = i + 1;
    }
    r
}

/// What the attempts made so far lead to. First each IPv4 address is tried, on a port of the
/// system's choice; only where none of them could be opened, `local_ip` and `control_port` are.
pub open spec fn setup_outcome(
    packet: Seq<u8>,
    local_ips: Seq<IpAddress>,
    local_ip: IpAddress,
    control_port: u16,
    attempts: Seq<Option<u64>>,
    step: AnnouncerStep,
) -> bool {
    let targets = ipv4_only(local_ips);
    let opened = opened_sockets(attempts.take(targets.len() as int));
    if attempts.len() < targets.len() {
        step == (AnnouncerStep::Open { ip: targets[attempts.len() as int], port: 0 })
    } else if opened.len() > 0 {
        step is Ready && step->Ready_0.sockets@ == opened && step->Ready_0.packet@ == packet
    } else if attempts.len() == targets.len() {
        step == (AnnouncerStep::Open { ip: local_ip, port: control_port })
    } else {
        match attempts[targets.len() as int] {
            Some(socket) => step is Ready && step->Ready_0.sockets@ == seq![socket]
                && step->Ready_0.packet@ == packet,
            None => step == AnnouncerStep::Fail,
        }
    }
}

/// One broadcast of an announcement.
#[derive(Clone, Copy, Debug, PartialEq, Eq)]
pub struct Broadcast {
    pub socket: u64,
    pub ip: [u8; 4],
    pub port: u16,
    pub packet: [u8; 56],
}

impl AnnouncerSocket {
    /// Sets up an announcer: says what to do after the attempts to open a socket made so far.
    pub fn new(
        name: &str,
        protocol_id: u64,
        hostname: &str,
        local_ips: &Vec<IpAddress>,
        local_ip: IpAddress,
        control_port: u16,
        attempts: &Vec<Option<u64>>,
    ) -> (step: AnnouncerStep)
        requires
            fits_in_announcement(name.spec_bytes(), hostname.spec_bytes()),
        ensures
            setup_outcome(
                announcement(name.spec_bytes(), protocol_id, hostname.spec_bytes()),
                local_ips@,
                local_ip,
                control_port,
                attempts@,
                step,
            ),
    {
        let packet: [u8; 56] = build_packet(name, protocol_id, hostname);
        let targets = collect_ipv4(local_ips);
        if attempts.len() < targets.len() {
            return AnnouncerStep::Open { ip: targets[attempts.len()], port: 0 };
        }
        let opened = collect_opened(attempts, targets.len());
        if opened.len() > 0 {
            return AnnouncerStep::Ready(AnnouncerSocket { sockets: opened, packet });
        }
        if attempts.len() == targets.len() {
            return AnnouncerStep::Open { ip: local_ip, port: control_port };
        }
        match attempts[targets.len()] {
            Some(socket) => {
                let mut sockets: Vec<u64> = Vec::new();
                sockets.push(socket);
                assert(sockets@ =~= seq![socket]);
                AnnouncerStep::Ready(AnnouncerSocket { sockets, packet })
            },
            None => AnnouncerStep::Fail,
        }
    }

    /// The broadcasts of one announcement: the packet on every socket, in their order. A broadcast
    /// that fails does not keep the others back, and the announcement as a whole does not fail.
    pub fn announce_broadcast(&self, control_port: u16) -> (sends: Vec<Broadcast>)
        ensures
            sends@.len() == self.sockets@.len(),
            forall|i: int|
                0 <= i < sends@.len() ==> {
                    &&& (#[trigger] sends@[i]).socket == self.sockets@[i]
                    &&& sends@[i].ip == BROADCAST
                    &&& sends@[i].port == control_port
                    &&& sends@[i].packet == self.packet
                },
    {
        let mut sends: Vec<Broadcast> = Vec::new();
        let mut i: usize = 0;
        while i < self.sockets.len()
            invariant
                i <= self.sockets@.len(),
                sends@.len() == i,
                forall|k: int|
                    0 <= k < i ==> {
                        &&& (#[trigger] sends@[k]).socket == self.sockets@[k]
                        &&& sends@[k].ip == BROADCAST
                        &&& sends@[k].port == control_port
                        &&& sends@[k].packet == self.packet
                    },
            decreases self.sockets@.len() - i,
        {
            sends.push(
                Broadcast {
                    socket: self.sockets[i],
                    ip: BROADCAST,
                    port: control_port,
                    packet: self.packet,
                },
            );
            i = i + 1;
        }
        sends
    }
}

/// An announcer that is ready has a socket to announce on, and announces exactly the packet that
/// was built for it.
pub proof fn a_ready_announcer_has_a_socket(
    packet: Seq<u8>,
    local_ips: Seq<IpAddress>,
    local_ip: IpAddress,
    control_port: u16,
    attempts: Seq<Option<u64>>,
    step: AnnouncerStep,
)
    requires
        setup_outcome(packet, local_ips, local_ip, control_port, attempts, step),
        step is Ready,
    ensures
        step->Ready_0.sockets@.len() >= 1,
        step->Ready_0.packet@ == packet,
{
}

/// The default address is tried only where no attempt on an interface's own address worked.
pub proof fn the_default_address_is_a_last_resort(
    packet: Seq<u8>,
    local_ips: Seq<IpAddress>,
    local_ip: IpAddress,
    control_port: u16,
    attempts: Seq<Option<u64>>,
    step: AnnouncerStep,
    i: int,
)
    requires
        setup_outcome(packet, local_ips, local_ip, control_port, attempts, step),
        attempts.len() >= ipv4_only(local_ips).len(),
        !(step is Ready),
        0 <= i < ipv4_only(local_ips).len(),
    ensures
        attempts[i] is None,
{
    lemma_opened(attempts.take(ipv4_only(local_ips).len() as int), i);
}

proof fn lemma_opened(attempts: Seq<Option<u64>>, i: int)
    requires
        0 <= i < attempts.len(),
        opened_sockets(attempts).len() == 0,
    ensures
        attempts[i] is None,
    decreases attempts.len(),
{
    if i < attempts.len() - 1 {
        lemma_opened(attempts.drop_last(), i);
    }
}

/// Every byte of an announcement has its place: 56 bytes, of which those from the 24th on are the
/// host's name, the eight before them the protocol's number, least significant first, and those
/// before that the product's name; what none of them fills is zero.
pub proof fn every_byte_of_an_announcement_has_its_place(
    name: Seq<u8>,
    protocol_id: u64,
    hostname: Seq<u8>,
    i: int,
)
    requires
        fits_in_announcement(name, hostname),
        0 <= i < 56,
    ensures
        ({
            let packet = announcement(name, protocol_id, hostname);
            &&& packet.len() == 56
            &&& packet[16] + 0x100 * packet[17] + 0x1_0000 * packet[18] + 0x100_0000 * packet[19]
                + 0x1_0000_0000 * packet[20] + 0x100_0000_0000 * packet[21] + 0x1_0000_0000_0000
                * packet[22] + 0x100_0000_0000_0000 * packet[23] == protocol_id
            &&& 24 <= i < 24 + hostname.len() ==> packet[i] == hostname[i - 24]
            &&& i < 16 && i < name.len() ==> packet[i] == name[i]
            &&& i < 16 && i >= name.len() ==> packet[i] == 0
            &&& i >= 24 + hostname.len() && i < name.len() ==> packet[i] == name[i]
            &&& i >= 24 + hostname.len() && i >= name.len() ==> packet[i] == 0
        }),
{
    lemma_le_value(protocol_id);
}

/// The addresses that are tried are the IPv4 ones, each of them, in the order in which they are
/// listed.
pub proof fn every_ipv4_address_is_tried_in_its_turn(
    before: Seq<IpAddress>,
    ip: IpAddress,
)
    ensures
        ipv4_only(Seq::<IpAddress>::empty()) == Seq::<IpAddress>::empty(),
        ip is V4 ==> ipv4_only(before.push(ip)) == ipv4_only(before).push(ip),
        ip is V6 ==> ipv4_only(before.push(ip)) == ipv4_only(before),
{
    reveal(Seq::filter);
    assert(before.push(ip).drop_last() =~= before);
}

/// The sockets that are announced on are those that could be opened, each of them, in the order in
/// which they were opened.
pub proof fn every_opened_socket_is_used(before: Seq<Option<u64>>, socket: u64)
    ensures
        opened_sockets(Seq::<Option<u64>>::empty()) == Seq::<u64>::empty(),
        opened_sockets(before.push(Some(socket))) == opened_sockets(before).push(socket),
        opened_sockets(before.push(None)) == opened_sockets(before),
{
    assert(before.push(Some(socket)).drop_last() =~= before);
    assert(before.push(None).drop_last() =~= before);
}

/// An address of an interface is tried on a port of the system's choice, and the default address, if
/// it is tried, on the port that was asked for. An announcer fails exactly when every one of them
/// was tried and none could be opened.
pub proof fn every_address_is_tried_before_giving_up(
    packet: Seq<u8>,
    local_ips: Seq<IpAddress>,
    local_ip: IpAddress,
    control_port: u16,
    attempts: Seq<Option<u64>>,
    step: AnnouncerStep,
)
    requires
        setup_outcome(packet, local_ips, local_ip, control_port, attempts, step),
    ensures
        ({
            let n = ipv4_only(local_ips).len();
            let found = exists|i: int| 0 <= i < n && (#[trigger] attempts[i]) is Some;
            &&& attempts.len() < n ==> step == (AnnouncerStep::Open {
                ip: ipv4_only(local_ips)[attempts.len() as int],
                port: 0,
            })
            &&& attempts.len() >= n && found ==> step is Ready && step->Ready_0.sockets@
                == opened_sockets(attempts.take(n as int))
            &&& attempts.len() == n && !found ==> step == (AnnouncerStep::Open {
                ip: local_ip,
                port: control_port,
            })
            &&& attempts.len() > n && !found && attempts[n as int] is Some ==> step is Ready
                && step->Ready_0.sockets@ == seq![attempts[n as int]->0]
            &&& step is Fail <==> attempts.len() > n && !found && attempts[n as int] is None
            &&& step is Ready ==> step->Ready_0.packet@ == packet
        }),
{
    let n = ipv4_only(local_ips).len() as int;
    if attempts.len() >= n {
        lemma_opened_or_not(attempts.take(n));
        assert forall|i: int| 0 <= i < n implies attempts.take(n)[i] == #[trigger] attempts[i] by {}
    }
}

proof fn lemma_opened_or_not(attempts: Seq<Option<u64>>)
    ensures
        opened_sockets(attempts).len() > 0 <==> exists|i: int|
            0 <= i < attempts.len() && (#[trigger] attempts[i]) is Some,
    decreases attempts.len(),
{
    if attempts.len() > 0 {
        let before = attempts.drop_last();
        lemma_opened_or_not(before);
        assert(forall|i: int| 0 <= i < before.len() ==> before[i] == #[trigger] attempts[i]);
        if exists|i: int| 0 <= i < before.len() && (#[trigger] before[i]) is Some {
            let i = choose|i: int| 0 <= i < before.len() && (#[trigger] before[i]) is Some;
            assert(attempts[i] is Some);
        }
        if attempts.last() is Some {
            assert(attempts[attempts.len() - 1] is Some);
        }
    }
}

/// One announcement goes out once on every socket, to everybody on its network, on the port that was
/// asked for, with the announcer's packet.
pub proof fn an_announcement_goes_out_on_every_socket(
    announcer: AnnouncerSocket,
    control_port: u16,
    sends: Vec<Broadcast>,
    i: int,
)
    requires
        call_ensures(AnnouncerSocket::announce_broadcast, (&announcer, control_port), sends),
    ensures
        sends@.len() == announcer.sockets@.len(),
        0 <= i < sends@.len() ==> sends@[i].socket == announcer.sockets@[i] && sends@[i].port
            == control_port && sends@[i].packet == announcer.packet && sends@[i].ip@ == seq![
            255u8,
            255u8,
            255u8,
            255u8,
        ],
{
    if 0 <= i < sends@.len() {
        assert(BROADCAST@ =~= seq![255u8, 255u8, 255u8, 255u8]);
    }
}

} // verus!
