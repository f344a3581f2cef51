use latency_link::announcer::{build_packet, AnnouncerSocket, AnnouncerStep};
use latency_link::packets::IpAddress;

fn ips() -> Vec<IpAddress> {
    vec![
        IpAddress::V4([192, 168, 1, 5]),
        IpAddress::V6([0; 16]),
        IpAddress::V4([10, 0, 0, 5]),
    ]
}

fn any_ip() -> IpAddress {
    IpAddress::V4([0, 0, 0, 0])
}

fn step(ips: &Vec<IpAddress>, attempts: &Vec<Option<u64>>) -> AnnouncerStep {
    AnnouncerSocket::new("ALVR", 0x0102_0304_0506_0708, "host.client", ips, any_ip(), 9943, attempts)
}

fn ready(step: AnnouncerStep) -> AnnouncerSocket {
    match step {
        AnnouncerStep::Ready(socket) => socket,
        other => panic!("not ready: {:?}", other),
    }
}

#[test]
fn an_announcement_has_everything_in_its_place() {
    let packet = build_packet("ALVR", 0x0102_0304_0506_0708, "host.client");
    assert_eq!(&packet[0..4], b"ALVR");
    assert_eq!(&packet[4..16], &[0; 12]);
    assert_eq!(&packet[16..24], &[8, 7, 6, 5, 4, 3, 2, 1]);
    assert_eq!(&packet[24..35], b"host.client");
    assert_eq!(&packet[35..56], &[0; 21]);
}

#[test]
fn a_hostname_may_fill_the_packet() {
    let hostname = "h".repeat(32);
    let packet = build_packet("ALVR", u64::MAX, &hostname);
    assert_eq!(&packet[16..24], &[255; 8]);
    assert_eq!(&packet[24..56], hostname.as_bytes());
}

#[test]
fn later_parts_are_written_over_earlier_ones() {
    let name = "n".repeat(56);
    let packet = build_packet(&name, 0, "é");
    assert_eq!(&packet[0..16], "n".repeat(16).as_bytes());
    assert_eq!(&packet[16..24], &[0; 8]);
    assert_eq!(&packet[24..26], "é".as_bytes());
    assert_eq!(&packet[26..56], "n".repeat(30).as_bytes());
}

#[test]
fn each_ipv4_address_gets_a_socket() {
    let mut attempts = Vec::new();
    assert_eq!(
        step(&ips(), &attempts),
        AnnouncerStep::Open { ip: IpAddress::V4([192, 168, 1, 5]), port: 0 }
    );
    attempts.push(Some(40));
    assert_eq!(
        step(&ips(), &attempts),
        AnnouncerStep::Open { ip: IpAddress::V4([10, 0, 0, 5]), port: 0 }
    );
    attempts.push(Some(41));
    assert_eq!(ready(step(&ips(), &attempts)).sockets, vec![40, 41]);
    assert_eq!(ready(step(&ips(), &vec![None, Some(41)])).sockets, vec![41]);
}

#[test]
fn the_default_address_is_used_where_nothing_else_can_be_opened() {
    let fallback = AnnouncerStep::Open { ip: any_ip(), port: 9943 };
    assert_eq!(step(&ips(), &vec![None, None]), fallback);
    assert_eq!(step(&Vec::new(), &Vec::new()), fallback);
    assert_eq!(ready(step(&Vec::new(), &vec![Some(9)])).sockets, vec![9]);
    assert_eq!(step(&ips(), &vec![None, None, None]), AnnouncerStep::Fail);
}

#[test]
fn an_announcement_goes_out_on_every_socket() {
    let socket = ready(step(&ips(), &vec![Some(1), Some(2)]));
    let sends = socket.announce_broadcast(9943);
    assert_eq!(sends.len(), 2);
    for (send, number) in sends.iter().zip([1, 2]) {
        assert_eq!(send.socket, number);
        assert_eq!(send.ip, [255, 255, 255, 255]);
        assert_eq!(send.port, 9943);
        assert_eq!(send.packet, build_packet("ALVR", 0x0102_0304_0506_0708, "host.client"));
    }
}
