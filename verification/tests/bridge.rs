use std::io;

use commons::discord::{discord_frame, DiscordWrite};
use commons::net::{get_address, InterfaceAddress};
use commons::packet::{packet_for, IpcEvent, Packet};
use commons::path::{get_path, get_temp_path, ConnectAttempts, IpcRoot, PathError, IPC_SLOTS};
use commons::session::{HostStep, SessionError, SessionTable};
use commons::text::{push_decimal, socket_address};
use commons::{BUFFER_SIZE, DEFAULT_PORT};

/// A Discord writer that remembers what it was asked to do.
#[derive(Default)]
struct Recorder {
    sent: Vec<Vec<u8>>,
    shut: bool,
    broken: bool,
}

impl DiscordWrite for Recorder {
    fn send_data(&mut self, data: Vec<u8>) -> Result<(), io::Error> {
        if self.broken {
            return Err(io::Error::new(io::ErrorKind::BrokenPipe, "broken"));
        }
        self.sent.push(data);
        Ok(())
    }

    fn shutdown(&mut self) -> Result<(), io::Error> {
        self.shut = true;
        Ok(())
    }
}

fn temp_root(dir: &str) -> IpcRoot {
    IpcRoot::TempDir(dir.to_string())
}

#[test]
fn constants_match_the_bridge() {
    assert_eq!(DEFAULT_PORT, 8765);
    assert_eq!(BUFFER_SIZE, 2048);
    assert_eq!(IPC_SLOTS, 10);
}

#[test]
fn get_path_under_a_temp_dir() {
    assert_eq!(
        get_path(0, &temp_root("/run/user/1000")).unwrap(),
        "/run/user/1000/discord-ipc-0"
    );
    assert_eq!(get_path(9, &temp_root("/tmp")).unwrap(), "/tmp/discord-ipc-9");
}

#[test]
fn get_path_on_named_pipes() {
    assert_eq!(
        get_path(3, &IpcRoot::NamedPipe).unwrap(),
        "\\\\.\\pipe\\discord-ipc-3"
    );
}

#[test]
fn get_path_refuses_slots_above_nine() {
    assert_eq!(get_path(10, &IpcRoot::NamedPipe), Err(PathError::SlotOutOfRange));
    assert_eq!(get_path(usize::MAX, &temp_root("/tmp")), Err(PathError::SlotOutOfRange));
}

fn all_attempts(root: &IpcRoot) -> Vec<String> {
    let mut attempts = ConnectAttempts::new();
    let mut paths = Vec::new();
    while let Some(path) = attempts.next_path(root) {
        paths.push(path);
    }
    paths
}

#[test]
fn connect_attempts_try_the_ten_slots_in_order() {
    let paths = all_attempts(&temp_root("/tmp"));
    assert_eq!(paths.len(), 10);
    for (i, path) in paths.iter().enumerate() {
        assert_eq!(path, &format!("/tmp/discord-ipc-{}", i));
    }
}

#[test]
fn connect_attempts_give_up_after_ten() {
    let root = IpcRoot::NamedPipe;
    let mut attempts = ConnectAttempts::new();
    for _ in 0..10 {
        assert!(attempts.next_path(&root).is_some());
    }
    assert_eq!(attempts.next_path(&root), None);
    assert_eq!(attempts.next_path(&root), None);
}

#[test]
fn ipc_paths_are_distinct() {
    let paths = all_attempts(&IpcRoot::NamedPipe);
    for i in 0..paths.len() {
        for j in 0..paths.len() {
            if i != j {
                assert_ne!(paths[i], paths[j]);
            }
        }
    }
}

#[test]
fn temp_path_takes_the_first_set_candidate() {
    let candidates = vec![
        None,
        Some("/var/tmp".to_string()),
        Some("/other".to_string()),
    ];
    assert_eq!(get_temp_path(&candidates), "/var/tmp");
    let first = vec![Some("/run/user/1000".to_string()), Some("/tmp".to_string())];
    assert_eq!(get_temp_path(&first), "/run/user/1000");
}

#[test]
fn temp_path_falls_back_to_tmp() {
    assert_eq!(get_temp_path(&vec![None, None, None, None, None]), "/tmp");
    assert_eq!(get_temp_path(&vec![]), "/tmp");
}

#[test]
fn socket_address_joins_host_and_port() {
    assert_eq!(socket_address("0.0.0.0", 8765), "0.0.0.0:8765");
    assert_eq!(socket_address("192.168.122.1", 0), "192.168.122.1:0");
    assert_eq!(socket_address("", 65535), ":65535");
}

#[test]
fn decimal_text_of_numbers() {
    for n in [0u64, 7, 10, 99, 100, 1234567890, u64::MAX] {
        let mut s = String::from("n=");
        push_decimal(&mut s, n);
        assert_eq!(s, format!("n={}", n));
    }
}

#[test]
fn frame_layout() {
    assert_eq!(discord_frame(1, "ab"), vec![1, 0, 0, 0, 2, 0, 0, 0, b'a', b'b']);
    assert_eq!(
        discord_frame(0x0809A0A1, ""),
        vec![0xA1, 0xA0, 0x09, 0x08, 0, 0, 0, 0]
    );
}

#[test]
fn frame_length_counts_utf8_bytes() {
    let frame = discord_frame(2, "é");
    assert_eq!(frame, vec![2, 0, 0, 0, 2, 0, 0, 0, 0xC3, 0xA9]);
}

#[test]
fn frame_reads_back() {
    let json = "{\"cmd\":\"DISPATCH\",\"evt\":\"READY\"}";
    let frame = discord_frame(258, json);
    let op = u32::from_le_bytes([frame[0], frame[1], frame[2], frame[3]]);
    let len = u32::from_le_bytes([frame[4], frame[5], frame[6], frame[7]]);
    assert_eq!(op, 258);
    assert_eq!(len as usize, json.len());
    assert_eq!(&frame[8..], json.as_bytes());
    assert_eq!(frame.len(), json.len() + 8);
}

#[test]
fn send_packet_writes_one_frame() {
    let mut writer = Recorder::default();
    writer.send_packet(1, "{}".to_string()).unwrap();
    assert_eq!(writer.sent, vec![vec![1, 0, 0, 0, 2, 0, 0, 0, b'{', b'}']]);
}

#[test]
fn send_packet_reports_a_failed_write() {
    let mut writer = Recorder {
        broken: true,
        ..Recorder::default()
    };
    assert!(writer.send_packet(1, "{}".to_string()).is_err());
}

#[test]
fn packet_session() {
    assert_eq!(Packet::Connect(5).session(), 5);
    assert_eq!(Packet::Disconnect(6).session(), 6);
    assert_eq!(Packet::Data(u128::MAX, vec![1]).session(), u128::MAX);
}

#[test]
fn session_lifecycle() {
    let mut table: SessionTable<Recorder> = SessionTable::new();
    assert!(!table.contains(7));
    table.open(7, Recorder::default());
    assert!(table.contains(7));
    assert!(table.deliver(7, vec![1, 2, 3]).unwrap().is_ok());
    assert!(table.deliver(7, vec![4]).unwrap().is_ok());
    let writer = table.close(7).unwrap();
    assert_eq!(writer.sent, vec![vec![1, 2, 3], vec![4]]);
    assert!(!table.contains(7));
    assert!(matches!(
        table.deliver(7, vec![5]),
        Err(SessionError::UnknownSession(7))
    ));
    assert!(matches!(table.close(7), Err(SessionError::UnknownSession(7))));
}

#[test]
fn deliver_reports_the_write_result() {
    let mut table: SessionTable<Recorder> = SessionTable::new();
    table.open(
        1,
        Recorder {
            broken: true,
            ..Recorder::default()
        },
    );
    assert!(table.deliver(1, vec![0]).unwrap().is_err());
    assert!(table.contains(1));
}

#[test]
fn open_replaces_a_session() {
    let mut table: SessionTable<Recorder> = SessionTable::new();
    table.open(1, Recorder::default());
    table.deliver(1, vec![9]).unwrap().unwrap();
    table.open(1, Recorder::default());
    let writer = table.close(1).unwrap();
    assert!(writer.sent.is_empty());
}

#[test]
fn sessions_do_not_mix() {
    let mut table: SessionTable<Recorder> = SessionTable::new();
    table.open(1, Recorder::default());
    table.open(2, Recorder::default());
    table.deliver(2, vec![2]).unwrap().unwrap();
    table.deliver(1, vec![1]).unwrap().unwrap();
    assert_eq!(table.close(1).unwrap().sent, vec![vec![1]]);
    assert_eq!(table.close(2).unwrap().sent, vec![vec![2]]);
}

#[test]
fn guest_routes_data_to_open_sessions_only() {
    let mut table: SessionTable<Recorder> = SessionTable::new();
    table.open(3, Recorder::default());
    assert!(table.route(Packet::Data(3, vec![7, 7])).is_some());
    assert!(table.route(Packet::Data(4, vec![8])).is_none());
    assert!(table.route(Packet::Connect(3)).is_none());
    assert!(table.route(Packet::Disconnect(3)).is_none());
    assert!(table.contains(3));
    assert_eq!(table.close(3).unwrap().sent, vec![vec![7, 7]]);
}

#[test]
fn host_dispatch_of_each_packet() {
    let mut table: SessionTable<Recorder> = SessionTable::new();
    match table.dispatch(Packet::Connect(11)) {
        Ok(HostStep::Open(id)) => assert_eq!(id, 11),
        _ => panic!("Connect must ask for a Discord connection"),
    }
    assert!(!table.contains(11));
    table.open(11, Recorder::default());
    match table.dispatch(Packet::Data(11, vec![42])) {
        Ok(HostStep::Delivered(result)) => assert!(result.is_ok()),
        _ => panic!("Data for an open session must be delivered"),
    }
    match table.dispatch(Packet::Disconnect(11)) {
        Ok(HostStep::Closed(writer)) => assert_eq!(writer.sent, vec![vec![42]]),
        _ => panic!("Disconnect of an open session must close it"),
    }
    assert!(!table.contains(11));
}

#[test]
fn host_dispatch_refuses_unknown_sessions() {
    let mut table: SessionTable<Recorder> = SessionTable::new();
    assert!(matches!(
        table.dispatch(Packet::Data(1, vec![1])),
        Err(SessionError::UnknownSession(1))
    ));
    assert!(matches!(
        table.dispatch(Packet::Disconnect(2)),
        Err(SessionError::UnknownSession(2))
    ));
}

fn address(is_ipv4: bool, ip: Option<&str>) -> InterfaceAddress {
    InterfaceAddress {
        is_ipv4,
        ip: ip.map(|ip| ip.to_string()),
    }
}

#[test]
fn get_address_takes_the_first_ipv4_with_an_ip() {
    let addresses = vec![
        address(false, Some("fe80::1")),
        address(true, None),
        address(true, Some("192.168.122.1")),
        address(true, Some("10.0.0.1")),
    ];
    assert_eq!(get_address(&addresses), Some("192.168.122.1".to_string()));
}

#[test]
fn get_address_without_ipv4() {
    assert_eq!(get_address(&vec![]), None);
    let addresses = vec![address(false, Some("::1")), address(true, None)];
    assert_eq!(get_address(&addresses), None);
}

#[test]
fn guest_packets_for_ipc_events() {
    assert_eq!(packet_for(IpcEvent::Accepted(4)), Packet::Connect(4));
    assert_eq!(
        packet_for(IpcEvent::Received(4, vec![1, 2])),
        Packet::Data(4, vec![1, 2])
    );
    assert_eq!(packet_for(IpcEvent::Ended(4)), Packet::Disconnect(4));
}

#[test]
fn relay_hands_back_the_writer_with_the_data() {
    let mut table: SessionTable<Recorder> = SessionTable::new();
    table.open(21, Recorder::default());
    assert!(table.route(Packet::Data(21, vec![5, 6, 7])).unwrap().is_ok());
    let writer = table.close(21).unwrap();
    assert_eq!(writer.sent, vec![vec![5, 6, 7]]);
    assert!(table.route(Packet::Data(21, vec![8])).is_none());
}

#[test]
fn get_address_ignores_unlistenable_entries() {
    let base = vec![address(true, Some("10.0.0.2")), address(true, Some("10.0.0.3"))];
    let mut padded = base.clone();
    padded.insert(0, address(false, Some("::1")));
    padded.insert(2, address(true, None));
    assert_eq!(get_address(&padded), get_address(&base));
    let mut appended = base.clone();
    appended.push(address(true, Some("172.16.0.1")));
    assert_eq!(get_address(&appended), get_address(&base));
    assert_eq!(get_address(&base), Some("10.0.0.2".to_string()));
}
