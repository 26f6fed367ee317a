use serial_session::controller::Controller;
use serial_session::events::{Action, Event, ListenerState, TxFormat};

/// Drives a fresh controller to the port-open state under the given name.
fn open_port(name: &str) -> Controller {
    let mut c = Controller::new();
    c.step(Event::SelectPort(name.to_string()));
    let a = c.step(Event::OpenPort);
    assert!(matches!(a, Action::OpenRequest(_)));
    c.step(Event::OpenSucceeded);
    c
}

#[test]
fn initial_state() {
    let c = Controller::new();
    assert!(c.selected_port.is_none());
    assert_eq!(c.baud, 9600);
    assert!(!c.port_open);
    assert_eq!(c.listener, ListenerState::Idle);
    assert!(c.rx_formats.hex);
    assert!(!c.rx_formats.utf8);
    assert!(!c.rx_formats.bin);
    assert_eq!(c.command, "");
    assert!(c.log.is_empty());
}

#[test]
fn open_without_selection_logs() {
    let mut c = Controller::new();
    let a = c.step(Event::OpenPort);
    assert!(matches!(a, Action::Wait));
    assert_eq!(c.log, vec!["No port selected".to_string()]);
    assert!(!c.port_open);
}

#[test]
fn open_failure_logs_and_keeps_handle_unset() {
    let mut c = Controller::new();
    c.step(Event::SelectPort("/dev/null-nonexistent".to_string()));
    let a = c.step(Event::OpenPort);
    match a {
        Action::OpenRequest(cfg) => {
            assert_eq!(cfg.name, "/dev/null-nonexistent");
            assert_eq!(cfg.baud, 9600);
        }
        other => panic!("expected an open request, got {other:?}"),
    }
    c.step(Event::OpenFailed("No such file or directory".to_string()));
    assert_eq!(
        c.log,
        vec!["Failed to open port '/dev/null-nonexistent': No such file or directory".to_string()]
    );
    assert!(!c.port_open);
}

#[test]
fn open_success_logs() {
    let c = open_port("/dev/ttyUSB0");
    assert!(c.port_open);
    assert_eq!(c.log, vec!["Successfully opened port '/dev/ttyUSB0'".to_string()]);
}

#[test]
fn send_hex_delivers_decoded_bytes() {
    let mut c = open_port("/dev/ttyUSB0");
    c.step(Event::SelectTxFormat(TxFormat::Hex));
    c.step(Event::ChangeCommand("DE AD BE EF".to_string()));
    let a = c.step(Event::Send);
    match a {
        Action::WriteRequest(TxFormat::Hex, bytes) => {
            assert_eq!(bytes, vec![0xDE, 0xAD, 0xBE, 0xEF]);
        }
        other => panic!("expected a write request, got {other:?}"),
    }
    c.step(Event::WriteSucceeded(4));
    assert_eq!(c.log.last().unwrap(), "Sent 4 bytes: DE AD BE EF");
    assert_eq!(c.command, "DE AD BE EF");
}

#[test]
fn send_hex_odd_length_rejected() {
    let mut c = open_port("/dev/ttyUSB0");
    c.step(Event::SelectTxFormat(TxFormat::Hex));
    c.step(Event::ChangeCommand("ABC".to_string()));
    let a = c.step(Event::Send);
    assert!(matches!(a, Action::Wait));
    assert_eq!(c.log.last().unwrap(), "Invalid hex string");
}

#[test]
fn send_hex_bad_digit_rejected() {
    let mut c = open_port("/dev/ttyUSB0");
    c.step(Event::SelectTxFormat(TxFormat::Hex));
    c.step(Event::ChangeCommand("ZZ".to_string()));
    let a = c.step(Event::Send);
    assert!(matches!(a, Action::Wait));
    assert_eq!(
        c.log.last().unwrap(),
        "Error decoding hex: Invalid character 'Z' at position 0"
    );
}

#[test]
fn send_utf8_delivers_encoding() {
    let mut c = open_port("/dev/ttyUSB0");
    c.step(Event::ChangeCommand("Hi".to_string()));
    let a = c.step(Event::Send);
    match a {
        Action::WriteRequest(TxFormat::Utf8, bytes) => assert_eq!(bytes, b"Hi".to_vec()),
        other => panic!("expected a write request, got {other:?}"),
    }
    c.step(Event::WriteSucceeded(2));
    assert_eq!(c.log.last().unwrap(), "Sent 2 bytes: Hi");
}

#[test]
fn send_without_port_logs() {
    let mut c = Controller::new();
    c.step(Event::ChangeCommand("Hi".to_string()));
    let a = c.step(Event::Send);
    assert!(matches!(a, Action::Wait));
    assert_eq!(c.log, vec!["Port not open".to_string()]);
}

#[test]
fn write_failures_log_per_format() {
    let mut c = open_port("/dev/ttyUSB0");
    c.step(Event::WriteFailed(TxFormat::Utf8, "broken pipe".to_string()));
    assert_eq!(c.log.last().unwrap(), "Error sending utf8 command: broken pipe");
    c.step(Event::WriteFailed(TxFormat::Hex, "broken pipe".to_string()));
    assert_eq!(c.log.last().unwrap(), "Error sending hex command: broken pipe");
}

#[test]
fn recv_without_port_logs() {
    let mut c = Controller::new();
    let a = c.step(Event::Recv);
    assert!(matches!(a, Action::Wait));
    assert_eq!(c.log, vec!["Port not open".to_string()]);
}

#[test]
fn recv_with_nothing_available_is_silent() {
    let mut c = open_port("/dev/ttyUSB0");
    let before = c.log.clone();
    let a = c.step(Event::Recv);
    assert!(matches!(a, Action::PollRequest));
    let a = c.step(Event::BytesAvailable(0));
    assert!(matches!(a, Action::Wait));
    assert_eq!(c.log, before);
}

#[test]
fn recv_renders_full_buffer_per_active_format() {
    let mut c = open_port("/dev/ttyUSB0");
    c.step(Event::ToggleRxUtf8(true));
    let before = c.log.len();
    let a = c.step(Event::Recv);
    assert!(matches!(a, Action::PollRequest));
    let a = c.step(Event::BytesAvailable(3));
    assert!(matches!(a, Action::ReadRequest));
    let mut buffer = vec![0u8; 16];
    buffer[0] = 0x48;
    buffer[1] = 0x69;
    buffer[2] = 0x0A;
    c.step(Event::ReadSucceeded(3, buffer));
    assert_eq!(c.log.len(), before + 2);
    assert_eq!(
        c.log[before],
        "Received 3 bytes: 48 69 0A 00 00 00 00 00 00 00 00 00 00 00 00 00"
    );
    assert_eq!(c.log[before + 1], format!("Received 3 bytes: Hi\n{}", "\0".repeat(13)));
}

#[test]
fn read_error_logs_message() {
    let mut c = open_port("/dev/ttyUSB0");
    c.step(Event::ReadFailed("Operation timed out".to_string()));
    assert_eq!(c.log.last().unwrap(), "Operation timed out");
}

#[test]
fn listener_toggle_and_close() {
    let mut c = open_port("/dev/ttyUSB0");
    c.step(Event::ToggleListener);
    assert_eq!(c.listener, ListenerState::Listening);
    assert_eq!(c.log.last().unwrap(), "Listener started");
    let a = c.step(Event::ClosePort);
    assert!(matches!(a, Action::CloseRequest));
    assert_eq!(c.listener, ListenerState::Idle);
    assert!(!c.port_open);
    assert_eq!(
        c.log,
        vec![
            "Successfully opened port '/dev/ttyUSB0'".to_string(),
            "Listener started".to_string(),
            "Port closed".to_string(),
        ]
    );
}

#[test]
fn listener_stop_logs() {
    let mut c = open_port("/dev/ttyUSB0");
    c.step(Event::ToggleListener);
    c.step(Event::ToggleListener);
    assert_eq!(c.listener, ListenerState::Idle);
    assert_eq!(c.log.last().unwrap(), "Listener stopped");
}

#[test]
fn listener_needs_open_port() {
    let mut c = Controller::new();
    c.step(Event::ToggleListener);
    assert_eq!(c.listener, ListenerState::Idle);
    assert_eq!(c.log, vec!["Port not open".to_string()]);
}

#[test]
fn closing_a_closed_port_is_silent() {
    let mut c = Controller::new();
    let a = c.step(Event::ClosePort);
    assert!(matches!(a, Action::Wait));
    assert!(c.log.is_empty());
}

#[test]
fn open_failure_while_listening_disarms() {
    let mut c = open_port("/dev/ttyUSB0");
    c.step(Event::ToggleListener);
    assert_eq!(c.listener, ListenerState::Listening);
    let a = c.step(Event::OpenPort);
    assert!(matches!(a, Action::OpenRequest(_)));
    c.step(Event::OpenFailed("device unplugged".to_string()));
    assert!(!c.port_open);
    assert_eq!(c.listener, ListenerState::Idle);
}

#[test]
fn settings_events_update_fields() {
    let mut c = Controller::new();
    c.step(Event::SelectBaud(115200));
    assert_eq!(c.baud, 115200);
    c.step(Event::ToggleRxBin(true));
    assert!(c.rx_formats.bin);
    c.step(Event::ToggleRxHex(false));
    assert!(!c.rx_formats.hex);
    c.step(Event::SelectTheme("Dracula".to_string()));
    assert_eq!(c.theme, "Dracula");
    c.step(Event::HoverTheme("Nord".to_string()));
    assert_eq!(c.theme, "Nord");
}

#[test]
fn log_only_ever_grows() {
    let mut c = Controller::new();
    let events = vec![
        Event::OpenPort,
        Event::SelectPort("/dev/ttyS0".to_string()),
        Event::OpenPort,
        Event::OpenSucceeded,
        Event::ToggleListener,
        Event::ChangeCommand("00".to_string()),
        Event::SelectTxFormat(TxFormat::Hex),
        Event::Send,
        Event::WriteSucceeded(1),
        Event::ClosePort,
        Event::Recv,
    ];
    for e in events {
        let before = c.log.clone();
        c.step(e);
        assert!(c.log.len() >= before.len());
        assert_eq!(c.log[..before.len()], before[..]);
    }
}
