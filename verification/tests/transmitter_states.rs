use rustsync::dispatch::Outgoing;
use rustsync::transmit::{SendAction, SendEvent, SendState, Transmitter};
use rustsync::wire::{parse_message, TransferError};

fn outgoing() -> Outgoing {
    let mut header = vec![0u8, 0, 0, 16];
    header.extend_from_slice(b"{\"path\":\"a.txt\"}");
    Outgoing { source: "/data/a.txt".to_string(), host: "mirror".to_string(), port: 7878, header }
}

#[test]
fn transmission_asks_for_each_step_in_order() {
    let (mut transmitter, first) = Transmitter::new(outgoing());
    assert_eq!(first, SendAction::Connect { host: "mirror".to_string(), port: 7878 });
    assert_eq!(transmitter.current_state(), SendState::Connecting);
    assert_eq!(transmitter.step(SendEvent::Connected), SendAction::Write(outgoing().header));
    assert_eq!(transmitter.current_state(), SendState::SendingHeader);
    assert_eq!(
        transmitter.step(SendEvent::Written),
        SendAction::ReadFile { source: "/data/a.txt".to_string() }
    );
    assert_eq!(transmitter.current_state(), SendState::ReadingFile);
    assert_eq!(
        transmitter.step(SendEvent::FileRead(b"hello".to_vec())),
        SendAction::Write(b"hello".to_vec())
    );
    assert_eq!(transmitter.current_state(), SendState::SendingPayload);
    assert_eq!(transmitter.step(SendEvent::Written), SendAction::Close);
    assert_eq!(transmitter.current_state(), SendState::Finished);
    assert_eq!(transmitter.step(SendEvent::Written), SendAction::Close);
}

#[test]
fn written_bytes_are_read_back_by_the_receiver() {
    let (mut transmitter, _) = Transmitter::new(outgoing());
    let mut wire: Vec<u8> = Vec::new();
    let mut action = transmitter.step(SendEvent::Connected);
    loop {
        let event = match action {
            SendAction::Write(bytes) => {
                wire.extend_from_slice(&bytes);
                SendEvent::Written
            }
            SendAction::ReadFile { .. } => SendEvent::FileRead(b"latest".to_vec()),
            SendAction::Close => break,
            other => panic!("unexpected action {:?}", other),
        };
        action = transmitter.step(event);
    }
    let message = parse_message(&wire).unwrap();
    assert_eq!(message.relative_path, "a.txt");
    assert_eq!(message.payload, b"latest".to_vec());
}

#[test]
fn any_failure_ends_the_transmission_with_an_io_error() {
    let steps: Vec<Vec<SendEvent>> = vec![
        vec![],
        vec![SendEvent::Connected],
        vec![SendEvent::Connected, SendEvent::Written],
        vec![SendEvent::Connected, SendEvent::Written, SendEvent::FileRead(vec![1])],
    ];
    for before in steps {
        let (mut transmitter, _) = Transmitter::new(outgoing());
        for event in before {
            transmitter.step(event);
        }
        assert_eq!(transmitter.step(SendEvent::Failed), SendAction::Abort(TransferError::Io));
        assert_eq!(transmitter.current_state(), SendState::Finished);
        assert_eq!(transmitter.step(SendEvent::Failed), SendAction::Close);
    }
}

#[test]
fn event_that_answers_nothing_ends_the_transmission() {
    let (mut transmitter, _) = Transmitter::new(outgoing());
    assert_eq!(transmitter.step(SendEvent::Written), SendAction::Abort(TransferError::Io));
    assert_eq!(transmitter.current_state(), SendState::Finished);
}

#[test]
fn failure_to_one_target_leaves_the_other_transfer_whole() {
    let targets = vec![
        rustsync::config::TargetConfig {
            host: "down".to_string(),
            port: None,
            path: "/m".to_string(),
        },
        rustsync::config::TargetConfig {
            host: "up".to_string(),
            port: Some(9000),
            path: "/m".to_string(),
        },
    ];
    let mut sends = rustsync::dispatch::fan_out("/data/a.txt", &targets, "/data");
    let to_up = sends.pop().unwrap().unwrap();
    let to_down = sends.pop().unwrap().unwrap();
    let (mut down, _) = Transmitter::new(to_down);
    assert_eq!(down.step(SendEvent::Failed), SendAction::Abort(TransferError::Io));
    let (mut up, first) = Transmitter::new(to_up);
    assert_eq!(first, SendAction::Connect { host: "up".to_string(), port: 9000 });
    assert_eq!(up.step(SendEvent::Connected), SendAction::Write(outgoing().header));
    assert_eq!(
        up.step(SendEvent::Written),
        SendAction::ReadFile { source: "/data/a.txt".to_string() }
    );
    assert_eq!(up.step(SendEvent::FileRead(vec![1, 2])), SendAction::Write(vec![1, 2]));
    assert_eq!(up.step(SendEvent::Written), SendAction::Close);
}
