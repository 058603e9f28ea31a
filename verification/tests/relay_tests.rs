use framed_relay::pump::{
    read_pump_after_forward, read_pump_step, supervisor_verdict, write_pump_after_write,
    write_pump_step, BridgeVerdict, PumpId, PumpOutcome, QueueEvent, ReadEvent, ReadPumpAction,
    WritePumpAction,
};
use framed_relay::queue::{relay_in_order, RelayQueue, QUEUE_CAPACITY};

#[test]
fn queue_is_first_in_first_out() {
    let mut q = RelayQueue::new(QUEUE_CAPACITY);
    q.push(vec![1]);
    q.push(vec![2, 2]);
    q.push(vec![3, 3, 3]);
    assert_eq!(q.len(), 3);
    assert_eq!(q.pop(), vec![1]);
    assert_eq!(q.pop(), vec![2, 2]);
    assert_eq!(q.pop(), vec![3, 3, 3]);
    assert_eq!(q.len(), 0);
}

#[test]
fn queue_reports_full_at_capacity() {
    let mut q = RelayQueue::new(2);
    assert!(!q.is_full());
    q.push(vec![1]);
    assert!(!q.is_full());
    q.push(vec![2]);
    assert!(q.is_full());
}

#[test]
fn relay_preserves_order_beyond_capacity() {
    // More frames than the queue has slots: the producer must wait for
    // space, and the order still comes out unchanged.
    let frames: Vec<Vec<u8>> = (0u8..25).map(|i| vec![i; (i as usize % 5) + 1]).collect();
    let out = relay_in_order(frames.clone(), QUEUE_CAPACITY);
    assert_eq!(out, frames);
}

#[test]
fn one_direction_end_to_end_preserves_frames() {
    // One whole direction of the bridge, minus the transports: frames
    // framed onto a stream, decoded back off it, and carried through
    // the bounded queue come out identical and in order.
    let frames: Vec<Vec<u8>> = (0u8..30).map(|i| vec![i; (i as usize * 7) % 11]).collect();
    let mut stream: Vec<u8> = Vec::new();
    for f in &frames {
        stream.extend(framed_relay::codec::encode_frame(f).expect("within limit"));
    }
    let (decoded, clean) = framed_relay::codec::decode_stream(&stream);
    assert!(clean);
    let out = relay_in_order(decoded, QUEUE_CAPACITY);
    assert_eq!(out, frames);
}

#[test]
fn read_pump_forwards_frames_unchanged() {
    match read_pump_step(ReadEvent::Frame { payload: vec![7, 8, 9] }) {
        ReadPumpAction::Forward { payload } => assert_eq!(payload, vec![7, 8, 9]),
        _ => panic!("a decoded frame must be forwarded"),
    }
}

#[test]
fn read_pump_stops_clean_on_eof_and_errored_on_failure() {
    assert!(matches!(read_pump_step(ReadEvent::CleanEof), ReadPumpAction::StopClean));
    assert!(matches!(read_pump_step(ReadEvent::ReadFailed), ReadPumpAction::StopError));
    assert!(read_pump_after_forward(true));
    assert!(!read_pump_after_forward(false));
}

#[test]
fn write_pump_writes_items_and_stops_on_close() {
    match write_pump_step(QueueEvent::Item { payload: vec![4, 5] }) {
        WritePumpAction::WriteFrame { payload } => assert_eq!(payload, vec![4, 5]),
        _ => panic!("a queued payload must be written"),
    }
    assert!(matches!(write_pump_step(QueueEvent::Closed), WritePumpAction::StopClean));
    assert!(write_pump_after_write(true));
    assert!(!write_pump_after_write(false));
}

#[test]
fn any_single_pump_finishing_shuts_the_bridge_down() {
    // Whichever of the four pumps is first to finish, and however it
    // finished, the supervisor's verdict is a full shutdown.
    let pumps = [
        PumpId::NativeRead,
        PumpId::IpcWrite,
        PumpId::IpcRead,
        PumpId::NativeWrite,
    ];
    for pump in pumps {
        assert_eq!(
            supervisor_verdict(pump, PumpOutcome::Failed),
            BridgeVerdict::ShutdownAll { first: pump, failed: true }
        );
        assert_eq!(
            supervisor_verdict(pump, PumpOutcome::CleanStop),
            BridgeVerdict::ShutdownAll { first: pump, failed: false }
        );
    }
}
