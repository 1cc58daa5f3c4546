use cameleon::emulator::fake_protocol::{
    FakeAckKind, FakeAckPacket, FakeReqKind, FakeReqPacket, IfaceKind,
};
use cameleon::emulator::shared_queue::SharedQueue;
use cameleon::emulator::signal::{ControlSignal, EventSignal, InterfaceSignal, StreamSignal};

#[test]
fn request_packets_keep_what_they_are_given() {
    let packet = FakeReqPacket::new(IfaceKind::Stream, FakeReqKind::Send(vec![1, 2, 3]));
    assert_eq!(packet.iface, IfaceKind::Stream);
    assert_eq!(packet.kind, FakeReqKind::Send(vec![1, 2, 3]));
    assert_eq!(
        packet,
        FakeReqPacket { iface: IfaceKind::Stream, kind: FakeReqKind::Send(vec![1, 2, 3]) }
    );
}

#[test]
fn halt_requests_are_told_apart() {
    assert!(FakeReqKind::SetHalt.is_set_halt());
    assert!(!FakeReqKind::SetHalt.is_clear_halt());
    assert!(FakeReqKind::ClearHalt.is_clear_halt());
    assert!(!FakeReqKind::ClearHalt.is_set_halt());
    assert!(!FakeReqKind::Recv.is_set_halt());
    assert!(!FakeReqKind::Recv.is_clear_halt());
    assert!(!FakeReqKind::Send(vec![]).is_set_halt());
    assert!(!FakeReqKind::Send(vec![]).is_clear_halt());
}

#[test]
fn ack_packets_keep_what_they_are_given() {
    let packet = FakeAckPacket::new(IfaceKind::Control, FakeAckKind::RecvAck(vec![9]));
    assert_eq!(packet.iface, IfaceKind::Control);
    assert_eq!(packet.kind, FakeAckKind::RecvAck(vec![9]));
    let packet = FakeAckPacket::new(IfaceKind::Event, FakeAckKind::IfaceHalted);
    assert_eq!(packet, FakeAckPacket { iface: IfaceKind::Event, kind: FakeAckKind::IfaceHalted });
}

#[test]
fn the_queue_gives_out_in_the_order_of_arrival() {
    let mut queue: SharedQueue<u32> = SharedQueue::new(3);
    assert_eq!(queue.len(), 0);
    assert_eq!(queue.dequeue(), None);
    assert!(queue.enqueue(1));
    assert!(queue.enqueue(2));
    assert!(queue.enqueue(3));
    assert_eq!(queue.len(), 3);
    assert_eq!(queue.dequeue(), Some(1));
    assert!(queue.enqueue(4));
    assert_eq!(queue.dequeue(), Some(2));
    assert_eq!(queue.dequeue(), Some(3));
    assert_eq!(queue.dequeue(), Some(4));
    assert_eq!(queue.dequeue(), None);
}

#[test]
fn a_full_queue_takes_no_more() {
    let mut queue: SharedQueue<&str> = SharedQueue::new(2);
    assert!(queue.enqueue("a"));
    assert!(queue.enqueue("b"));
    assert!(!queue.enqueue("c"));
    assert_eq!(queue.len(), 2);
    assert_eq!(queue.dequeue(), Some("a"));
    assert!(queue.enqueue("d"));
    assert!(!queue.enqueue("e"));
    assert_eq!(queue.dequeue(), Some("b"));
    assert_eq!(queue.dequeue(), Some("d"));

    let mut none: SharedQueue<u8> = SharedQueue::new(0);
    assert!(!none.enqueue(1));
    assert_eq!(none.dequeue(), None);
}

#[test]
fn clearing_empties_the_queue() {
    let mut queue: SharedQueue<u8> = SharedQueue::new(4);
    assert!(queue.enqueue(1));
    assert!(queue.enqueue(2));
    queue.clear();
    assert_eq!(queue.len(), 0);
    assert_eq!(queue.dequeue(), None);
    assert!(queue.enqueue(3));
    assert_eq!(queue.dequeue(), Some(3));
}

#[test]
fn signals_of_the_modules_become_signals_of_the_interface() {
    assert!(matches!(
        InterfaceSignal::from(ControlSignal::ReceiveData(vec![1])),
        InterfaceSignal::ToControl(ControlSignal::ReceiveData(data)) if data == vec![1]
    ));
    assert!(matches!(
        InterfaceSignal::from(ControlSignal::Shutdown),
        InterfaceSignal::ToControl(ControlSignal::Shutdown)
    ));
    assert!(matches!(
        InterfaceSignal::from(EventSignal::UpdateTimestamp(5)),
        InterfaceSignal::ToEvent(EventSignal::UpdateTimestamp(5))
    ));
    assert!(matches!(
        InterfaceSignal::from(StreamSignal::Enable),
        InterfaceSignal::ToStream(StreamSignal::Enable)
    ));
    let (tx, mut rx) = futures::channel::oneshot::channel::<()>();
    match InterfaceSignal::from(StreamSignal::Disable(tx)) {
        InterfaceSignal::ToStream(StreamSignal::Disable(tx)) => tx.send(()).unwrap(),
        _ => panic!("the signal changed on the way"),
    }
    assert_eq!(rx.try_recv(), Ok(Some(())));
}
