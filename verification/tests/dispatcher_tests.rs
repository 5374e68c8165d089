use lightctl::dispatcher::RadioDispatcher;
use lightctl::translate::LightCommand;

#[test]
fn empty_dispatcher_has_nothing_to_send() {
    let mut d = RadioDispatcher::new();
    assert_eq!(d.pending(), 0);
    assert!(d.next_transmission().is_none());
}

#[test]
fn commands_come_out_in_fifo_order() {
    let mut d = RadioDispatcher::new();
    d.enqueue(1, LightCommand::CCT(10, 0, 50));
    d.enqueue(2, LightCommand::HSI(180, 100, 10));
    d.enqueue(300, LightCommand::CCT(100, 100, 55));
    assert_eq!(d.pending(), 3);

    let first = d.next_transmission().unwrap();
    assert_eq!(first.pipe, [0, 0, 0, 0, 1]);
    assert_eq!(first.frame, [10, 0, 50, 10]);

    let second = d.next_transmission().unwrap();
    assert_eq!(second.pipe, [0, 0, 0, 0, 2]);
    assert_eq!(second.frame, [0xf0, 10, 180, 100]);

    let third = d.next_transmission().unwrap();
    assert_eq!(third.pipe, [0, 0, 0, 1, 44]);
    assert_eq!(third.frame, [100, 99, 55, 199]);

    assert!(d.next_transmission().is_none());
}

#[test]
fn drain_emits_each_queued_command_once_in_order() {
    let mut d = RadioDispatcher::new();
    for addr in 1u16..=5 {
        d.enqueue(addr, LightCommand::CCT(addr as u8, 0, 50));
    }
    let sent = d.drain();
    assert_eq!(sent.len(), 5);
    for (k, t) in sent.iter().enumerate() {
        let addr = (k + 1) as u8;
        assert_eq!(t.pipe, [0, 0, 0, 0, addr]);
        assert_eq!(t.frame, [addr, 0, 50, addr]);
    }
    assert_eq!(d.pending(), 0);
    assert!(d.next_transmission().is_none());
}
