use interboard::cmd::{Ack, Command};
use interboard::distributor::{PendingSend, PendingTable, SendAction};
use interboard::messages::DeviceToDevice;
use interboard::transmission::{Duration, reliable_msg};

fn armed(id: u8, now: u64, max_retries: u32) -> PendingSend {
    let cmd = Command::new_reliable(DeviceToDevice::Ping, id);
    PendingSend::arm(&cmd, now, Duration::from_millis(2), max_retries).unwrap()
}

#[test]
fn one_slot_per_id() {
    let mut t = PendingTable::new();
    assert!(!t.in_flight(4));
    assert!(t.start(armed(4, 0, 1)));
    assert!(t.in_flight(4));
    assert!(!t.start(armed(4, 10, 1)));
    assert!(t.start(armed(5, 0, 1)));
    assert!(t.in_flight(5));
}

#[test]
fn valid_ack_frees_slot() {
    let mut t = PendingTable::new();
    let cmd = Command::new_reliable(DeviceToDevice::KeyPressed(1, 2), 9);
    let p = PendingSend::arm(&cmd, 0, reliable_msg(()).timeout.unwrap(), 3).unwrap();
    assert!(t.start(p));
    let ack = cmd.ack().unwrap();
    assert!(!t.confirm(Ack { id: 9, csum: ack.csum ^ 2 }));
    assert!(t.in_flight(9));
    assert!(!t.confirm(Command::new_reliable(DeviceToDevice::Ping, 8).ack().unwrap()));
    assert!(t.confirm(ack));
    assert!(!t.in_flight(9));
    assert!(!t.confirm(ack));
}

#[test]
fn tick_retransmits_then_abandons_and_frees() {
    let mut t = PendingTable::new();
    let a = armed(3, 0, 1);
    let b = armed(200, 1000, 1);
    assert!(t.start(b));
    assert!(t.start(a));
    assert_eq!(t.tick(500), vec![]);
    assert_eq!(t.tick(2000), vec![(3, SendAction::Retransmit { id: 3, csum: a.csum })]);
    assert_eq!(
        t.tick(4000),
        vec![(3, SendAction::Abandon), (200, SendAction::Retransmit { id: 200, csum: b.csum })]
    );
    assert!(!t.in_flight(3));
    assert!(t.in_flight(200));
    // the freed id can be used again
    assert!(t.start(armed(3, 4000, 1)));
    assert_eq!(t.tick(6000), vec![(3, SendAction::Retransmit { id: 3, csum: a.csum }), (200, SendAction::Abandon)]);
    assert!(!t.in_flight(200));
}

#[test]
fn finished_send_is_refused() {
    let mut t = PendingTable::new();
    let mut p = armed(1, 0, 0);
    assert_eq!(p.on_tick(2000), SendAction::Abandon);
    assert!(!t.start(p));
    assert!(!t.in_flight(1));
}
