use interboard::messages::DeviceToDevice;
use interboard::cmd::{Ack, CmdOrAck, Command, Reliabilty};
use interboard::distributor::{Inbound, PendingSend, SendAction, SendOutcome, route_incoming};
use interboard::transmission::{reliable_msg, unreliable_msg};

#[test]
fn retransmits_twice_then_resolves_once() {
    let msg = reliable_msg(DeviceToDevice::Ping);
    let timeout = msg.timeout.unwrap();
    let cmd = Command::new_reliable(msg.msg, 9);
    let (id, csum) = match cmd.reliability {
        Reliabilty::Reliable { id, csum } => (id, csum),
        Reliabilty::Unreliable => unreachable!(),
    };
    let mut pending = PendingSend::arm(&cmd, 0, timeout, 5).unwrap();
    assert_eq!(pending.deadline_us, 2000);

    // frame 1 at t=0 is lost; frames are (id, csum) pairs on the wire
    let mut frames = vec![(id, csum)];
    let mut retransmissions = 0;
    let mut resolutions = 0;
    let mut delivered = Vec::new();
    let mut t = 0u64;
    while pending.outcome == SendOutcome::InFlight && t <= 20_000 {
        t += 500;
        match pending.on_tick(t) {
            SendAction::Retransmit { id, csum } => {
                retransmissions += 1;
                frames.push((id, csum));
                // the transport drops the first two frames
                if frames.len() == 3 {
                    let frame = Command { reliability: Reliabilty::Reliable { id, csum }, cmd: DeviceToDevice::Ping };
                    match route_incoming(CmdOrAck::Cmd(frame)) {
                        Inbound::Deliver { cmd, reply } => {
                            delivered.push(cmd.cmd);
                            let ack = reply.unwrap();
                            if let Inbound::Confirmed(a) = route_incoming::<DeviceToDevice>(CmdOrAck::Ack(ack)) {
                                if pending.on_ack(a) {
                                    resolutions += 1;
                                }
                            }
                        }
                        _ => panic!("valid frame not delivered"),
                    }
                }
            }
            SendAction::Wait => {}
            SendAction::Idle | SendAction::Abandon => panic!("unexpected end"),
        }
    }
    assert_eq!(retransmissions, 2);
    assert_eq!(resolutions, 1);
    assert_eq!(delivered, vec![DeviceToDevice::Ping]);
    assert!(frames.iter().all(|f| *f == (id, csum)));
    assert_eq!(pending.outcome, SendOutcome::Acked);
    assert_eq!(pending.on_tick(100_000), SendAction::Idle);
    // a second copy of the ack resolves nothing more
    assert!(!pending.on_ack(Ack { id, csum: interboard::checksum::calc_csum(&id) }));
}

#[test]
fn abandons_after_retry_ceiling() {
    let cmd = Command::new_reliable(3u8, 1);
    let mut p = PendingSend::arm(&cmd, 100, reliable_msg(()).timeout.unwrap(), 2).unwrap();
    assert_eq!(p.on_tick(2099), SendAction::Wait);
    assert!(matches!(p.on_tick(2100), SendAction::Retransmit { id: 1, .. }));
    assert_eq!(p.deadline_us, 4100);
    assert!(matches!(p.on_tick(4100), SendAction::Retransmit { id: 1, .. }));
    assert_eq!(p.retries, 2);
    assert_eq!(p.on_tick(6100), SendAction::Abandon);
    assert_eq!(p.outcome, SendOutcome::Abandoned);
    assert_eq!(p.on_tick(9000), SendAction::Idle);
}

#[test]
fn deadline_saturates() {
    let cmd = Command::new_reliable(3u8, 1);
    let p = PendingSend::arm(&cmd, u64::MAX - 10, reliable_msg(()).timeout.unwrap(), 1).unwrap();
    assert_eq!(p.deadline_us, u64::MAX);
}

#[test]
fn unreliable_send_gets_no_slot() {
    let cmd = Command::new_unreliable(3u8);
    let msg = unreliable_msg(());
    assert!(msg.timeout.is_none());
    assert!(PendingSend::arm(&cmd, 0, reliable_msg(()).timeout.unwrap(), 3).is_none());
}

#[test]
fn ack_for_other_id_or_corrupt_is_ignored() {
    let cmd = Command::new_reliable(3u8, 1);
    let mut p = PendingSend::arm(&cmd, 0, reliable_msg(()).timeout.unwrap(), 3).unwrap();
    let before = p;
    let other = Command::new_reliable(3u8, 2).ack().unwrap();
    assert!(!p.on_ack(other));
    let good = cmd.ack().unwrap();
    assert!(!p.on_ack(Ack { id: good.id, csum: good.csum ^ 4 }));
    assert_eq!(p, before);
    assert!(p.on_ack(good));
    assert_eq!(p.outcome, SendOutcome::Acked);
}

#[test]
fn routing_of_incoming_frames() {
    let good = Command::new_reliable(0x1234u16, 5);
    let ack = good.ack().unwrap();
    match route_incoming(CmdOrAck::Cmd(good)) {
        Inbound::Deliver { cmd, reply } => {
            assert_eq!(cmd.cmd, 0x1234);
            assert_eq!(reply, Some(ack));
        }
        _ => panic!("expected delivery"),
    }
    let mut bad = Command::new_reliable(0x1234u16, 5);
    bad.cmd = 0x1235;
    assert!(matches!(route_incoming(CmdOrAck::Cmd(bad)), Inbound::Discard));
    match route_incoming(CmdOrAck::Cmd(Command::new_unreliable(8u16))) {
        Inbound::Deliver { cmd, reply } => {
            assert_eq!(cmd.cmd, 8);
            assert_eq!(reply, None);
        }
        _ => panic!("expected delivery"),
    }
    assert!(matches!(route_incoming::<u16>(CmdOrAck::Ack(ack)), Inbound::Confirmed(a) if a == ack));
    let corrupt = Ack { id: ack.id, csum: ack.csum ^ 1 };
    match route_incoming::<u16>(CmdOrAck::Ack(corrupt)) {
        Inbound::Rejected(e) => {
            assert_eq!(e.id, 5);
            assert_eq!(e.expected_csum, ack.csum);
            assert_eq!(e.given_csum, corrupt.csum);
        }
        _ => panic!("expected rejection"),
    }
}
