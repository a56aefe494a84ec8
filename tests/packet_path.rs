use xdp_hello::attach::{AttachError, Attachments, HookFlags, HookMode};
use xdp_hello::channel::EventChannel;
use xdp_hello::supervisor::{exit_code, Action, Event, Failure, LoadError, Phase, Supervisor};
use xdp_hello::verdict::{
    entry_verdict, try_xdp_hello, xdp_hello, PacketContext, Verdict, XDP_ABORTED, XDP_PASS,
};

#[test]
fn every_packet_passes_with_a_receipt_notice() {
    let mut c = EventChannel::new(8);
    let ctx = PacketContext { len: 98, ifindex: 1 };
    assert_eq!(xdp_hello(&ctx, &mut c), XDP_PASS);
    let out = c.drain_all();
    assert_eq!(out.len(), 1);
    assert_eq!(out[0].message, "received a packet");
}

#[test]
fn full_channel_still_passes_the_packet() {
    let mut c = EventChannel::new(0);
    let ctx = PacketContext { len: 60, ifindex: 3 };
    assert_eq!(try_xdp_hello(&ctx, &mut c), Ok(XDP_PASS));
    assert_eq!(c.len(), 0);
}

#[test]
fn faults_become_aborted() {
    assert_eq!(entry_verdict(Err(7)), XDP_ABORTED);
    assert_eq!(entry_verdict(Ok(1)), 1);
}

#[test]
fn verdict_codes() {
    assert_eq!(Verdict::Aborted.code(), 0);
    assert_eq!(Verdict::Drop.code(), 1);
    assert_eq!(Verdict::Pass.code(), 2);
    assert_eq!(Verdict::Tx.code(), 3);
    assert_eq!(Verdict::Redirect.code(), 4);
    assert_eq!(Verdict::from_code(2), Some(Verdict::Pass));
    assert_eq!(Verdict::from_code(5), None);
}

#[test]
fn loopback_end_to_end() {
    let lo = 1;
    let mut sup = Supervisor::new();
    let mut table = Attachments::new();
    let mut channel = EventChannel::new(16);
    assert_eq!(sup.first_action(), Action::Load);
    assert_eq!(sup.step(Event::Loaded), Action::Attach);
    let h = table.attach(lo, HookFlags::default_flags()).unwrap();
    assert_eq!(sup.step(Event::Attached), Action::StartRelay);
    assert_eq!(sup.step(Event::RelayStarted), Action::WaitForSignal);
    // one echo request arrives on loopback
    let verdict = xdp_hello(&PacketContext { len: 98, ifindex: lo }, &mut channel);
    assert_eq!(Verdict::from_code(verdict), Some(Verdict::Pass));
    assert_eq!(sup.step(Event::Interrupted), Action::StopRelay);
    let records = channel.drain_all();
    assert_eq!(records.len(), 1);
    assert_eq!(records[0].message, "received a packet");
    assert_eq!(sup.step(Event::RelayStopped), Action::Detach);
    table.detach(&h);
    let exit = sup.step(Event::Detached);
    assert_eq!(exit, Action::Exit(None));
    assert_eq!(exit_code(None), 0);
    assert_eq!(sup.phase(), Phase::Done);
    assert!(table.attach(lo, HookFlags::default_flags()).is_ok());
}

#[test]
fn missing_interface_end_to_end() {
    let mut sup = Supervisor::new();
    let mut table = Attachments::new();
    let channel = EventChannel::new(16);
    assert_eq!(sup.step(Event::Loaded), Action::Attach);
    let err = table.attach(0, HookFlags::default_flags()).unwrap_err();
    assert_eq!(err, AttachError::InterfaceNotFound);
    let failure = Some(Failure::Attach(AttachError::InterfaceNotFound));
    assert_eq!(sup.step(Event::AttachFailed(err)), Action::Exit(failure));
    assert_ne!(exit_code(sup.failure()), 0);
    assert!(!table.is_attached(0, HookMode::Default));
    assert_eq!(channel.len(), 0);
    // nothing later starts the relay
    assert_eq!(sup.step(Event::RelayStarted), Action::Ignore);
}

#[test]
fn rejected_bytecode_never_attaches() {
    let mut sup = Supervisor::new();
    let e = LoadError::VerificationFailed;
    assert_eq!(sup.step(Event::LoadFailed(e)), Action::Exit(Some(Failure::Load(e))));
    assert_eq!(sup.step(Event::Loaded), Action::Ignore);
    assert_eq!(sup.step(Event::Attached), Action::Ignore);
    assert_eq!(exit_code(sup.failure()), 1);
}

#[test]
fn relay_failure_unwinds_the_attachment() {
    let mut sup = Supervisor::new();
    sup.step(Event::Loaded);
    sup.step(Event::Attached);
    assert_eq!(sup.step(Event::RelayFailed), Action::Detach);
    assert_eq!(sup.step(Event::Detached), Action::Exit(Some(Failure::Relay)));
}

#[test]
fn failed_detach_gives_non_zero_exit() {
    let mut sup = Supervisor::new();
    sup.step(Event::Loaded);
    sup.step(Event::Attached);
    sup.step(Event::RelayStarted);
    sup.step(Event::Interrupted);
    sup.step(Event::RelayStopped);
    assert_eq!(sup.step(Event::DetachFailed), Action::Exit(Some(Failure::Detach)));
    assert_eq!(exit_code(Some(Failure::Detach)), 1);
}

#[test]
fn format_and_resource_errors_are_fatal() {
    for e in [LoadError::FormatError, LoadError::ResourceExhausted] {
        let mut sup = Supervisor::new();
        assert_eq!(sup.step(Event::LoadFailed(e)), Action::Exit(Some(Failure::Load(e))));
    }
}
