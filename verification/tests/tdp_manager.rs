use steamos_manager::error::Error;
use steamos_manager::hardware::{DeviceConfig, RangeConfig, TdpLimitConfig};
use steamos_manager::power::TdpLimitingMethod;
use steamos_manager::tdp_limit::TdpLimitManager;
use steamos_manager::tdp_manager::{
    wait_on_handle, wait_on_handle_read, DriverStatus, Readiness, TdpManagerAction,
    TdpManagerCommand, TdpManagerEvent, TdpManagerReply, TdpManagerService, WatchAction,
    WritePurpose,
};

/// The register that the arbiter governs in these tests.
struct Register {
    limit: u32,
    range: (u32, u32),
    active: bool,
    writes: Vec<u32>,
}

impl Register {
    fn new(limit: u32) -> Register {
        Register { limit, range: (3, 15), active: true, writes: Vec::new() }
    }

    fn status(&self) -> DriverStatus {
        DriverStatus {
            active: Ok(self.active),
            limit: if self.active { Ok(self.limit) } else { Err(Error::DriverInactive) },
            range: Ok(self.range),
        }
    }

    fn write(&mut self, limit: u32) -> Result<(), Error> {
        if !self.active {
            return Err(Error::DriverInactive);
        }
        self.limit = limit;
        self.writes.push(limit);
        Ok(())
    }
}

/// What came of one event: the reply, the result, and whether to watch a pipe.
struct Outcome {
    reply: TdpManagerReply,
    result: Result<(), Error>,
    watch: bool,
}

fn drive(service: &mut TdpManagerService, register: &mut Register, event: TdpManagerEvent) -> Outcome {
    let status = register.status();
    match service.handle_event(event, &status) {
        TdpManagerAction::Done { reply, result, watch } => Outcome { reply, result, watch },
        TdpManagerAction::Write(write) => {
            let outcome = register.write(write.limit);
            let done = service.written(write.purpose, outcome);
            Outcome {
                reply: match done.reply {
                    Some(answer) => TdpManagerReply::DownloadModeHandle(answer),
                    None => TdpManagerReply::Nothing,
                },
                result: done.result,
                watch: write.purpose == WritePurpose::EnterOverride,
            }
        }
        TdpManagerAction::Stop(e) => {
            Outcome { reply: TdpManagerReply::Nothing, result: Err(e), watch: false }
        }
    }
}

fn command(service: &mut TdpManagerService, register: &mut Register, c: TdpManagerCommand) -> Outcome {
    drive(service, register, TdpManagerEvent::Command(c))
}

fn enter(service: &mut TdpManagerService, register: &mut Register, key: &str) -> Outcome {
    command(service, register, TdpManagerCommand::EnterDownloadMode(String::from(key), Ok(())))
}

fn release(service: &mut TdpManagerService, register: &mut Register, key: &str) -> Outcome {
    drive(service, register, TdpManagerEvent::HandleClosed(String::from(key)))
}

fn handles(service: &mut TdpManagerService, register: &mut Register) -> Vec<(String, u32)> {
    match command(service, register, TdpManagerCommand::ListDownloadModeHandles).reply {
        TdpManagerReply::DownloadModeHandles(mut list) => {
            list.sort();
            list
        }
        other => panic!("unexpected reply {other:?}"),
    }
}

fn config(download_mode_limit: Option<u32>) -> DeviceConfig {
    let mut config = DeviceConfig::default();
    config.tdp_limit = Some(TdpLimitConfig {
        method: TdpLimitingMethod::AmdgpuHwmon,
        range: Some(RangeConfig { min: 3, max: 15 }),
        download_mode_limit,
        firmware_attribute: None,
    });
    config
}

fn service(download_mode_limit: Option<u32>) -> TdpManagerService {
    TdpManagerService::new(Some(&config(download_mode_limit))).expect("service")
}

fn is_handle(reply: &TdpManagerReply, expected: Result<bool, Error>) -> bool {
    matches!(reply, TdpManagerReply::DownloadModeHandle(r) if *r == expected)
}

#[test]
fn test_low_power_lock() {
    let mut register = Register::new(10);
    let mut service = service(Some(6));

    command(&mut service, &mut register, TdpManagerCommand::SetTdpLimit(15)).result.unwrap();
    assert_eq!(register.limit, 15);
    assert!(handles(&mut service, &mut register).is_empty());

    let entered = enter(&mut service, &mut register, "test");
    assert!(is_handle(&entered.reply, Ok(true)));
    assert!(entered.watch);
    assert_eq!(register.limit, 6);
    assert_eq!(handles(&mut service, &mut register), vec![(String::from("test"), 1u32)]);

    let writes = register.writes.len();
    command(&mut service, &mut register, TdpManagerCommand::SetTdpLimit(15)).result.unwrap();
    assert_eq!(register.writes.len(), writes);
    assert_eq!(register.limit, 6);

    release(&mut service, &mut register, "test").result.unwrap();
    assert_eq!(register.limit, 15);

    command(&mut service, &mut register, TdpManagerCommand::SetTdpLimit(12)).result.unwrap();
    assert_eq!(register.limit, 12);
    assert!(handles(&mut service, &mut register).is_empty());
}

#[test]
fn test_disabled_low_power_lock() {
    let mut register = Register::new(10);
    let mut service = service(None);

    command(&mut service, &mut register, TdpManagerCommand::SetTdpLimit(15)).result.unwrap();
    assert_eq!(register.limit, 15);
    assert!(handles(&mut service, &mut register).is_empty());

    let entered = enter(&mut service, &mut register, "test");
    assert!(is_handle(&entered.reply, Ok(false)));
    assert!(!entered.watch);
    assert!(handles(&mut service, &mut register).is_empty());
    assert_eq!(register.limit, 15);
}

#[test]
fn end_to_end_download_mode() {
    let mut register = Register::new(15);
    let mut service = service(Some(6));

    enter(&mut service, &mut register, "a").result.unwrap();
    assert_eq!(register.limit, 6);
    assert_eq!(service.previous_limit(), Some(15));

    command(&mut service, &mut register, TdpManagerCommand::SetTdpLimit(15)).result.unwrap();
    assert_eq!(register.limit, 6);

    release(&mut service, &mut register, "a").result.unwrap();
    assert_eq!(register.limit, 15);
    assert_eq!(service.previous_limit(), None);
    assert!(!service.has_leases());
}

#[test]
fn leases_are_counted() {
    let mut register = Register::new(15);
    let mut service = service(Some(6));

    enter(&mut service, &mut register, "a");
    enter(&mut service, &mut register, "a");
    assert_eq!(handles(&mut service, &mut register), vec![(String::from("a"), 2u32)]);
    assert_eq!(register.limit, 6);

    release(&mut service, &mut register, "a");
    assert_eq!(handles(&mut service, &mut register), vec![(String::from("a"), 1u32)]);
    assert_eq!(register.limit, 6);

    release(&mut service, &mut register, "a");
    assert!(handles(&mut service, &mut register).is_empty());
    assert_eq!(register.limit, 15);
}

#[test]
fn leases_of_two_holders() {
    let mut register = Register::new(12);
    let mut service = service(Some(6));

    enter(&mut service, &mut register, "a");
    enter(&mut service, &mut register, "b");
    assert_eq!(
        handles(&mut service, &mut register),
        vec![(String::from("a"), 1u32), (String::from("b"), 1u32)]
    );
    release(&mut service, &mut register, "a");
    assert_eq!(register.limit, 6);
    assert!(service.has_leases());
    release(&mut service, &mut register, "c");
    assert_eq!(handles(&mut service, &mut register), vec![(String::from("b"), 1u32)]);
    release(&mut service, &mut register, "b");
    assert_eq!(register.limit, 12);
    assert_eq!(register.writes, vec![6, 12]);
}

#[test]
fn set_limit_out_of_range_is_rejected() {
    let mut register = Register::new(10);
    let mut service = service(Some(6));

    let high = command(&mut service, &mut register, TdpManagerCommand::SetTdpLimit(20));
    assert_eq!(high.result, Err(Error::Range));
    assert_eq!(register.limit, 10);
    let low = command(&mut service, &mut register, TdpManagerCommand::SetTdpLimit(2));
    assert_eq!(low.result, Err(Error::Range));
    assert_eq!(register.limit, 10);
    assert!(register.writes.is_empty());

    command(&mut service, &mut register, TdpManagerCommand::SetTdpLimit(3)).result.unwrap();
    assert_eq!(register.limit, 3);
    command(&mut service, &mut register, TdpManagerCommand::SetTdpLimit(15)).result.unwrap();
    assert_eq!(register.limit, 15);
}

#[test]
fn set_limit_without_range_fails() {
    let mut service = service(Some(6));
    let status = DriverStatus { active: Ok(true), limit: Ok(10), range: Err(Error::Io) };
    match service.handle_command(TdpManagerCommand::SetTdpLimit(10), &status) {
        TdpManagerAction::Done { result, .. } => assert_eq!(result, Err(Error::Io)),
        other => panic!("unexpected action {other:?}"),
    }
}

#[test]
fn reads_pass_on_what_the_driver_reports() {
    let mut service = service(Some(6));
    let status = DriverStatus { active: Ok(false), limit: Err(Error::DriverInactive), range: Ok((3, 15)) };
    match service.handle_command(TdpManagerCommand::GetTdpLimit, &status) {
        TdpManagerAction::Done { reply: TdpManagerReply::TdpLimit(r), .. } => {
            assert_eq!(r, Err(Error::DriverInactive))
        }
        other => panic!("unexpected action {other:?}"),
    }
    match service.handle_command(TdpManagerCommand::GetTdpLimitRange, &status) {
        TdpManagerAction::Done { reply: TdpManagerReply::TdpLimitRange(r), .. } => {
            assert_eq!(r, Ok((3, 15)))
        }
        other => panic!("unexpected action {other:?}"),
    }
    match service.handle_command(TdpManagerCommand::IsActive, &status) {
        TdpManagerAction::Done { reply: TdpManagerReply::IsActive(r), .. } => {
            assert_eq!(r, Ok(false))
        }
        other => panic!("unexpected action {other:?}"),
    }
}

#[test]
fn inactive_driver_is_left_alone() {
    let mut register = Register::new(15);
    register.active = false;
    let mut service = service(Some(6));

    let entered = enter(&mut service, &mut register, "a");
    assert!(is_handle(&entered.reply, Ok(true)));
    assert!(entered.watch);
    assert_eq!(register.limit, 15);
    assert_eq!(service.previous_limit(), None);
    assert!(service.has_leases());

    register.active = true;
    command(&mut service, &mut register, TdpManagerCommand::UpdateDownloadMode).result.unwrap();
    assert_eq!(register.limit, 6);
    assert_eq!(service.previous_limit(), Some(15));
}

#[test]
fn a_limit_of_zero_is_ignored() {
    let mut register = Register::new(0);
    let mut service = service(Some(6));
    enter(&mut service, &mut register, "a").result.unwrap();
    assert_eq!(register.limit, 0);
    assert_eq!(service.previous_limit(), None);
}

#[test]
fn failed_pipe_enters_no_lease() {
    let mut register = Register::new(15);
    let mut service = service(Some(6));
    let out = command(
        &mut service,
        &mut register,
        TdpManagerCommand::EnterDownloadMode(String::from("a"), Err(Error::Io)),
    );
    assert!(is_handle(&out.reply, Err(Error::Io)));
    assert!(!out.watch);
    assert!(!service.has_leases());
    assert_eq!(register.limit, 15);
}

#[test]
fn failed_restore_keeps_the_previous_limit() {
    let mut register = Register::new(15);
    let mut service = service(Some(6));
    enter(&mut service, &mut register, "a");
    assert_eq!(register.limit, 6);

    let status = register.status();
    let action = service.handle_event(TdpManagerEvent::HandleClosed(String::from("a")), &status);
    match action {
        TdpManagerAction::Write(write) => {
            assert_eq!(write.limit, 15);
            assert_eq!(write.purpose, WritePurpose::Restore);
            let done = service.written(write.purpose, Err(Error::Io));
            assert_eq!(done.result, Err(Error::Io));
            assert!(done.reply.is_none());
        }
        other => panic!("unexpected action {other:?}"),
    }
    assert_eq!(service.previous_limit(), Some(15));
    command(&mut service, &mut register, TdpManagerCommand::UpdateDownloadMode).result.unwrap();
    assert_eq!(register.limit, 15);
    assert_eq!(service.previous_limit(), None);
}

#[test]
fn failed_override_fails_the_lease_request() {
    let mut service = service(Some(6));
    let status = DriverStatus { active: Ok(true), limit: Ok(15), range: Ok((3, 15)) };
    let action = service.handle_command(
        TdpManagerCommand::EnterDownloadMode(String::from("a"), Ok(())),
        &status,
    );
    match action {
        TdpManagerAction::Write(write) => {
            assert_eq!(write.limit, 6);
            assert_eq!(write.purpose, WritePurpose::EnterOverride);
            let done = service.written(write.purpose, Err(Error::Io));
            assert_eq!(done.reply, Some(Err(Error::Io)));
            assert_eq!(done.result, Ok(()));
        }
        other => panic!("unexpected action {other:?}"),
    }
    assert!(service.has_leases());
    assert_eq!(service.previous_limit(), Some(15));
}

#[test]
fn closed_channel_stops_the_actor() {
    let mut register = Register::new(15);
    let mut service = service(Some(6));
    let out = drive(&mut service, &mut register, TdpManagerEvent::ChannelClosed);
    assert_eq!(out.result, Err(Error::ChannelClosed));
}

#[test]
fn service_needs_a_configuration() {
    assert!(matches!(TdpManagerService::new(None), Err(Error::Config)));
    assert!(matches!(TdpManagerService::new(Some(&DeviceConfig::default())), Err(Error::Config)));
    let mut firmware = config(Some(6));
    firmware.tdp_limit.as_mut().unwrap().method = TdpLimitingMethod::FirmwareAttribute;
    assert!(matches!(TdpManagerService::new(Some(&firmware)), Err(Error::Config)));
    let service = service(Some(0));
    assert!(!service.is_download_mode_configured());
    assert!(matches!(service.manager(), TdpLimitManager::AmdgpuHwmon(_)));
    assert_eq!(TdpManagerService::name(), "tdp-manager");
}

#[test]
fn watcher_follows_the_pipe() {
    let closed = Readiness { read_closed: true, readable: true };
    let readable = Readiness { read_closed: false, readable: true };
    let neither = Readiness { read_closed: false, readable: false };
    assert_eq!(wait_on_handle(Ok(closed)), WatchAction::Release);
    assert_eq!(wait_on_handle(Ok(readable)), WatchAction::Read);
    assert_eq!(wait_on_handle(Ok(neither)), WatchAction::Release);
    assert_eq!(wait_on_handle(Err(Error::Io)), WatchAction::Release);
    assert_eq!(wait_on_handle_read(Ok(0)), WatchAction::Wait);
    assert_eq!(wait_on_handle_read(Ok(7)), WatchAction::Wait);
    assert_eq!(wait_on_handle_read(Err(Error::Io)), WatchAction::Release);
}
