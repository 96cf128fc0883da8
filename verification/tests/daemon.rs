use steamos_manager::daemon::{
    ready_message, reload_outcome, reloading_message, reloading_notice, Daemon, DaemonAction,
    DaemonCommand, DaemonEvent, Phase, ReloadOutcome,
};
use steamos_manager::error::Error;

fn daemon(services: usize) -> Daemon {
    let mut daemon = Daemon::new();
    for _ in 0..services {
        daemon.add_service().unwrap();
    }
    daemon
}

#[test]
fn daemon_without_services_does_not_run() {
    assert_eq!(Daemon::new().check_services(), Err(Error::NoServices));
    assert_eq!(daemon(1).check_services(), Ok(()));
}

#[test]
fn failed_service_fails_the_daemon() {
    let mut daemon = daemon(3);
    let action = daemon.handle_event(DaemonEvent::<()>::ServiceFinished(Err(Error::Io)));
    assert!(matches!(action, DaemonAction::Shutdown));
    assert_eq!(daemon.phase(), Phase::Draining);
    assert_eq!(daemon.services(), 2);

    // Nothing but the end of a service counts while the others are waited for.
    assert!(matches!(daemon.handle_event(DaemonEvent::<()>::Interrupt), DaemonAction::Continue));
    assert_eq!(daemon.phase(), Phase::Draining);

    daemon.handle_event(DaemonEvent::<()>::ServiceFinished(Ok(())));
    assert_eq!(daemon.phase(), Phase::Draining);
    // A later failure does not take the place of the first.
    daemon.handle_event(DaemonEvent::<()>::ServiceFinished(Err(Error::InvalidData)));
    assert_eq!(daemon.phase(), Phase::Finished);
    assert_eq!(daemon.services(), 0);
    assert_eq!(daemon.result(), Err(Error::Io));
}

#[test]
fn finished_service_keeps_the_daemon_running() {
    let mut daemon = daemon(2);
    let action = daemon.handle_event(DaemonEvent::<()>::ServiceFinished(Ok(())));
    assert!(matches!(action, DaemonAction::Continue));
    assert_eq!(daemon.phase(), Phase::Running);
    assert_eq!(daemon.services(), 1);
}

#[test]
fn signals_shut_the_daemon_down() {
    for event in [DaemonEvent::<()>::Interrupt, DaemonEvent::Terminate(true)] {
        let mut daemon = daemon(1);
        assert!(matches!(daemon.handle_event(event), DaemonAction::Shutdown));
        assert_eq!(daemon.phase(), Phase::Draining);
        daemon.handle_event(DaemonEvent::<()>::ServiceFinished(Ok(())));
        assert_eq!(daemon.phase(), Phase::Finished);
        assert_eq!(daemon.result(), Ok(()));
    }
    let mut quit = daemon(1);
    assert!(matches!(quit.handle_event(DaemonEvent::<()>::Quit), DaemonAction::Shutdown));
    assert_eq!(quit.result(), Err(Error::Quit));
    for event in
        [DaemonEvent::<()>::Terminate(false), DaemonEvent::Hangup(false), DaemonEvent::Message(None)]
    {
        let mut daemon = daemon(1);
        assert!(matches!(daemon.handle_event(event), DaemonAction::Shutdown));
        assert_eq!(daemon.result(), Err(Error::ChannelClosed));
    }
}

#[test]
fn late_failure_counts_after_a_clean_shutdown() {
    let mut daemon = daemon(2);
    daemon.handle_event(DaemonEvent::<()>::Interrupt);
    daemon.handle_event(DaemonEvent::<()>::ServiceFinished(Err(Error::Io)));
    daemon.handle_event(DaemonEvent::<()>::ServiceFinished(Err(Error::Range)));
    assert_eq!(daemon.phase(), Phase::Finished);
    assert_eq!(daemon.result(), Err(Error::Io));
}

#[test]
fn shutdown_with_nothing_left_is_finished_at_once() {
    let mut daemon = daemon(1);
    daemon.handle_event(DaemonEvent::<()>::ServiceFinished(Ok(())));
    assert!(matches!(daemon.handle_event(DaemonEvent::<()>::Terminate(true)), DaemonAction::Shutdown));
    assert_eq!(daemon.phase(), Phase::Finished);
    assert_eq!(daemon.result(), Ok(()));
}

#[test]
fn hangup_reloads() {
    let mut daemon = daemon(1);
    assert!(matches!(daemon.handle_event(DaemonEvent::<()>::Hangup(true)), DaemonAction::Reload));
    assert_eq!(daemon.phase(), Phase::Running);
    let unreadable = DaemonEvent::<()>::Reloaded(ReloadOutcome::ConfigUnreadable);
    assert!(matches!(daemon.handle_event(unreadable), DaemonAction::Continue));
    let reloaded = DaemonEvent::<()>::Reloaded(ReloadOutcome::Reloaded(Ok(())));
    assert!(matches!(daemon.handle_event(reloaded), DaemonAction::Continue));
    assert_eq!(daemon.phase(), Phase::Running);
    let failed = DaemonEvent::<()>::Reloaded(ReloadOutcome::Reloaded(Err(Error::Io)));
    assert!(matches!(daemon.handle_event(failed), DaemonAction::Shutdown));
    assert_eq!(daemon.result(), Err(Error::Io));
    assert_eq!(reload_outcome(ReloadOutcome::ConfigUnreadable), Ok(()));
    assert_eq!(reload_outcome(ReloadOutcome::Reloaded(Err(Error::Io))), Err(Error::Io));
}

#[test]
fn commands_are_handed_on() {
    let mut daemon = daemon(1);
    let action = daemon.handle_event(DaemonEvent::Message(Some(DaemonCommand::ContextCommand(7u8))));
    assert!(matches!(action, DaemonAction::Dispatch(DaemonCommand::ContextCommand(7))));
    let action = daemon.handle_event(DaemonEvent::<u8>::Message(Some(DaemonCommand::WriteState)));
    assert!(matches!(action, DaemonAction::Dispatch(DaemonCommand::WriteState)));
    assert!(matches!(daemon.handle_event(DaemonEvent::<u8>::Handled(Ok(()))), DaemonAction::Continue));
    assert_eq!(daemon.phase(), Phase::Running);
    let failed = daemon.handle_event(DaemonEvent::<u8>::Handled(Err(Error::Io)));
    assert!(matches!(failed, DaemonAction::Shutdown));
    assert_eq!(daemon.result(), Err(Error::Io));
}

#[test]
fn readiness_messages() {
    assert_eq!(ready_message(), "READY=1\n");
    assert_eq!(
        reloading_message(12, 345_678_999).unwrap(),
        b"RELOADING=1\nMONOTONIC_USEC=12345678\n".to_vec()
    );
    assert_eq!(reloading_message(0, 999).unwrap(), b"RELOADING=1\nMONOTONIC_USEC=0\n".to_vec());
    assert_eq!(reloading_message(-1, 0), None);
    assert_eq!(reloading_message(0, -1), None);
    assert_eq!(reloading_message(i64::MAX, 0), None);
    assert_eq!(
        reloading_message(9_223_372_036_854, 775_807_000).unwrap(),
        b"RELOADING=1\nMONOTONIC_USEC=9223372036854775807\n".to_vec()
    );
    assert_eq!(reloading_message(9_223_372_036_854, 775_808_000), None);
}

#[test]
fn reloading_notice_carries_the_clock() {
    let first = reloading_notice().expect("a clock");
    let text = String::from_utf8(first).unwrap();
    let usec: u64 = text
        .strip_prefix("RELOADING=1\nMONOTONIC_USEC=")
        .and_then(|rest| rest.strip_suffix('\n'))
        .expect("the notice")
        .parse()
        .expect("a number");
    let second = String::from_utf8(reloading_notice().unwrap()).unwrap();
    let later: u64 = second
        .strip_prefix("RELOADING=1\nMONOTONIC_USEC=")
        .and_then(|rest| rest.strip_suffix('\n'))
        .unwrap()
        .parse()
        .unwrap();
    assert!(later >= usec);
}
