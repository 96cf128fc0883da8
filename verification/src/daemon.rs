//! The supervisor of the daemon's services.
//!
//! Services run side by side. The supervisor waits for whichever comes
//! first: a service that ends, a signal, or a command. A service that fails
//! brings the whole daemon down: the others are cancelled and waited for, and
//! the first failure is what the daemon ends with. The supervisor here waits
//! for nothing itself: it is handed each event and says what to do about it.

use vstd::prelude::*;
use vstd::string::StringSliceAdditionalSpecFns;
use crate::error::Error;
use crate::text::{decimal_digits, u64_digits};

verus! {

/// A command on the supervisor's inbound channel.
#[derive(Debug)]
pub enum DaemonCommand<T> {
    /// A command for the context, which the supervisor passes on unread.
    ContextCommand(T),
    /// Read the configuration again.
    ReadConfig,
    /// Write the state out.
    WriteState,
}

/// How reading the configuration again ended.
#[derive(Clone, Copy, Debug)]
pub enum ReloadOutcome {
    /// The configuration could not be read. The daemon goes on with the one it has.
    ConfigUnreadable,
    /// The configuration was read and handed to the context, which returned this.
    Reloaded(Result<(), Error>),
}

/// What the supervisor can wake up to.
#[derive(Debug)]
pub enum DaemonEvent<T> {
    /// A service ended, with this result.
    ServiceFinished(Result<(), Error>),
    /// An interrupt signal.
    Interrupt,
    /// A terminate signal, or with `false` the end of the stream of them.
    Terminate(bool),
    /// A hangup signal, or with `false` the end of the stream of them.
    Hangup(bool),
    /// A command, or the news that every sender is gone.
    Message(Option<DaemonCommand<T>>),
    /// A quit signal.
    Quit,
    /// The reload that the supervisor asked for was made.
    Reloaded(ReloadOutcome),
    /// The command that the supervisor handed on was dealt with.
    Handled(Result<(), Error>),
}

/// What the caller of the supervisor does next.
#[derive(Debug)]
pub enum DaemonAction<T> {
    /// Wait for the next event.
    Continue,
    /// Announce that the daemon reloads, read the configuration, hand it to
    /// the context, announce that the daemon is ready, and report with
    /// `DaemonEvent::Reloaded`.
    Reload,
    /// Hand the command to the context, or read the configuration or write
    /// the state as it says, and report with `DaemonEvent::Handled`.
    Dispatch(DaemonCommand<T>),
    /// Cancel every service. From now on only services that end are events.
    Shutdown,
}

/// Where the supervisor stands.
#[derive(Clone, Copy, Debug, PartialEq, Eq, Structural)]
pub enum Phase {
    /// Services run and every event counts.
    Running,
    /// The services are cancelled and waited for.
    Draining,
    /// Every service has ended.
    Finished,
}

/// The supervisor's state, as contracts speak of it.
pub struct DaemonState {
    /// How many services have not ended yet.
    pub services: nat,
    pub phase: Phase,
    /// What the daemon ends with, as far as it is settled.
    pub result: Result<(), Error>,
}

/// A result with a later one folded in: the first failure stays.
pub open spec fn folded(result: Result<(), Error>, later: Result<(), Error>) -> Result<(), Error> {
    if result is Err {
        result
    } else {
        later
    }
}

/// The state once it is settled that the daemon ends with `result`: the
/// services are waited for, if any is left.
pub open spec fn shut_down(s: DaemonState, result: Result<(), Error>) -> DaemonState {
    DaemonState {
        services: s.services,
        phase: if s.services == 0 {
            Phase::Finished
        } else {
            Phase::Draining
        },
        result,
    }
}

/// The state after a service ended.
pub open spec fn one_less(s: DaemonState) -> DaemonState {
    DaemonState {
        services: if s.services > 0 {
            (s.services - 1) as nat
        } else {
            0
        },
        ..s
    }
}

/// The state after an event.
///
/// While running: a service that ends well is one service less; one that
/// fails shuts the daemon down with its failure. An interrupt or a terminate
/// signal shuts it down in good order. A signal stream or a command channel
/// that ends, a quit signal, a reload that the context fails, and a command
/// that fails shut it down with a failure. Everything else changes nothing.
///
/// While draining: only a service that ends counts. Its failure is folded in,
/// and with the last service the daemon is finished.
pub open spec fn next_state<T>(s: DaemonState, event: DaemonEvent<T>) -> DaemonState {
    match s.phase {
        Phase::Running => match event {
            DaemonEvent::ServiceFinished(Ok(_)) => one_less(s),
            DaemonEvent::ServiceFinished(Err(e)) => shut_down(one_less(s), Err(e)),
            DaemonEvent::Interrupt => shut_down(s, Ok(())),
            DaemonEvent::Terminate(true) => shut_down(s, Ok(())),
            DaemonEvent::Terminate(false) => shut_down(s, Err(Error::ChannelClosed)),
            DaemonEvent::Hangup(true) => s,
            DaemonEvent::Hangup(false) => shut_down(s, Err(Error::ChannelClosed)),
            DaemonEvent::Message(Some(_)) => s,
            DaemonEvent::Message(None) => shut_down(s, Err(Error::ChannelClosed)),
            DaemonEvent::Quit => shut_down(s, Err(Error::Quit)),
            DaemonEvent::Reloaded(ReloadOutcome::ConfigUnreadable) => s,
            DaemonEvent::Reloaded(ReloadOutcome::Reloaded(Ok(_))) => s,
            DaemonEvent::Reloaded(ReloadOutcome::Reloaded(Err(e))) => shut_down(s, Err(e)),
            DaemonEvent::Handled(Ok(_)) => s,
            DaemonEvent::Handled(Err(e)) => shut_down(s, Err(e)),
        },
        Phase::Draining => match event {
            DaemonEvent::ServiceFinished(r) => {
                let less = one_less(s);
                DaemonState {
                    services: less.services,
                    phase: if less.services == 0 {
                        Phase::Finished
                    } else {
                        Phase::Draining
                    },
                    result: folded(s.result, r),
                }
            },
            _ => s,
        },
        Phase::Finished => s,
    }
}

/// What to do about an event: reload on a hangup signal, hand a command on,
/// cancel the services when the event shuts the daemon down, and otherwise
/// wait for the next event.
pub open spec fn next_action<T>(s: DaemonState, event: DaemonEvent<T>) -> DaemonAction<T> {
    if s.phase != Phase::Running {
        DaemonAction::Continue
    } else if next_state(s, event).phase != Phase::Running {
        DaemonAction::Shutdown
    } else {
        match event {
            DaemonEvent::Hangup(true) => DaemonAction::Reload,
            DaemonEvent::Message(Some(command)) => DaemonAction::Dispatch(command),
            _ => DaemonAction::Continue,
        }
    }
}

/// The state after a run of events.
pub open spec fn state_after<T>(s: DaemonState, events: Seq<DaemonEvent<T>>) -> DaemonState
    decreases events.len(),
{
    if events.len() == 0 {
        s
    } else {
        next_state(state_after(s, events.drop_last()), events.last())
    }
}

/// How many of the events are services that ended.
pub open spec fn services_finished<T>(events: Seq<DaemonEvent<T>>) -> nat
    decreases events.len(),
{
    if events.len() == 0 {
        0
    } else {
        services_finished(events.drop_last()) + if events.last() is ServiceFinished {
            1nat
        } else {
            0nat
        }
    }
}

/// The supervisor.
pub struct Daemon {
    services: usize,
    phase: Phase,
    result: Result<(), Error>,
}

impl Daemon {
    pub closed spec fn view(&self) -> DaemonState {
        DaemonState { services: self.services as nat, phase: self.phase, result: self.result }
    }

    /// A supervisor with no service yet.
    pub fn new() -> (r: Daemon)
        ensures
            r@ == (DaemonState { services: 0, phase: Phase::Running, result: Ok(()) }),
    {
        Daemon { services: 0, phase: Phase::Running, result: Ok(()) }
    }

    /// Takes note of a service that was started. No more services are
    /// counted than the counter can hold.
    pub fn add_service(&mut self) -> (r: Result<(), Error>)
        ensures
            old(self)@.services < usize::MAX ==> r is Ok && final(self)@ == (DaemonState {
                services: old(self)@.services + 1,
                ..old(self)@
            }),
            old(self)@.services >= usize::MAX ==> r == Err::<(), Error>(Error::Overflow)
                && final(self)@ == old(self)@,
    {
        if self.services == usize::MAX {
            return Err(Error::Overflow);
        }
        self.services = self.services + 1;
        Ok(())
    }

    /// Whether the daemon may start to run: it may not with no service.
    pub fn check_services(&self) -> (r: Result<(), Error>)
        ensures
            self@.services == 0 ==> r == Err::<(), Error>(Error::NoServices),
            self@.services > 0 ==> r is Ok,
    {
        if self.services == 0 {
            Err(Error::NoServices)
        } else {
            Ok(())
        }
    }

    /// How many services have not ended yet.
    pub fn services(&self) -> (r: usize)
        ensures
            r == self@.services,
    {
        self.services
    }

    /// Where the supervisor stands.
    pub fn phase(&self) -> (r: Phase)
        ensures
            r == self@.phase,
    {
        self.phase
    }

    /// What the daemon ends with, as far as it is settled.
    pub fn result(&self) -> (r: Result<(), Error>)
        ensures
            r == self@.result,
    {
        self.result
    }

    fn shut_down(&mut self, result: Result<(), Error>)
        ensures
            final(self)@ == shut_down(old(self)@, result),
    {
        self.result = result;
        self.phase = if self.services == 0 {
            Phase::Finished
        } else {
            Phase::Draining
        };
    }

    fn one_less(&mut self)
        ensures
            final(self)@ == one_less(old(self)@),
    {
        if self.services > 0 {
            self.services = self.services - 1;
        }
    }

    /// Handles one event.
    pub fn handle_event<T>(&mut self, event: DaemonEvent<T>) -> (r: DaemonAction<T>)
        ensures
            final(self)@ == next_state(old(self)@, event),
            r == next_action(old(self)@, event),
    {
        match self.phase {
            Phase::Running => {
                match event {
                    DaemonEvent::ServiceFinished(Ok(_)) => {
                        self.one_less();
                        DaemonAction::Continue
                    },
                    DaemonEvent::ServiceFinished(Err(e)) => {
                        self.one_less();
                        self.shut_down(Err(e));
                        DaemonAction::Shutdown
                    },
                    DaemonEvent::Interrupt => {
                        self.shut_down(Ok(()));
                        DaemonAction::Shutdown
                    },
                    DaemonEvent::Terminate(alive) => {
                        if alive {
                            self.shut_down(Ok(()));
                        } else {
                            self.shut_down(Err(Error::ChannelClosed));
                        }
                        DaemonAction::Shutdown
                    },
                    DaemonEvent::Hangup(alive) => {
                        if alive {
                            DaemonAction::Reload
                        } else {
                            self.shut_down(Err(Error::ChannelClosed));
                            DaemonAction::Shutdown
                        }
                    },
                    DaemonEvent::Message(Some(command)) => DaemonAction::Dispatch(command),
                    DaemonEvent::Message(None) => {
                        self.shut_down(Err(Error::ChannelClosed));
                        DaemonAction::Shutdown
                    },
                    DaemonEvent::Quit => {
                        self.shut_down(Err(Error::Quit));
                        DaemonAction::Shutdown
                    },
                    DaemonEvent::Reloaded(ReloadOutcome::Reloaded(Err(e))) => {
                        self.shut_down(Err(e));
                        DaemonAction::Shutdown
                    },
                    DaemonEvent::Reloaded(_) => DaemonAction::Continue,
                    DaemonEvent::Handled(Err(e)) => {
                        self.shut_down(Err(e));
                        DaemonAction::Shutdown
                    },
                    DaemonEvent::Handled(Ok(_)) => DaemonAction::Continue,
                }
            },
            Phase::Draining => {
                if let DaemonEvent::ServiceFinished(r) = event {
                    self.one_less();
                    if self.result.is_ok() {
                        self.result = r;
                    }
                    if self.services == 0 {
                        self.phase = Phase::Finished;
                    }
                }
                DaemonAction::Continue
            },
            Phase::Finished => DaemonAction::Continue,
        }
    }
}

/// What a reload comes to: a configuration that cannot be read is no
/// failure, and otherwise the context's answer stands.
pub open spec fn reload_result(outcome: ReloadOutcome) -> Result<(), Error> {
    match outcome {
        ReloadOutcome::ConfigUnreadable => Ok(()),
        ReloadOutcome::Reloaded(r) => r,
    }
}

/// What a reload comes to.
pub fn reload_outcome(outcome: ReloadOutcome) -> (r: Result<(), Error>)
    ensures
        r == reload_result(outcome),
{
    match outcome {
        ReloadOutcome::ConfigUnreadable => Ok(()),
        ReloadOutcome::Reloaded(r) => r,
    }
}

/// Whether the daemon announces that it is ready once a reload was made: it
/// does unless the reload failed.
pub fn ready_after_reload(outcome: ReloadOutcome) -> (r: bool)
    ensures
        r == (reload_result(outcome) is Ok),
{
    reload_outcome(outcome).is_ok()
}

/// The notice that the daemon is ready.
pub fn ready_message() -> (r: &'static str)
    ensures
        r@ == "READY=1\n"@,
{
    "READY=1\n"
}

/// A reading of the monotonic clock in microseconds: nothing for a reading
/// with a negative part, or one whose microseconds do not fit in 63 bits.
pub open spec fn monotonic_usec(tv_sec: i64, tv_nsec: i64) -> Option<u64> {
    if tv_sec >= 0 && tv_nsec >= 0 && tv_sec * 1_000_000 + tv_nsec / 1_000 <= i64::MAX {
        Some((tv_sec * 1_000_000 + tv_nsec / 1_000) as u64)
    } else {
        None
    }
}

/// The notice that the daemon reloads, with the time of the reload.
pub open spec fn reloading_text(usec: u64) -> Seq<u8> {
    "RELOADING=1\nMONOTONIC_USEC=".spec_bytes() + decimal_digits(usec as nat) + "\n".spec_bytes()
}

/// The notice that the daemon reloads, for a reading of the monotonic clock.
/// A reading that stands for no time gives no notice.
pub fn reloading_message(tv_sec: i64, tv_nsec: i64) -> (r: Option<Vec<u8>>)
    ensures
        match monotonic_usec(tv_sec, tv_nsec) {
            Some(usec) => r is Some && r->Some_0@ == reloading_text(usec),
            None => r is None,
        },
{
    if tv_sec < 0 || tv_nsec < 0 {
        return None;
    }
    let sec = tv_sec as u64;
    let sub = (tv_nsec as u64) / 1_000;
    if sec > (0x7fff_ffff_ffff_ffff - sub) / 1_000_000 {
        return None;
    }
    let usec: u64 = sec * 1_000_000 + sub;
    let mut out: Vec<u8> = Vec::new();
    out.extend_from_slice("RELOADING=1\nMONOTONIC_USEC=".as_bytes());
    let digits = u64_digits(usec);
    out.extend_from_slice(digits.as_slice());
    out.extend_from_slice("\n".as_bytes());
    Some(out)
}

/// Reads the monotonic clock through `nix::time::clock_gettime`. The result
/// is the clock's seconds and nanoseconds, or nothing where the clock could
/// not be read. Nothing is claimed of the time read.
#[verifier::external_body]
fn monotonic_clock() -> (r: Option<(i64, i64)>)
{
    match nix::time::clock_gettime(nix::time::ClockId::CLOCK_MONOTONIC) {
        Ok(t) => Some((t.tv_sec(), t.tv_nsec())),
        Err(_) => None,
    }
}

/// The notice that the daemon reloads, as of now: the notice for some
/// reading of the clock, or none where the clock could not be read or read
/// no time.
pub fn reloading_notice() -> (r: Option<Vec<u8>>)
    ensures
        r is Some ==> exists|usec: u64| r->Some_0@ == reloading_text(usec),
{
    match monotonic_clock() {
        Some((tv_sec, tv_nsec)) => reloading_message(tv_sec, tv_nsec),
        None => None,
    }
}

/// Fail-fast. A service that fails while the daemon runs settles what the
/// daemon ends with: the others are cancelled at once, no later event
/// changes the result, and the daemon is finished exactly when every service
/// that was left has ended.
pub proof fn fail_fast<T>(s: DaemonState, error: Error, later: Seq<DaemonEvent<T>>)
    requires
        s.phase == Phase::Running,
        s.services >= 1,
    ensures
        ({
            let failed = DaemonEvent::<T>::ServiceFinished(Err(error));
            let end = state_after(next_state(s, failed), later);
            &&& next_action(s, failed) == DaemonAction::<T>::Shutdown
            &&& end.result == Err::<(), Error>(error)
            &&& end.phase != Phase::Running
            &&& end.phase == Phase::Finished <==> services_finished(later) >= s.services - 1
            &&& end.phase == Phase::Finished ==> end.services == 0
        }),
    decreases later.len(),
{
    let failed = DaemonEvent::<T>::ServiceFinished(Err(error));
    if later.len() > 0 {
        fail_fast(s, error, later.drop_last());
        lemma_left(next_state(s, failed), later.drop_last());
    }
    lemma_left(next_state(s, failed), later);
}

/// Once the daemon shuts down, the services left are those that were left
/// when it began to, less those that ended since.
proof fn lemma_left<T>(s: DaemonState, events: Seq<DaemonEvent<T>>)
    requires
        s.phase != Phase::Running,
        s.phase == Phase::Finished <==> s.services == 0,
    ensures
        ({
            let end = state_after(s, events);
            &&& end.phase != Phase::Running
            &&& end.phase == Phase::Finished <==> end.services == 0
            &&& end.services == if services_finished(events) >= s.services {
                0
            } else {
                s.services - services_finished(events)
            }
        }),
    decreases events.len(),
{
    if events.len() > 0 {
        lemma_left(s, events.drop_last());
    }
}

/// The first failure stays. Once the daemon shuts down with a failure, it
/// ends with that failure, whatever happens later.
pub proof fn first_error_stays<T>(s: DaemonState, events: Seq<DaemonEvent<T>>)
    requires
        s.phase != Phase::Running,
        s.result is Err,
    ensures
        state_after(s, events).result == s.result,
        state_after(s, events).phase != Phase::Running,
    decreases events.len(),
{
    if events.len() > 0 {
        first_error_stays(s, events.drop_last());
    }
}

/// A shutdown in good order ends well. After an interrupt or a terminate
/// signal the daemon ends without failure, as long as no service fails
/// while the services are waited for.
pub proof fn graceful_shutdown<T>(s: DaemonState, later: Seq<DaemonEvent<T>>)
    requires
        s.phase == Phase::Running,
        forall|i: int|
            0 <= i < later.len() && (#[trigger] later[i]) is ServiceFinished
                ==> later[i]->ServiceFinished_0 is Ok,
    ensures
        state_after(next_state(s, DaemonEvent::<T>::Interrupt), later).result is Ok,
        state_after(next_state(s, DaemonEvent::<T>::Terminate(true)), later).result is Ok,
        state_after(next_state(s, DaemonEvent::<T>::Interrupt), later).phase != Phase::Running,
        state_after(next_state(s, DaemonEvent::<T>::Terminate(true)), later).phase
            != Phase::Running,
    decreases later.len(),
{
    if later.len() > 0 {
        let before = later.drop_last();
        assert forall|i: int| 0 <= i < before.len() && (#[trigger] before[i]) is ServiceFinished
            implies before[i]->ServiceFinished_0 is Ok by {
            assert(before[i] == later[i]);
        }
        graceful_shutdown(s, before);
        assert(later.last() == later[later.len() - 1]);
    }
}

/// A late failure counts. While the daemon shuts down in good order, the
/// first service to fail settles what the daemon ends with.
pub proof fn late_error_counts<T>(s: DaemonState, error: Error)
    requires
        s.phase == Phase::Draining,
        s.result is Ok,
    ensures
        next_state(s, DaemonEvent::<T>::ServiceFinished(Err(error))).result == Err::<(), Error>(
            error,
        ),
{
}

} // verus!
