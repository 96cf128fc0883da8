//! The arbiter of the TDP limit.
//!
//! One actor owns the limit. Callers set it, read it, and take out leases on
//! "download mode", which forces the limit to a configured value for as long
//! as anybody holds a lease. The actor here never touches hardware: it is told
//! what the limiting method reports, and answers with what to write and what
//! to reply.

use vstd::prelude::*;
use crate::error::Error;
use crate::hardware::DeviceConfig;
use crate::lease::{acquired, released, LeaseTable};
use crate::tdp_limit::{
    has_manager, is_manager_for, tdp_config, tdp_limit_manager, TdpLimitManager,
};

verus! {

/// What the limiting method reported when it was asked, just before a decision.
#[derive(Clone, Copy, Debug)]
pub struct DriverStatus {
    /// Whether the method can be used right now.
    pub active: Result<bool, Error>,
    /// The limit in force, in the device's display unit.
    pub limit: Result<u32, Error>,
    /// The least and the greatest limit that may be set.
    pub range: Result<(u32, u32), Error>,
}

/// A request to the arbiter.
#[derive(Debug)]
pub enum TdpManagerCommand {
    SetTdpLimit(u32),
    GetTdpLimit,
    GetTdpLimitRange,
    IsActive,
    UpdateDownloadMode,
    /// Take out a lease under the given identifier. The second field says
    /// whether the liveness pipe for it could be created.
    EnterDownloadMode(String, Result<(), Error>),
    ListDownloadModeHandles,
}

/// A request, with its identifier as a sequence of characters.
pub enum CommandView {
    SetTdpLimit(u32),
    GetTdpLimit,
    GetTdpLimitRange,
    IsActive,
    UpdateDownloadMode,
    EnterDownloadMode(Seq<char>, Result<(), Error>),
    ListDownloadModeHandles,
}

impl View for TdpManagerCommand {
    type V = CommandView;

    open spec fn view(&self) -> CommandView {
        match self {
            TdpManagerCommand::SetTdpLimit(v) => CommandView::SetTdpLimit(*v),
            TdpManagerCommand::GetTdpLimit => CommandView::GetTdpLimit,
            TdpManagerCommand::GetTdpLimitRange => CommandView::GetTdpLimitRange,
            TdpManagerCommand::IsActive => CommandView::IsActive,
            TdpManagerCommand::UpdateDownloadMode => CommandView::UpdateDownloadMode,
            TdpManagerCommand::EnterDownloadMode(id, pipe) => CommandView::EnterDownloadMode(
                id@,
                *pipe,
            ),
            TdpManagerCommand::ListDownloadModeHandles => CommandView::ListDownloadModeHandles,
        }
    }
}

/// What the actor's loop can wake up to.
#[derive(Debug)]
pub enum TdpManagerEvent {
    /// A request arrived.
    Command(TdpManagerCommand),
    /// The holder of a lease closed its end of the liveness pipe.
    HandleClosed(String),
    /// Every sender of requests is gone.
    ChannelClosed,
}

/// An event, with its identifier as a sequence of characters.
pub enum EventView {
    Command(CommandView),
    HandleClosed(Seq<char>),
    ChannelClosed,
}

impl View for TdpManagerEvent {
    type V = EventView;

    open spec fn view(&self) -> EventView {
        match self {
            TdpManagerEvent::Command(c) => EventView::Command(c@),
            TdpManagerEvent::HandleClosed(id) => EventView::HandleClosed(id@),
            TdpManagerEvent::ChannelClosed => EventView::ChannelClosed,
        }
    }
}

/// Why the arbiter asks for a write.
#[derive(Clone, Copy, Debug, PartialEq, Eq, Structural)]
pub enum WritePurpose {
    /// A caller set the limit.
    SetLimit,
    /// Download mode forces its limit.
    Override,
    /// Download mode ended; the limit from before it comes back.
    Restore,
    /// As `Override`, for a lease whose caller still waits for the reply.
    EnterOverride,
}

/// A write that the arbiter asks for.
#[derive(Clone, Copy, Debug, PartialEq, Eq, Structural)]
pub struct LimitWrite {
    pub limit: u32,
    pub purpose: WritePurpose,
}

/// What goes back to whoever sent a request.
#[derive(Debug)]
pub enum TdpManagerReply {
    /// The request has no reply.
    Nothing,
    TdpLimit(Result<u32, Error>),
    TdpLimitRange(Result<(u32, u32), Error>),
    IsActive(Result<bool, Error>),
    /// `Ok(true)`: the caller gets the liveness token. `Ok(false)`: download
    /// mode is not configured, and there is no token.
    DownloadModeHandle(Result<bool, Error>),
    DownloadModeHandles(Vec<(String, u32)>),
}

/// A reply, with the listing as a map.
pub enum ReplyView {
    Nothing,
    TdpLimit(Result<u32, Error>),
    TdpLimitRange(Result<(u32, u32), Error>),
    IsActive(Result<bool, Error>),
    DownloadModeHandle(Result<bool, Error>),
    DownloadModeHandles(Map<Seq<char>, nat>),
}

impl View for TdpManagerReply {
    type V = ReplyView;

    open spec fn view(&self) -> ReplyView {
        match self {
            TdpManagerReply::Nothing => ReplyView::Nothing,
            TdpManagerReply::TdpLimit(r) => ReplyView::TdpLimit(*r),
            TdpManagerReply::TdpLimitRange(r) => ReplyView::TdpLimitRange(*r),
            TdpManagerReply::IsActive(r) => ReplyView::IsActive(*r),
            TdpManagerReply::DownloadModeHandle(r) => ReplyView::DownloadModeHandle(*r),
            TdpManagerReply::DownloadModeHandles(pairs) => ReplyView::DownloadModeHandles(
                crate::lease::listing_map(crate::lease::listing_view(pairs@)),
            ),
        }
    }
}

/// What the caller of the arbiter does next.
#[derive(Debug)]
pub enum TdpManagerAction {
    /// The event is dealt with. `reply` goes to the sender of the request,
    /// `result` is what handling it came to, and `watch` says that a lease was
    /// entered whose liveness pipe has to be watched from now on.
    Done { reply: TdpManagerReply, result: Result<(), Error>, watch: bool },
    /// Write the limit through the limiting method, then hand the outcome to
    /// `written`. With the purpose `EnterOverride` a lease was entered, and
    /// its liveness pipe has to be watched.
    Write(LimitWrite),
    /// The actor cannot go on.
    Stop(Error),
}

/// An action, with its reply by its view.
pub enum ActionView {
    Done { reply: ReplyView, result: Result<(), Error>, watch: bool },
    Write(LimitWrite),
    Stop(Error),
}

impl View for TdpManagerAction {
    type V = ActionView;

    open spec fn view(&self) -> ActionView {
        match self {
            TdpManagerAction::Done { reply, result, watch } => ActionView::Done {
                reply: reply@,
                result: *result,
                watch: *watch,
            },
            TdpManagerAction::Write(w) => ActionView::Write(*w),
            TdpManagerAction::Stop(e) => ActionView::Stop(*e),
        }
    }
}

/// How a write ended, for the sender of the request that caused it.
#[derive(Clone, Copy, Debug)]
pub struct Completion {
    /// The answer to a request for a lease, where the write was made for one.
    pub reply: Option<Result<bool, Error>>,
    /// What handling the event came to.
    pub result: Result<(), Error>,
}

/// The arbiter's state, as contracts speak of it.
pub struct ArbiterState {
    /// Who holds download mode, and how many times.
    pub leases: Map<Seq<char>, nat>,
    /// The limit that download mode forces, if it is configured.
    pub download_mode_limit: Option<u32>,
    /// The limit found when download mode began, while it lasts.
    pub previous_limit: Option<u32>,
}

/// Nobody holds a lease.
pub open spec fn idle(s: ArbiterState) -> bool {
    s.leases == Map::<Seq<char>, nat>::empty()
}

/// The limit lies in the range.
pub open spec fn range_contains(range: (u32, u32), limit: u32) -> bool {
    range.0 <= limit && limit <= range.1
}

/// Bringing the limit in line with the leases. Nothing happens while the
/// method is inactive, while download mode is not configured, or while the
/// limit reads as zero. With no lease left, the limit from before download
/// mode is written back, if there is one. With a lease held, the limit in
/// force is remembered unless one is remembered already, and the download
/// mode limit is written unless it is in force.
pub open spec fn update_step(s: ArbiterState, status: DriverStatus) -> (
    ArbiterState,
    Result<Option<LimitWrite>, Error>,
) {
    match status.active {
        Err(e) => (s, Err(e)),
        Ok(false) => (s, Ok(None)),
        Ok(true) => match s.download_mode_limit {
            None => (s, Ok(None)),
            Some(forced) => match status.limit {
                Err(e) => (s, Err(e)),
                Ok(current) => if current == 0 {
                    (s, Ok(None))
                } else if idle(s) {
                    match s.previous_limit {
                        Some(previous) => (
                            s,
                            Ok(Some(LimitWrite { limit: previous, purpose: WritePurpose::Restore })),
                        ),
                        None => (s, Ok(None)),
                    }
                } else {
                    let cached = if s.previous_limit is None {
                        ArbiterState { previous_limit: Some(current), ..s }
                    } else {
                        s
                    };
                    if current != forced {
                        (
                            cached,
                            Ok(Some(LimitWrite { limit: forced, purpose: WritePurpose::Override })),
                        )
                    } else {
                        (cached, Ok(None))
                    }
                },
            },
        },
    }
}

/// The action that ends an event without a reply.
pub open spec fn done(result: Result<(), Error>) -> ActionView {
    ActionView::Done { reply: ReplyView::Nothing, result, watch: false }
}

/// The action that ends an event which only brought the limit in line.
pub open spec fn update_action(plan: Result<Option<LimitWrite>, Error>) -> ActionView {
    match plan {
        Err(e) => done(Err(e)),
        Ok(None) => done(Ok(())),
        Ok(Some(w)) => ActionView::Write(w),
    }
}

/// Taking out a lease. Without a configured download mode there is nothing to
/// take out. A pipe that could not be created, or a count that cannot grow,
/// fails the request and changes nothing. Otherwise the lease is entered and
/// the limit brought in line; the caller learns of a failure in that, but the
/// lease stands and is watched.
pub open spec fn enter_step(
    s: ArbiterState,
    identifier: Seq<char>,
    pipe: Result<(), Error>,
    status: DriverStatus,
) -> (ArbiterState, ActionView) {
    if s.download_mode_limit is None {
        (
            s,
            ActionView::Done {
                reply: ReplyView::DownloadModeHandle(Ok(false)),
                result: Ok(()),
                watch: false,
            },
        )
    } else if pipe is Err {
        (
            s,
            ActionView::Done {
                reply: ReplyView::DownloadModeHandle(Err(pipe->Err_0)),
                result: Ok(()),
                watch: false,
            },
        )
    } else if s.leases.dom().contains(identifier) && s.leases[identifier] >= u32::MAX {
        (
            s,
            ActionView::Done {
                reply: ReplyView::DownloadModeHandle(Err(Error::Overflow)),
                result: Ok(()),
                watch: false,
            },
        )
    } else {
        let entered = ArbiterState { leases: acquired(s.leases, identifier), ..s };
        let (next, plan) = update_step(entered, status);
        match plan {
            Err(e) => (
                next,
                ActionView::Done {
                    reply: ReplyView::DownloadModeHandle(Err(e)),
                    result: Ok(()),
                    watch: true,
                },
            ),
            Ok(None) => (
                next,
                ActionView::Done {
                    reply: ReplyView::DownloadModeHandle(Ok(true)),
                    result: Ok(()),
                    watch: true,
                },
            ),
            Ok(Some(w)) => (
                next,
                ActionView::Write(
                    LimitWrite { limit: w.limit, purpose: WritePurpose::EnterOverride },
                ),
            ),
        }
    }
}

/// Handling one request. A limit is set only while nobody holds a lease, and
/// only if it lies in the range that the method reports; while a lease is
/// held the request is accepted and dropped. Reads pass on what the method
/// reported.
pub open spec fn command_step(s: ArbiterState, command: CommandView, status: DriverStatus) -> (
    ArbiterState,
    ActionView,
) {
    match command {
        CommandView::SetTdpLimit(limit) => if idle(s) {
            match status.range {
                Err(e) => (s, done(Err(e))),
                Ok(range) => if range_contains(range, limit) {
                    (s, ActionView::Write(LimitWrite { limit, purpose: WritePurpose::SetLimit }))
                } else {
                    (s, done(Err(Error::Range)))
                },
            }
        } else {
            (s, done(Ok(())))
        },
        CommandView::GetTdpLimit => (
            s,
            ActionView::Done {
                reply: ReplyView::TdpLimit(status.limit),
                result: Ok(()),
                watch: false,
            },
        ),
        CommandView::GetTdpLimitRange => (
            s,
            ActionView::Done {
                reply: ReplyView::TdpLimitRange(status.range),
                result: Ok(()),
                watch: false,
            },
        ),
        CommandView::IsActive => (
            s,
            ActionView::Done {
                reply: ReplyView::IsActive(status.active),
                result: Ok(()),
                watch: false,
            },
        ),
        CommandView::UpdateDownloadMode => {
            let (next, plan) = update_step(s, status);
            (next, update_action(plan))
        },
        CommandView::EnterDownloadMode(identifier, pipe) => enter_step(s, identifier, pipe, status),
        CommandView::ListDownloadModeHandles => (
            s,
            ActionView::Done {
                reply: ReplyView::DownloadModeHandles(s.leases),
                result: Ok(()),
                watch: false,
            },
        ),
    }
}

/// A holder closed its liveness pipe: it gives up one reference, and when the
/// last lease of all goes, the limit is brought in line.
pub open spec fn close_step(s: ArbiterState, identifier: Seq<char>, status: DriverStatus) -> (
    ArbiterState,
    ActionView,
) {
    let next = ArbiterState { leases: released(s.leases, identifier), ..s };
    if s.leases.dom().contains(identifier) && s.leases[identifier] <= 1 && idle(next) {
        let (last, plan) = update_step(next, status);
        (last, update_action(plan))
    } else {
        (next, done(Ok(())))
    }
}

/// Handling one event of the actor's loop.
pub open spec fn event_step(s: ArbiterState, event: EventView, status: DriverStatus) -> (
    ArbiterState,
    ActionView,
) {
    match event {
        EventView::Command(command) => command_step(s, command, status),
        EventView::HandleClosed(identifier) => close_step(s, identifier, status),
        EventView::ChannelClosed => (s, ActionView::Stop(Error::ChannelClosed)),
    }
}

/// The state after a write ended. Only a successful restore changes it: the
/// remembered limit is forgotten.
pub open spec fn written_state(s: ArbiterState, purpose: WritePurpose, outcome: Result<(), Error>)
    -> ArbiterState {
    if purpose == WritePurpose::Restore && outcome is Ok {
        ArbiterState { previous_limit: None, ..s }
    } else {
        s
    }
}

/// What the sender of the request learns after a write ended. Only a lease
/// has a reply: the token, or the failure of the write.
pub open spec fn written_completion(purpose: WritePurpose, outcome: Result<(), Error>)
    -> Completion {
    if purpose == WritePurpose::EnterOverride {
        Completion {
            reply: Some(
                match outcome {
                    Ok(_) => Ok(true),
                    Err(e) => Err(e),
                },
            ),
            result: Ok(()),
        }
    } else {
        Completion { reply: None, result: outcome }
    }
}

/// The arbiter.
pub struct TdpManagerService {
    download_handles: LeaseTable,
    download_mode_limit: Option<u32>,
    previous_limit: Option<u32>,
    manager: TdpLimitManager,
}

/// The download mode limit that a configuration asks for. A limit of zero
/// is none.
pub open spec fn configured_limit(config: Option<&DeviceConfig>) -> Option<u32> {
    match tdp_config(config) {
        Some(limit) => if limit.download_mode_limit == Some(0u32) {
            None
        } else {
            limit.download_mode_limit
        },
        None => None,
    }
}

impl TdpManagerService {
    /// The lease table is well formed, and neither the download mode limit
    /// nor the remembered limit is zero.
    pub closed spec fn wf(&self) -> bool {
        &&& self.download_handles.wf()
        &&& self.download_mode_limit != Some(0u32)
        &&& self.previous_limit != Some(0u32)
    }

    pub closed spec fn view(&self) -> ArbiterState {
        ArbiterState {
            leases: self.download_handles@,
            download_mode_limit: self.download_mode_limit,
            previous_limit: self.previous_limit,
        }
    }

    /// Neither limit of a well-formed arbiter is zero.
    pub proof fn lemma_nonzero(&self)
        requires
            self.wf(),
        ensures
            self@.download_mode_limit != Some(0u32),
            self@.previous_limit != Some(0u32),
    {
    }

    /// The name under which the arbiter is supervised.
    pub fn name() -> (r: &'static str)
        ensures
            r@ == "tdp-manager"@,
    {
        "tdp-manager"
    }

    /// The arbiter for a device, with no lease held. There is none for a
    /// device without a configuration of the limit, or with one that names a
    /// way of limiting it does not configure.
    pub fn new(config: Option<&DeviceConfig>) -> (r: Result<TdpManagerService, Error>)
        ensures
            !has_manager(config) ==> r is Err && r->Err_0 == Error::Config,
            has_manager(config) ==> r is Ok && r->Ok_0.wf() && is_manager_for(
                tdp_config(config)->Some_0,
                r->Ok_0.manager_view(),
            ),
            r is Ok ==> r->Ok_0@ == (ArbiterState {
                leases: Map::empty(),
                download_mode_limit: configured_limit(config),
                previous_limit: None,
            }),
    {
        let manager = match tdp_limit_manager(config) {
            Ok(manager) => manager,
            Err(e) => {
                return Err(e);
            },
        };
        let limit = match config {
            Some(c) => match &c.tdp_limit {
                Some(limit) => match limit.download_mode_limit {
                    Some(v) => if v == 0 {
                        None
                    } else {
                        Some(v)
                    },
                    None => None,
                },
                None => None,
            },
            None => None,
        };
        Ok(
            TdpManagerService {
                download_handles: LeaseTable::new(),
                download_mode_limit: limit,
                previous_limit: None,
                manager,
            },
        )
    }

    /// The way of limiting that the arbiter was set up with.
    pub closed spec fn manager_view(&self) -> TdpLimitManager {
        self.manager
    }

    /// The way of limiting that the arbiter was set up with.
    pub fn manager(&self) -> (r: &TdpLimitManager)
        ensures
            *r == self.manager_view(),
    {
        &self.manager
    }

    /// Whether anybody holds a lease. While somebody does, the actor waits for
    /// closed liveness pipes as well as for requests.
    pub fn has_leases(&self) -> (r: bool)
        requires
            self.wf(),
        ensures
            r == !idle(self@),
    {
        !self.download_handles.is_empty()
    }

    /// Whether download mode is configured, so that a lease needs a pipe.
    pub fn is_download_mode_configured(&self) -> (r: bool)
        ensures
            r == (self@.download_mode_limit is Some),
    {
        self.download_mode_limit.is_some()
    }

    /// The limit remembered from before download mode, while it lasts.
    pub fn previous_limit(&self) -> (r: Option<u32>)
        ensures
            r == self@.previous_limit,
    {
        self.previous_limit
    }

    /// Brings the limit in line with the leases, and says what to write.
    pub fn update_download_mode(&mut self, status: &DriverStatus) -> (r: Result<
        Option<LimitWrite>,
        Error,
    >)
        requires
            old(self).wf(),
        ensures
            final(self).wf(),
            (final(self)@, r) == update_step(old(self)@, *status),
    {
        let active = match status.active {
            Ok(a) => a,
            Err(e) => {
                return Err(e);
            },
        };
        if !active {
            return Ok(None);
        }
        let forced = match self.download_mode_limit {
            Some(v) => v,
            None => {
                return Ok(None);
            },
        };
        let current = match status.limit {
            Ok(v) => v,
            Err(e) => {
                return Err(e);
            },
        };
        if current == 0 {
            return Ok(None);
        }
        if self.download_handles.is_empty() {
            match self.previous_limit {
                Some(previous) => Ok(
                    Some(LimitWrite { limit: previous, purpose: WritePurpose::Restore }),
                ),
                None => Ok(None),
            }
        } else {
            if self.previous_limit.is_none() {
                self.previous_limit = Some(current);
            }
            if current != forced {
                Ok(Some(LimitWrite { limit: forced, purpose: WritePurpose::Override }))
            } else {
                Ok(None)
            }
        }
    }

    /// Takes out a lease under `identifier`.
    pub fn get_download_mode_handle(
        &mut self,
        identifier: &str,
        pipe: Result<(), Error>,
        status: &DriverStatus,
    ) -> (r: TdpManagerAction)
        requires
            old(self).wf(),
        ensures
            final(self).wf(),
            (final(self)@, r@) == enter_step(old(self)@, identifier@, pipe, *status),
    {
        if self.download_mode_limit.is_none() {
            return TdpManagerAction::Done {
                reply: TdpManagerReply::DownloadModeHandle(Ok(false)),
                result: Ok(()),
                watch: false,
            };
        }
        if let Err(e) = pipe {
            return TdpManagerAction::Done {
                reply: TdpManagerReply::DownloadModeHandle(Err(e)),
                result: Ok(()),
                watch: false,
            };
        }
        proof {
            self.download_handles.lemma_counts();
        }
        if let Err(e) = self.download_handles.acquire(identifier) {
            return TdpManagerAction::Done {
                reply: TdpManagerReply::DownloadModeHandle(Err(e)),
                result: Ok(()),
                watch: false,
            };
        }
        match self.update_download_mode(status) {
            Err(e) => TdpManagerAction::Done {
                reply: TdpManagerReply::DownloadModeHandle(Err(e)),
                result: Ok(()),
                watch: true,
            },
            Ok(None) => TdpManagerAction::Done {
                reply: TdpManagerReply::DownloadModeHandle(Ok(true)),
                result: Ok(()),
                watch: true,
            },
            Ok(Some(w)) => TdpManagerAction::Write(
                LimitWrite { limit: w.limit, purpose: WritePurpose::EnterOverride },
            ),
        }
    }

    /// Handles one request.
    pub fn handle_command(&mut self, command: TdpManagerCommand, status: &DriverStatus) -> (r:
        TdpManagerAction)
        requires
            old(self).wf(),
        ensures
            final(self).wf(),
            (final(self)@, r@) == command_step(old(self)@, command@, *status),
            !(r is Stop),
    {
        match command {
            TdpManagerCommand::SetTdpLimit(limit) => {
                if self.download_handles.is_empty() {
                    match status.range {
                        Err(e) => Self::finish(Err(e)),
                        Ok(range) => {
                            if range.0 <= limit && limit <= range.1 {
                                TdpManagerAction::Write(
                                    LimitWrite { limit, purpose: WritePurpose::SetLimit },
                                )
                            } else {
                                Self::finish(Err(Error::Range))
                            }
                        },
                    }
                } else {
                    Self::finish(Ok(()))
                }
            },
            TdpManagerCommand::GetTdpLimit => TdpManagerAction::Done {
                reply: TdpManagerReply::TdpLimit(status.limit),
                result: Ok(()),
                watch: false,
            },
            TdpManagerCommand::GetTdpLimitRange => TdpManagerAction::Done {
                reply: TdpManagerReply::TdpLimitRange(status.range),
                result: Ok(()),
                watch: false,
            },
            TdpManagerCommand::IsActive => TdpManagerAction::Done {
                reply: TdpManagerReply::IsActive(status.active),
                result: Ok(()),
                watch: false,
            },
            TdpManagerCommand::UpdateDownloadMode => {
                let plan = self.update_download_mode(status);
                Self::after_update(plan)
            },
            TdpManagerCommand::EnterDownloadMode(identifier, pipe) => {
                self.get_download_mode_handle(identifier.as_str(), pipe, status)
            },
            TdpManagerCommand::ListDownloadModeHandles => TdpManagerAction::Done {
                reply: TdpManagerReply::DownloadModeHandles(self.download_handles.list()),
                result: Ok(()),
                watch: false,
            },
        }
    }

    /// Handles one event of the actor's loop: a request, a closed liveness
    /// pipe, or the end of all requests, which stops the actor.
    pub fn handle_event(&mut self, event: TdpManagerEvent, status: &DriverStatus) -> (r:
        TdpManagerAction)
        requires
            old(self).wf(),
        ensures
            final(self).wf(),
            (final(self)@, r@) == event_step(old(self)@, event@, *status),
    {
        match event {
            TdpManagerEvent::Command(command) => self.handle_command(command, status),
            TdpManagerEvent::HandleClosed(identifier) => {
                let left = self.download_handles.release(identifier.as_str());
                let last = match left {
                    Some(n) => n == 0,
                    None => false,
                };
                if last && self.download_handles.is_empty() {
                    let plan = self.update_download_mode(status);
                    Self::after_update(plan)
                } else {
                    Self::finish(Ok(()))
                }
            },
            TdpManagerEvent::ChannelClosed => TdpManagerAction::Stop(Error::ChannelClosed),
        }
    }

    /// Takes note of how a write ended, and says what its requester learns.
    pub fn written(&mut self, purpose: WritePurpose, outcome: Result<(), Error>) -> (r: Completion)
        requires
            old(self).wf(),
        ensures
            final(self).wf(),
            final(self)@ == written_state(old(self)@, purpose, outcome),
            r == written_completion(purpose, outcome),
    {
        match purpose {
            WritePurpose::EnterOverride => Completion {
                reply: Some(
                    match outcome {
                        Ok(_) => Ok(true),
                        Err(e) => Err(e),
                    },
                ),
                result: Ok(()),
            },
            WritePurpose::Restore => {
                if outcome.is_ok() {
                    self.previous_limit = None;
                }
                Completion { reply: None, result: outcome }
            },
            _ => Completion { reply: None, result: outcome },
        }
    }

    fn finish(result: Result<(), Error>) -> (r: TdpManagerAction)
        ensures
            r@ == done(result),
    {
        TdpManagerAction::Done { reply: TdpManagerReply::Nothing, result, watch: false }
    }

    fn after_update(plan: Result<Option<LimitWrite>, Error>) -> (r: TdpManagerAction)
        ensures
            r@ == update_action(plan),
    {
        match plan {
            Err(e) => Self::finish(Err(e)),
            Ok(None) => Self::finish(Ok(())),
            Ok(Some(w)) => TdpManagerAction::Write(w),
        }
    }
}

/// What a liveness pipe is ready for.
#[derive(Clone, Copy, Debug, PartialEq, Eq, Structural)]
pub struct Readiness {
    /// The holder closed its end.
    pub read_closed: bool,
    /// There is something to read.
    pub readable: bool,
}

/// What the watcher of a liveness pipe does next.
#[derive(Clone, Copy, Debug, PartialEq, Eq, Structural)]
pub enum WatchAction {
    /// Wait until the pipe is ready again.
    Wait,
    /// Read what the holder wrote, and throw it away.
    Read,
    /// The lease is over: report the holder's identifier.
    Release,
}

/// The watcher's answer to the pipe becoming ready. A pipe that is closed
/// ends the lease, whatever else holds of it; one with something to read is
/// read; a failure, or readiness for anything else, ends the lease as well.
pub open spec fn watch_ready(ready: Result<Readiness, Error>) -> WatchAction {
    match ready {
        Ok(state) => if state.read_closed {
            WatchAction::Release
        } else if state.readable {
            WatchAction::Read
        } else {
            WatchAction::Release
        },
        Err(_) => WatchAction::Release,
    }
}

/// The watcher's answer to a read: a read that failed ends the lease, any
/// other is followed by waiting again.
pub open spec fn watch_read(read: Result<usize, Error>) -> WatchAction {
    match read {
        Ok(_) => WatchAction::Wait,
        Err(_) => WatchAction::Release,
    }
}

/// Decides what the watcher of a liveness pipe does once the pipe is ready.
pub fn wait_on_handle(ready: Result<Readiness, Error>) -> (r: WatchAction)
    ensures
        r == watch_ready(ready),
{
    match ready {
        Ok(state) => {
            if state.read_closed {
                WatchAction::Release
            } else if state.readable {
                WatchAction::Read
            } else {
                WatchAction::Release
            }
        },
        Err(_) => WatchAction::Release,
    }
}

/// Decides what the watcher of a liveness pipe does once it has read.
pub fn wait_on_handle_read(read: Result<usize, Error>) -> (r: WatchAction)
    ensures
        r == watch_read(read),
{
    match read {
        Ok(_) => WatchAction::Wait,
        Err(_) => WatchAction::Release,
    }
}

} // verus!
