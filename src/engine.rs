use vstd::prelude::*;

use crate::classify::{classify, spec_classify, spec_not_for_processing, KeyEvent, Payload, Transition};
use crate::dispatch::{spec_decide, Decision, Policy};
use crate::registry::{spec_lookup, HandlerRef, HandlerRegistry, RegistryError};

verus! {

/// The mechanism that places the engine in the input path.
#[derive(Clone, Copy, Debug, PartialEq, Eq, Structural)]
pub enum Strategy {
    /// One low-level keyboard hook.
    GlobalHook,
    /// Replacement of window procedures.
    WindowProc,
    /// Registration for raw keyboard input on a window.
    RawInput,
}

#[derive(Clone, Copy, Debug, PartialEq, Eq, Structural)]
pub enum Lifecycle {
    Uninstalled,
    Installing,
    Installed,
    Uninstalling,
    InstallFailed,
}

#[derive(Clone, Copy, Debug, PartialEq, Eq, Structural)]
pub enum EngineError {
    /// The window already has an original handler recorded.
    DuplicateTarget,
    /// An event came for a window with no original handler recorded.
    UnknownTarget,
    /// The window's current procedure could not be read.
    HandlerRead,
    /// The window's procedure could not be replaced.
    HandlerSwap,
    /// The OS refused the raw-input registration.
    DeviceRegistration,
    /// The OS refused to install the hook.
    OsRejectedInstall,
    /// The call does not fit the engine's lifecycle state or strategy.
    InvalidState,
}

/// Where a forwarded event goes.
#[derive(Clone, Copy, Debug, PartialEq, Eq, Structural)]
pub enum Route {
    /// The next hook of the OS chain, with the record unchanged.
    NextHook,
    /// The handler that the window had before interception.
    Original(HandlerRef),
    /// The OS default window procedure.
    DefaultProc,
}

/// What the entry point is to do with an event.
#[derive(Clone, Copy, Debug, PartialEq, Eq, Structural)]
pub enum Action {
    /// Call the route with the original arguments and pass its result back.
    Forward(Route),
    /// Return the "handled" result without calling anything.
    Handled,
}

/// The outcome of one event: what to report to the observer, and what to do.
#[derive(Clone, Copy, Debug, PartialEq, Eq, Structural)]
pub struct Dispatch {
    pub report: Option<KeyEvent>,
    pub action: Action,
}

/// What the OS did when one window's procedure was to be replaced: the
/// procedure read from it, and the value that the replacing write returned
/// (zero for failure, as either call reports it).
#[derive(Clone, Copy, Debug, PartialEq, Eq, Structural)]
pub struct WindowAttempt {
    pub window: isize,
    pub read: isize,
    pub swapped: isize,
}

/// The OS calls that tear the interception down.
#[derive(Debug)]
pub struct UninstallPlan {
    /// The hook to release.
    pub unhook: Option<isize>,
    /// Windows whose original procedure is to be put back, in the order in
    /// which they were replaced.
    pub restore: Vec<(isize, HandlerRef)>,
    /// Whether the raw-input registration is to be withdrawn.
    pub unregister_raw: bool,
}

/// The engine's state as contracts see it.
pub struct EngineModel {
    pub lifecycle: Lifecycle,
    pub strategy: Option<Strategy>,
    pub handlers: Map<isize, HandlerRef>,
    pub entries: Seq<(isize, HandlerRef)>,
    pub hook: Option<isize>,
    pub raw: bool,
    pub suppressed: Seq<u64>,
}

pub open spec fn spec_begin_install(m: EngineModel, s: Strategy) -> (EngineModel, Result<
    (),
    EngineError,
>) {
    if m.lifecycle == Lifecycle::Uninstalled {
        (EngineModel { lifecycle: Lifecycle::Installing, strategy: Some(s), ..m }, Ok(()))
    } else {
        (m, Err(EngineError::InvalidState))
    }
}

pub open spec fn spec_install_window(m: EngineModel, a: WindowAttempt) -> (EngineModel, Result<
    (),
    EngineError,
>) {
    if m.lifecycle != Lifecycle::Installing || m.strategy != Some(Strategy::WindowProc) {
        (m, Err(EngineError::InvalidState))
    } else if m.handlers.contains_key(a.window) {
        (m, Err(EngineError::DuplicateTarget))
    } else if a.read == 0 {
        (m, Err(EngineError::HandlerRead))
    } else if a.swapped == 0 {
        (m, Err(EngineError::HandlerSwap))
    } else {
        (
            EngineModel {
                handlers: m.handlers.insert(a.window, HandlerRef::WindowProc(a.read)),
                entries: m.entries.push((a.window, HandlerRef::WindowProc(a.read))),
                ..m
            },
            Ok(()),
        )
    }
}

/// The state after each attempt of `attempts` in turn, each on its own.
pub open spec fn spec_install_windows(m: EngineModel, attempts: Seq<WindowAttempt>) -> EngineModel
    decreases attempts.len(),
{
    if attempts.len() == 0 {
        m
    } else {
        spec_install_window(
            spec_install_windows(m, attempts.drop_last()),
            attempts.last(),
        ).0
    }
}

pub open spec fn spec_install_hook(m: EngineModel, handle: isize) -> (EngineModel, Result<
    (),
    EngineError,
>) {
    if m.lifecycle != Lifecycle::Installing || m.strategy != Some(Strategy::GlobalHook) {
        (m, Err(EngineError::InvalidState))
    } else if handle == 0 {
        (
            EngineModel { lifecycle: Lifecycle::InstallFailed, ..m },
            Err(EngineError::OsRejectedInstall),
        )
    } else {
        (EngineModel { hook: Some(handle), ..m }, Ok(()))
    }
}

pub open spec fn spec_register_raw(m: EngineModel, accepted: bool) -> (EngineModel, Result<
    (),
    EngineError,
>) {
    if m.lifecycle != Lifecycle::Installing || !(m.strategy == Some(Strategy::RawInput)
        || m.strategy == Some(Strategy::WindowProc)) {
        (m, Err(EngineError::InvalidState))
    } else if !accepted {
        (
            EngineModel { lifecycle: Lifecycle::InstallFailed, ..m },
            Err(EngineError::DeviceRegistration),
        )
    } else {
        (EngineModel { raw: true, ..m }, Ok(()))
    }
}

pub open spec fn spec_complete_install(m: EngineModel) -> (EngineModel, Result<(), EngineError>) {
    if m.lifecycle == Lifecycle::Installing {
        (EngineModel { lifecycle: Lifecycle::Installed, ..m }, Ok(()))
    } else {
        (m, Err(EngineError::InvalidState))
    }
}

/// The state after teardown, and the hook, windows and registration that
/// teardown is to release.
pub open spec fn spec_uninstall(m: EngineModel) -> (EngineModel, (
    Option<isize>,
    Seq<(isize, HandlerRef)>,
    bool,
)) {
    if m.lifecycle == Lifecycle::Uninstalled {
        (m, (None, Seq::empty(), false))
    } else {
        (
            EngineModel {
                lifecycle: Lifecycle::Uninstalled,
                strategy: None,
                handlers: Map::empty(),
                entries: Seq::empty(),
                hook: None,
                raw: false,
                ..m
            },
            (m.hook, m.entries, m.raw),
        )
    }
}

/// Where an event forwarded from `p` goes.
pub open spec fn spec_route(m: EngineModel, p: Payload) -> Result<Route, EngineError> {
    match p {
        Payload::Hook { .. } => Ok(Route::NextHook),
        Payload::Message { window, .. } => spec_window_route(m, window),
        Payload::Raw { window, .. } => spec_window_route(m, window),
    }
}

pub open spec fn spec_window_route(m: EngineModel, window: isize) -> Result<Route, EngineError> {
    if m.strategy == Some(Strategy::WindowProc) {
        match spec_lookup(m.handlers, window) {
            Ok(h) => Ok(Route::Original(h)),
            Err(_) => Err(EngineError::UnknownTarget),
        }
    } else {
        Ok(Route::DefaultProc)
    }
}

/// What the engine does with the payload `p`.
pub open spec fn spec_on_event(m: EngineModel, p: Payload) -> Result<Dispatch, EngineError> {
    match spec_route(m, p) {
        Err(e) => Err(e),
        Ok(route) => match spec_classify(p) {
            None => Ok(Dispatch { report: None, action: Action::Forward(route) }),
            Some(e) => Ok(
                Dispatch {
                    report: Some(e),
                    action: if spec_decide(m.suppressed, e) == Decision::Suppress {
                        Action::Handled
                    } else {
                        Action::Forward(route)
                    },
                },
            ),
        },
    }
}

/// The interception engine of one process: its lifecycle, the strategy in
/// use, the original handlers, and the suppression policy.
pub struct Engine {
    lifecycle: Lifecycle,
    strategy: Option<Strategy>,
    registry: HandlerRegistry,
    hook: Option<isize>,
    raw_registered: bool,
    policy: Policy,
}

impl View for Engine {
    type V = EngineModel;

    closed spec fn view(&self) -> EngineModel {
        EngineModel {
            lifecycle: self.lifecycle,
            strategy: self.strategy,
            handlers: self.registry@,
            entries: self.registry.entries(),
            hook: self.hook,
            raw: self.raw_registered,
            suppressed: self.policy@,
        }
    }
}

impl Engine {
    pub closed spec fn wf(&self) -> bool {
        self.registry.wf()
    }

    pub fn new(policy: Policy) -> (r: Engine)
        ensures
            r.wf(),
            r@ == (EngineModel {
                lifecycle: Lifecycle::Uninstalled,
                strategy: None,
                handlers: Map::empty(),
                entries: Seq::empty(),
                hook: None,
                raw: false,
                suppressed: policy@,
            }),
    {
        Engine {
            lifecycle: Lifecycle::Uninstalled,
            strategy: None,
            registry: HandlerRegistry::new(),
            hook: None,
            raw_registered: false,
            policy,
        }
    }

    pub fn lifecycle(&self) -> (r: Lifecycle)
        ensures
            r == self@.lifecycle,
    {
        self.lifecycle
    }

    pub fn strategy(&self) -> (r: Option<Strategy>)
        ensures
            r == self@.strategy,
    {
        self.strategy
    }

    pub fn hook(&self) -> (r: Option<isize>)
        ensures
            r == self@.hook,
    {
        self.hook
    }

    pub fn raw_registered(&self) -> (r: bool)
        ensures
            r == self@.raw,
    {
        self.raw_registered
    }

    pub fn handler_count(&self) -> (r: usize)
        requires
            self.wf(),
        ensures
            r == self@.handlers.len(),
    {
        self.registry.len()
    }

    pub fn is_hooked(&self, window: isize) -> (r: bool)
        requires
            self.wf(),
        ensures
            r == self@.handlers.contains_key(window),
    {
        self.registry.contains(window)
    }

    /// The original handler recorded for `window`.
    pub fn original_handler(&self, window: isize) -> (r: Result<HandlerRef, EngineError>)
        requires
            self.wf(),
        ensures
            r == (match spec_lookup(self@.handlers, window) {
                Ok(h) => Ok(h),
                Err(_) => Err(EngineError::UnknownTarget),
            }),
    {
        match self.registry.lookup(window) {
            Ok(h) => Ok(h),
            Err(_) => Err(EngineError::UnknownTarget),
        }
    }

    /// Starts installing `strategy`; only an uninstalled engine may.
    pub fn begin_install(&mut self, strategy: Strategy) -> (r: Result<(), EngineError>)
        requires
            old(self).wf(),
        ensures
            final(self).wf(),
            (final(self)@, r) == spec_begin_install(old(self)@, strategy),
    {
        if self.lifecycle == Lifecycle::Uninstalled {
            self.lifecycle = Lifecycle::Installing;
            self.strategy = Some(strategy);
            Ok(())
        } else {
            Err(EngineError::InvalidState)
        }
    }

    /// Records the outcome of replacing one window's procedure. The original
    /// procedure is recorded only where it was read and actually replaced.
    pub fn install_window(&mut self, a: WindowAttempt) -> (r: Result<(), EngineError>)
        requires
            old(self).wf(),
        ensures
            final(self).wf(),
            (final(self)@, r) == spec_install_window(old(self)@, a),
    {
        if self.lifecycle != Lifecycle::Installing || self.strategy != Some(Strategy::WindowProc) {
            return Err(EngineError::InvalidState);
        }
        if self.registry.contains(a.window) {
            return Err(EngineError::DuplicateTarget);
        }
        if a.read == 0 {
            return Err(EngineError::HandlerRead);
        }
        if a.swapped == 0 {
            return Err(EngineError::HandlerSwap);
        }
        let _ = self.registry.record(a.window, HandlerRef::WindowProc(a.read));
        Ok(())
    }

    /// Records the outcome for each window of `attempts` in turn; a failure
    /// for one window is reported in its place and does not touch the others.
    pub fn install_windows(&mut self, attempts: &Vec<WindowAttempt>) -> (r: Vec<
        Result<(), EngineError>,
    >)
        requires
            old(self).wf(),
        ensures
            final(self).wf(),
            final(self)@ == spec_install_windows(old(self)@, attempts@),
            r@.len() == attempts@.len(),
            forall|i: int|
                0 <= i < attempts@.len() ==> #[trigger] r@[i] == spec_install_window(
                    spec_install_windows(old(self)@, attempts@.take(i)),
                    attempts@[i],
                ).1,
    {
        let mut out: Vec<Result<(), EngineError>> = Vec::new();
        let mut i: usize = 0;
        proof {
            assert(attempts@.take(0) =~= Seq::<WindowAttempt>::empty());
        }
        while i < attempts.len()
            invariant
                self.wf(),
                i <= attempts@.len(),
                out@.len() == i,
                self@ == spec_install_windows(old(self)@, attempts@.take(i as int)),
                forall|j: int|
                    0 <= j < i ==> #[trigger] out@[j] == spec_install_window(
                        spec_install_windows(old(self)@, attempts@.take(j)),
                        attempts@[j],
                    ).1,
            decreases attempts@.len() - i,
        {
            let res = self.install_window(attempts[i]);
            proof {
                assert(attempts@.take(i + 1).drop_last() =~= attempts@.take(i as int));
                assert(attempts@.take(i + 1).last() == attempts@[i as int]);
            }
            out.push(res);
            i = i + 1;
        }
        proof {
            assert(attempts@.take(attempts@.len() as int) =~= attempts@);
        }
        out
    }

    /// Records the handle that installing the hook returned (zero when the
    /// OS refused it, which fails the install).
    pub fn install_hook(&mut self, handle: isize) -> (r: Result<(), EngineError>)
        requires
            old(self).wf(),
        ensures
            final(self).wf(),
            (final(self)@, r) == spec_install_hook(old(self)@, handle),
    {
        if self.lifecycle != Lifecycle::Installing || self.strategy != Some(Strategy::GlobalHook) {
            return Err(EngineError::InvalidState);
        }
        if handle == 0 {
            self.lifecycle = Lifecycle::InstallFailed;
            return Err(EngineError::OsRejectedInstall);
        }
        self.hook = Some(handle);
        Ok(())
    }

    /// Records whether the OS accepted the raw-input registration; a refusal
    /// fails the install.
    pub fn register_raw(&mut self, accepted: bool) -> (r: Result<(), EngineError>)
        requires
            old(self).wf(),
        ensures
            final(self).wf(),
            (final(self)@, r) == spec_register_raw(old(self)@, accepted),
    {
        if self.lifecycle != Lifecycle::Installing || !(self.strategy == Some(Strategy::RawInput)
            || self.strategy == Some(Strategy::WindowProc)) {
            return Err(EngineError::InvalidState);
        }
        if !accepted {
            self.lifecycle = Lifecycle::InstallFailed;
            return Err(EngineError::DeviceRegistration);
        }
        self.raw_registered = true;
        Ok(())
    }

    pub fn complete_install(&mut self) -> (r: Result<(), EngineError>)
        requires
            old(self).wf(),
        ensures
            final(self).wf(),
            (final(self)@, r) == spec_complete_install(old(self)@),
    {
        if self.lifecycle == Lifecycle::Installing {
            self.lifecycle = Lifecycle::Installed;
            Ok(())
        } else {
            Err(EngineError::InvalidState)
        }
    }

    /// Tears the interception down, from whatever state the install reached,
    /// and says which OS registrations are to be released. An engine that is
    /// already uninstalled has nothing to release.
    pub fn uninstall(&mut self) -> (r: UninstallPlan)
        requires
            old(self).wf(),
        ensures
            final(self).wf(),
            final(self)@ == spec_uninstall(old(self)@).0,
            (r.unhook, r.restore@, r.unregister_raw) == spec_uninstall(old(self)@).1,
    {
        if self.lifecycle == Lifecycle::Uninstalled {
            return UninstallPlan { unhook: None, restore: Vec::new(), unregister_raw: false };
        }
        let restore = self.registry.drain();
        let plan = UninstallPlan {
            unhook: self.hook,
            restore,
            unregister_raw: self.raw_registered,
        };
        self.lifecycle = Lifecycle::Uninstalled;
        self.strategy = None;
        self.hook = None;
        self.raw_registered = false;
        plan
    }

    /// Takes back a hook whose release failed, so that the next `uninstall`
    /// tries again.
    pub fn retain_hook(&mut self, handle: isize)
        requires
            old(self).wf(),
        ensures
            final(self).wf(),
            final(self)@ == (EngineModel {
                lifecycle: Lifecycle::Uninstalling,
                hook: Some(handle),
                ..old(self)@
            }),
    {
        self.lifecycle = Lifecycle::Uninstalling;
        self.hook = Some(handle);
    }

    fn window_route(&self, window: isize) -> (r: Result<Route, EngineError>)
        requires
            self.wf(),
        ensures
            r == spec_window_route(self@, window),
    {
        if self.strategy == Some(Strategy::WindowProc) {
            match self.registry.lookup(window) {
                Ok(h) => Ok(Route::Original(h)),
                Err(_) => Err(EngineError::UnknownTarget),
            }
        } else {
            Ok(Route::DefaultProc)
        }
    }

    /// Classifies the payload, decides on it, and names where a forwarded
    /// event goes. A window with no recorded original handler under
    /// procedure replacement is an error, never a silent pass.
    pub fn on_event(&self, p: &Payload) -> (r: Result<Dispatch, EngineError>)
        requires
            self.wf(),
        ensures
            r == spec_on_event(self@, *p),
    {
        let route = match p {
            Payload::Hook { .. } => Route::NextHook,
            Payload::Message { window, .. } => match self.window_route(*window) {
                Ok(route) => route,
                Err(e) => return Err(e),
            },
            Payload::Raw { window, .. } => match self.window_route(*window) {
                Ok(route) => route,
                Err(e) => return Err(e),
            },
        };
        match classify(p) {
            None => Ok(Dispatch { report: None, action: Action::Forward(route) }),
            Some(e) => {
                let action = match self.policy.decide(&e) {
                    Decision::Suppress => Action::Handled,
                    Decision::Forward => Action::Forward(route),
                };
                Ok(Dispatch { report: Some(e), action })
            },
        }
    }
}

/// A hook record marked as not to be processed is forwarded to the next hook,
/// unchanged, and no key event is reported for it.
pub proof fn lemma_unprocessed_record_forwarded(m: EngineModel, code: i32, message: u64, vk_code: u32)
    requires
        spec_not_for_processing(code),
    ensures
        spec_on_event(m, Payload::Hook { code, message, vk_code }) == Ok::<Dispatch, EngineError>(
            Dispatch { report: None, action: Action::Forward(Route::NextHook) },
        ),
{
}

/// Whatever the policy, an event of unknown transition is forwarded.
pub proof fn lemma_unknown_event_forwarded(m: EngineModel, p: Payload)
    requires
        spec_classify(p) matches Some(e) && e.transition == Transition::Unknown,
        spec_route(m, p) is Ok,
    ensures
        spec_on_event(m, p) matches Ok(d) && d.action == Action::Forward(spec_route(m, p)->Ok_0),
{
}

/// A second teardown changes nothing and releases nothing.
pub proof fn lemma_uninstall_idempotent(m: EngineModel)
    ensures
        spec_uninstall(spec_uninstall(m).0) == (
            spec_uninstall(m).0,
            (None::<isize>, Seq::<(isize, HandlerRef)>::empty(), false),
        ),
{
}

} // verus!
