use vstd::prelude::*;
use crate::config::{SharedTlsConfig, TlsHistory};
use crate::failure::{FailurePolicy, LoadFailure};
use crate::startup::StartupError;

verus! {

/// Where the reloader stands in its cycle.
#[derive(Clone, Copy, Debug, PartialEq, Eq, Structural)]
pub enum Phase {
    /// The interval timer runs. No load is in flight.
    Sleeping,
    /// The interval has elapsed and one load of the two files is in flight.
    Loading,
    /// A load failed under [`FailurePolicy::Abort`]; the reloader does nothing more.
    Stopped(LoadFailure),
}

/// What the caller reports to the reloader.
pub enum Event<M> {
    /// The interval timer has run out.
    TimerElapsed,
    /// The two files were read and gave this valid material.
    Loaded(M),
    /// The two files gave no valid material.
    LoadFailed(LoadFailure),
}

/// What the reloader asks the caller to do.
#[derive(Clone, Copy, Debug, PartialEq, Eq, Structural)]
pub enum Action {
    /// Suspend for this many seconds, then report [`Event::TimerElapsed`].
    Sleep { seconds: u64 },
    /// Read both files and build new material, then report [`Event::Loaded`] or
    /// [`Event::LoadFailed`].
    Load,
    /// End the process abnormally.
    Terminate(LoadFailure),
}

/// The mathematical content of a [`Reloader`].
pub struct ReloaderModel<M> {
    pub phase: Phase,
    pub config: TlsHistory<M>,
    pub interval: u64,
    pub policy: FailurePolicy,
}

impl<M> ReloaderModel<M> {
    /// The reloader right after startup: asleep, with the startup material active.
    pub open spec fn started(initial: M, interval: u64, policy: FailurePolicy) -> Self {
        ReloaderModel { phase: Phase::Sleeping, config: TlsHistory::fresh(initial), interval, policy }
    }

    /// Whether `event` is one that the current phase waits for.
    pub open spec fn accepts(self, event: Event<M>) -> bool {
        match (self.phase, event) {
            (Phase::Sleeping, Event::TimerElapsed) => true,
            (Phase::Loading, Event::Loaded(_)) => true,
            (Phase::Loading, Event::LoadFailed(_)) => true,
            _ => false,
        }
    }

    /// The reloader after `event`. An event that the phase does not wait for changes
    /// nothing. A load that succeeded is installed; one that failed leaves the
    /// configuration as it was, and stops the reloader or not as the policy says.
    pub open spec fn next(self, event: Event<M>) -> Self {
        if !self.accepts(event) {
            self
        } else {
            match event {
                Event::TimerElapsed => ReloaderModel { phase: Phase::Loading, ..self },
                Event::Loaded(material) => ReloaderModel {
                    phase: Phase::Sleeping,
                    config: self.config.install(material),
                    ..self
                },
                Event::LoadFailed(failure) => match self.policy {
                    FailurePolicy::Abort => ReloaderModel { phase: Phase::Stopped(failure), ..self },
                    FailurePolicy::Retain => ReloaderModel { phase: Phase::Sleeping, ..self },
                },
            }
        }
    }

    /// What the caller has to do in the current phase.
    pub open spec fn pending(self) -> Action {
        match self.phase {
            Phase::Sleeping => Action::Sleep { seconds: self.interval },
            Phase::Loading => Action::Load,
            Phase::Stopped(failure) => Action::Terminate(failure),
        }
    }

    /// The material that a read observes.
    pub open spec fn active(self) -> M {
        self.config.active()
    }
}

/// The certificate reloader: the configuration cell, the interval, the failure policy
/// and the phase of the cycle.
pub struct Reloader<M> {
    config: SharedTlsConfig<M>,
    interval: u64,
    policy: FailurePolicy,
    phase: Phase,
}

impl<M> View for Reloader<M> {
    type V = ReloaderModel<M>;

    closed spec fn view(&self) -> ReloaderModel<M> {
        ReloaderModel {
            phase: self.phase,
            config: self.config@,
            interval: self.interval,
            policy: self.policy,
        }
    }
}

impl<M> Reloader<M> {
    #[verifier::type_invariant]
    spec fn interval_is_positive(self) -> bool {
        self.interval > 0
    }

    /// A reloader for a listener that started with `initial`. The interval, in whole
    /// seconds, must be positive.
    pub fn new(initial: M, interval: u64, policy: FailurePolicy) -> (made: Result<
        Self,
        StartupError,
    >)
        ensures
            interval == 0 ==> (made matches Err(error) && error == StartupError::ZeroInterval),
            interval > 0 ==> (made matches Ok(reloader) && reloader@ == ReloaderModel::started(
                initial,
                interval,
                policy,
            )),
    {
        if interval == 0 {
            Err(StartupError::ZeroInterval)
        } else {
            Ok(
                Reloader {
                    config: SharedTlsConfig::new(initial),
                    interval,
                    policy,
                    phase: Phase::Sleeping,
                },
            )
        }
    }

    /// A reloader from the outcome of the first load, the one made before the listener
    /// accepts anything. A zero interval is reported first, then a load that failed.
    pub fn start(loaded: Result<M, LoadFailure>, interval: u64, policy: FailurePolicy) -> (made:
        Result<Self, StartupError>)
        ensures
            interval == 0 ==> (made matches Err(error) && error == StartupError::ZeroInterval),
            interval > 0 ==> match loaded {
                Ok(initial) => made matches Ok(reloader) && reloader@ == ReloaderModel::started(
                    initial,
                    interval,
                    policy,
                ),
                Err(failure) => made matches Err(error) && error == StartupError::InvalidMaterial(
                    failure,
                ),
            },
    {
        if interval == 0 {
            return Err(StartupError::ZeroInterval);
        }
        match loaded {
            Ok(initial) => Reloader::new(initial, interval, policy),
            Err(failure) => Err(StartupError::InvalidMaterial(failure)),
        }
    }

    /// Takes what happened and says what to do next.
    ///
    /// An event that the phase does not wait for is dropped: nothing changes and no
    /// action is handed out, so no second sleep or load is ever started beside the one
    /// in flight.
    pub fn step(&mut self, event: Event<M>) -> (action: Option<Action>)
        ensures
            final(self)@ == old(self)@.next(event),
            old(self)@.accepts(event) ==> action == Some(final(self)@.pending()),
            !old(self)@.accepts(event) ==> action.is_none(),
            final(self)@.interval > 0,
    {
        proof {
            use_type_invariant(&*self);
        }
        match self.phase {
            Phase::Sleeping => match event {
                Event::TimerElapsed => {
                    self.phase = Phase::Loading;
                    Some(Action::Load)
                },
                _ => None,
            },
            Phase::Loading => match event {
                Event::Loaded(material) => {
                    self.config.install(material);
                    self.phase = Phase::Sleeping;
                    Some(Action::Sleep { seconds: self.interval })
                },
                Event::LoadFailed(failure) => match self.policy {
                    FailurePolicy::Abort => {
                        self.phase = Phase::Stopped(failure);
                        Some(Action::Terminate(failure))
                    },
                    FailurePolicy::Retain => {
                        self.phase = Phase::Sleeping;
                        Some(Action::Sleep { seconds: self.interval })
                    },
                },
                Event::TimerElapsed => None,
            },
            Phase::Stopped(_) => None,
        }
    }

    /// What the caller has to do in the current phase. Right after startup that is to
    /// sleep for one whole interval: nothing is loaded before it has elapsed.
    pub fn pending(&self) -> (action: Action)
        ensures
            action == self@.pending(),
            self@.interval > 0,
    {
        proof {
            use_type_invariant(self);
        }
        match self.phase {
            Phase::Sleeping => Action::Sleep { seconds: self.interval },
            Phase::Loading => Action::Load,
            Phase::Stopped(failure) => Action::Terminate(failure),
        }
    }

    /// The material that a handshake beginning now would use.
    pub fn read(&self) -> (material: &M)
        ensures
            *material == self@.active(),
    {
        self.config.read()
    }

    /// The configuration cell.
    pub fn config(&self) -> (cell: &SharedTlsConfig<M>)
        ensures
            cell@ == self@.config,
    {
        &self.config
    }

    /// The phase of the cycle.
    pub fn phase(&self) -> (phase: Phase)
        ensures
            phase == self@.phase,
    {
        self.phase
    }

    /// The reload interval in seconds.
    pub fn interval(&self) -> (seconds: u64)
        ensures
            seconds == self@.interval,
            seconds > 0,
    {
        proof {
            use_type_invariant(self);
        }
        self.interval
    }

    /// The policy on failed reloads.
    pub fn policy(&self) -> (policy: FailurePolicy)
        ensures
            policy == self@.policy,
    {
        self.policy
    }
}

} // verus!
