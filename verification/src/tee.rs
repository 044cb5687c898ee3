//! The life of the process-wide log tee: it is installed at most once, and
//! from then on every record that its filter admits leaves as one emission.

use vstd::prelude::*;
use crate::filter::{admits, tee_filter, LogTarget};
use crate::level::Level;
use crate::logging::accepts;
use crate::record::{emission_view, tee_record, teed, Emission, EmissionView};

verus! {

/// The state of the log tee. There is no way back from `Installed`.
#[derive(Clone, Debug, PartialEq, Eq)]
pub enum TeeState {
    /// No tee has been installed: records go nowhere.
    Uninitialized,
    /// The tee is installed and filters by these overrides, on top of the
    /// default global level.
    Installed(Vec<LogTarget>),
}

/// What a request to install the tee asks its caller to do.
#[derive(Clone, Copy, Debug, PartialEq, Eq, Structural)]
pub enum InstallAction {
    /// Build the logger and make it the global one.
    Initialize,
    /// A tee is installed already: do nothing.
    Skip,
}

impl TeeState {
    /// The state after a request to install a tee with these overrides: the
    /// first request installs it, later ones change nothing.
    pub open spec fn installing(self, log_targets: Vec<LogTarget>) -> TeeState {
        match self {
            TeeState::Uninitialized => TeeState::Installed(log_targets),
            TeeState::Installed(_) => self,
        }
    }

    /// What a request to install asks for in this state.
    pub open spec fn install_action(self) -> InstallAction {
        match self {
            TeeState::Uninitialized => InstallAction::Initialize,
            TeeState::Installed(_) => InstallAction::Skip,
        }
    }

    /// What leaves the tee for a record in this state: nothing before a tee
    /// is installed, and afterwards one emission if the installed filter
    /// admits the record.
    pub open spec fn emits(self, level: Level, target: Seq<char>, message: Seq<char>) -> Option<EmissionView> {
        match self {
            TeeState::Uninitialized => None,
            TeeState::Installed(log_targets) => teed(
                admits(tee_filter(log_targets@), target, level),
                level,
                target,
                message,
            ),
        }
    }

    /// The state of a process that has not installed a tee.
    pub fn new() -> (state: TeeState)
        ensures
            state == TeeState::Uninitialized,
    {
        TeeState::Uninitialized
    }

    /// Whether a tee is installed.
    pub fn is_installed(&self) -> (installed: bool)
        ensures
            installed == (self is Installed),
    {
        match self {
            TeeState::Uninitialized => false,
            TeeState::Installed(_) => true,
        }
    }

    /// Requests the installation of a tee that filters by `log_targets`, and
    /// says whether the caller is to initialize the global logger. Only the
    /// first request takes effect.
    pub fn install(&mut self, log_targets: Vec<LogTarget>) -> (action: InstallAction)
        ensures
            *final(self) == old(self).installing(log_targets),
            action == old(self).install_action(),
    {
        if self.is_installed() {
            InstallAction::Skip
        } else {
            *self = TeeState::Installed(log_targets);
            InstallAction::Initialize
        }
    }

    /// Tees one record: asks the installed filter for its verdict and, for an
    /// admitted record, produces the console line and the sink message.
    pub fn log(&self, level: Level, target: &str, message: &str) -> (out: Option<Emission>)
        ensures
            emission_view(out) == self.emits(level, target@, message@),
    {
        match self {
            TeeState::Uninitialized => None,
            TeeState::Installed(log_targets) => {
                let admitted = accepts(log_targets, target, level);
                tee_record(admitted, level, target, message)
            },
        }
    }
}

/// Installing is idempotent: after a first request, a second one leaves the
/// state as it is, so every later record is teed as if it had not been made.
pub proof fn lemma_second_install_is_ignored(
    state: TeeState,
    first: Vec<LogTarget>,
    second: Vec<LogTarget>,
    level: Level,
    target: Seq<char>,
    message: Seq<char>,
)
    ensures
        state.installing(first).installing(second) == state.installing(first),
        state.installing(first).installing(second).emits(level, target, message)
            == state.installing(first).emits(level, target, message),
{
}

/// Once installed, always installed: no request leads back.
pub proof fn lemma_installed_is_terminal(state: TeeState, log_targets: Vec<LogTarget>)
    ensures
        state.installing(log_targets) is Installed,
        state is Installed ==> state.installing(log_targets) == state,
{
}

/// Every record that the installed filter admits leaves the tee exactly once
/// for each destination: as `<LEVEL> <TARGET> <MESSAGE>` and a line feed for
/// the console, and as the same line for the sink. A rejected record leaves
/// nothing.
pub proof fn lemma_admitted_record_leaves_once(
    log_targets: Vec<LogTarget>,
    level: Level,
    target: Seq<char>,
    message: Seq<char>,
)
    ensures
        ({
            let line = level.name() + seq![' '] + target + seq![' '] + message;
            let out = TeeState::Installed(log_targets).emits(level, target, message);
            if admits(tee_filter(log_targets@), target, level) {
                out == Some(EmissionView { console: line + seq!['\n'], sink: line })
            } else {
                out is None
            }
        }),
{
}

} // verus!
