//! The run as a whole: fetch, compare, and either replace the file between a
//! stop and a restart of the services, or check that the services run.
use crate::config::{field_date, snapshot_of, Config, ConfigSnapshot};
use crate::date::{update_needed, DateError};
use crate::service::{ServiceFailure, Target};
use vstd::prelude::*;

verus! {

/// How a run ended.
#[derive(Clone, Copy, Debug, PartialEq, Eq, Structural)]
pub enum Outcome {
    /// The file was replaced.
    Success,
    /// Something went wrong; see the run's error.
    Failure,
    /// The local file is current and the services run.
    NoUpdateNeeded,
}

/// Where a run is.
#[derive(Clone, Copy, Debug, PartialEq, Eq, Structural)]
pub enum Phase {
    /// Waiting for the remote text.
    Fetching,
    /// Waiting for the local text.
    ReadingLocal,
    /// An update is due; waiting for the services to stop.
    Stopping,
    /// Waiting for the file to be written.
    Writing,
    /// Waiting for the services to start again after the write.
    Restarting,
    /// No update is due; waiting for the services to be found or brought running.
    Checking,
    /// A restart only; waiting for the services to stop.
    RebootStopping,
    /// A restart only; waiting for the services to start.
    RebootStarting,
    /// The run is over.
    Done(Outcome),
}

/// What made a run fail, without its details.
#[derive(Clone, Copy, Debug, PartialEq, Eq, Structural)]
pub enum FailureKind {
    Fetch,
    ReadLocal,
    Parse,
    Date,
    Write,
    Services,
}

/// What made a run fail.
#[derive(Clone, Debug, PartialEq, Eq)]
pub enum RunError {
    /// The remote text could not be fetched.
    Fetch(String),
    /// The local file could not be read.
    ReadLocal(String),
    /// The remote or the local text is not a configuration.
    Parse(String),
    /// The dates could not be compared.
    Date(DateError),
    /// The local file could not be written.
    Write(String),
    /// The services could not be brought to run.
    Services(Vec<ServiceFailure>),
}

impl RunError {
    /// The kind of failure, without its details.
    pub open spec fn kind(self) -> FailureKind {
        match self {
            RunError::Fetch(_) => FailureKind::Fetch,
            RunError::ReadLocal(_) => FailureKind::ReadLocal,
            RunError::Parse(_) => FailureKind::Parse,
            RunError::Date(_) => FailureKind::Date,
            RunError::Write(_) => FailureKind::Write,
            RunError::Services(_) => FailureKind::Services,
        }
    }
}

/// What the caller reports back after performing a [`RunCommand`].
pub enum RunEvent {
    /// The remote text, or why it could not be fetched.
    Fetched(Result<String, String>),
    /// The local file's text, or why it could not be read.
    LocalRead(Result<String, String>),
    /// The outcome of a coordination pass.
    ServicesEnsured(Result<(), Vec<ServiceFailure>>),
    /// Whether the remote text was written over the local file.
    Written(Result<(), String>),
}

/// The next operation a run asks its caller to perform.
#[derive(Clone, Copy, Debug, PartialEq, Eq, Structural)]
pub enum RunCommand {
    /// Fetch the remote text.
    Fetch,
    /// Read the local file.
    ReadLocal,
    /// Run a coordination pass toward the target.
    Ensure(Target),
    /// Write the fetched text (`remote_text`) over the local file.
    Write,
    /// The run is over.
    Finish(Outcome),
}

/// Whether `remote` is newer than `local`, both as configuration text; the
/// error says which stage failed.
pub open spec fn decision(remote: Seq<char>, local: Seq<char>) -> Result<bool, FailureKind> {
    match (snapshot_of(remote), snapshot_of(local)) {
        (Some(r), Some(l)) => match field_date(r) {
            Some(d) => Ok(update_needed(d, field_date(l))),
            None => Err(FailureKind::Date),
        },
        _ => Err(FailureKind::Parse),
    }
}

/// The abstract state of a run: its phase, the fetched text, and what made it
/// fail, if anything did.
pub struct RunModel {
    pub phase: Phase,
    pub remote: Seq<char>,
    pub failure: Option<FailureKind>,
}

impl RunModel {
    /// The operation the run asks for next.
    pub open spec fn command(self) -> RunCommand {
        match self.phase {
            Phase::Fetching => RunCommand::Fetch,
            Phase::ReadingLocal => RunCommand::ReadLocal,
            Phase::Stopping => RunCommand::Ensure(Target::Stopped),
            Phase::Writing => RunCommand::Write,
            Phase::Restarting => RunCommand::Ensure(Target::Running),
            Phase::Checking => RunCommand::Ensure(Target::Running),
            Phase::RebootStopping => RunCommand::Ensure(Target::Stopped),
            Phase::RebootStarting => RunCommand::Ensure(Target::Running),
            Phase::Done(o) => RunCommand::Finish(o),
        }
    }

    /// The run ended in failure for `kind`.
    pub open spec fn fail(self, kind: FailureKind) -> RunModel {
        RunModel { phase: Phase::Done(Outcome::Failure), failure: Some(kind), ..self }
    }

    /// The run moved to `phase`.
    pub open spec fn goto(self, phase: Phase) -> RunModel {
        RunModel { phase, ..self }
    }

    /// The state after `event`. An event the run is not waiting for changes
    /// nothing.
    pub open spec fn after(self, event: RunEvent) -> RunModel {
        match (self.phase, event) {
            (Phase::Fetching, RunEvent::Fetched(Err(_))) => self.fail(FailureKind::Fetch),
            (Phase::Fetching, RunEvent::Fetched(Ok(t))) => RunModel {
                phase: Phase::ReadingLocal,
                remote: t@,
                ..self
            },
            (Phase::ReadingLocal, RunEvent::LocalRead(Err(_))) => self.fail(FailureKind::ReadLocal),
            (Phase::ReadingLocal, RunEvent::LocalRead(Ok(t))) => match decision(self.remote, t@) {
                Err(k) => self.fail(k),
                Ok(true) => self.goto(Phase::Stopping),
                Ok(false) => self.goto(Phase::Checking),
            },
            (Phase::Stopping, RunEvent::ServicesEnsured(_)) => self.goto(Phase::Writing),
            (Phase::Writing, RunEvent::Written(Err(_))) => RunModel {
                phase: Phase::Restarting,
                failure: Some(FailureKind::Write),
                ..self
            },
            (Phase::Writing, RunEvent::Written(Ok(_))) => self.goto(Phase::Restarting),
            (Phase::Restarting, RunEvent::ServicesEnsured(_)) => self.goto(
                Phase::Done(
                    if self.failure is None {
                        Outcome::Success
                    } else {
                        Outcome::Failure
                    },
                ),
            ),
            (Phase::Checking, RunEvent::ServicesEnsured(Err(_))) => self.fail(FailureKind::Services),
            (Phase::Checking, RunEvent::ServicesEnsured(Ok(_))) => self.goto(
                Phase::Done(Outcome::NoUpdateNeeded),
            ),
            (Phase::RebootStopping, RunEvent::ServicesEnsured(_)) => self.goto(Phase::RebootStarting),
            (Phase::RebootStarting, RunEvent::ServicesEnsured(_)) => self.goto(
                Phase::Done(Outcome::Success),
            ),
            _ => self,
        }
    }
}

/// The state a run that looks for an update starts in.
pub open spec fn run_start() -> RunModel {
    RunModel { phase: Phase::Fetching, remote: Seq::empty(), failure: None }
}

/// A fetch that fails ends the run in failure at once: no service is touched.
pub proof fn lemma_fetch_failure_touches_no_service(e: String)
    ensures
        run_start().after(RunEvent::Fetched(Err(e))).command() == RunCommand::Finish(
            Outcome::Failure,
        ),
        run_start().after(RunEvent::Fetched(Err(e))).failure == Some(FailureKind::Fetch),
{
}

/// The file is written only right after a pass that stops the services.
pub proof fn lemma_write_follows_stop(m: RunModel, event: RunEvent)
    requires
        m.command() != RunCommand::Write,
        m.after(event).command() == RunCommand::Write,
    ensures
        m.command() == RunCommand::Ensure(Target::Stopped),
        event is ServicesEnsured,
{
}

/// Whatever the write did, the services are restarted next; the run then
/// succeeds exactly when nothing failed before, the write included.
pub proof fn lemma_restart_after_write(m: RunModel, written: Result<(), String>, pass: Result<(), Vec<ServiceFailure>>)
    requires
        m.command() == RunCommand::Write,
    ensures
        m.after(RunEvent::Written(written)).command() == RunCommand::Ensure(Target::Running),
        m.after(RunEvent::Written(written)).after(RunEvent::ServicesEnsured(pass)).command()
            == RunCommand::Finish(
            if m.failure is None && written is Ok {
                Outcome::Success
            } else {
                Outcome::Failure
            },
        ),
{
}

/// One run of the update. The caller performs each [`RunCommand`] and reports
/// the result as a [`RunEvent`] until the command is `Finish`.
pub struct UpdateRun {
    phase: Phase,
    remote: String,
    error: Option<RunError>,
}

/// The detail-free view of an optional error.
pub open spec fn failure_of(e: Option<RunError>) -> Option<FailureKind> {
    match e {
        Some(e) => Some(e.kind()),
        None => None,
    }
}

impl View for UpdateRun {
    type V = RunModel;

    closed spec fn view(&self) -> RunModel {
        RunModel { phase: self.phase, remote: self.remote@, failure: failure_of(self.error) }
    }
}

impl UpdateRun {
    /// A run that fetches, compares, and updates if the remote file is newer.
    pub fn start() -> (r: UpdateRun)
        ensures
            r@ == run_start(),
    {
        UpdateRun { phase: Phase::Fetching, remote: String::new(), error: None }
    }

    /// A run that only stops and restarts the services.
    pub fn reboot() -> (r: UpdateRun)
        ensures
            r@ == (RunModel { phase: Phase::RebootStopping, remote: Seq::empty(), failure: None }),
    {
        UpdateRun { phase: Phase::RebootStopping, remote: String::new(), error: None }
    }

    /// The operation the run asks for next.
    pub fn command(&self) -> (r: RunCommand)
        ensures
            r == self@.command(),
    {
        match self.phase {
            Phase::Fetching => RunCommand::Fetch,
            Phase::ReadingLocal => RunCommand::ReadLocal,
            Phase::Stopping => RunCommand::Ensure(Target::Stopped),
            Phase::Writing => RunCommand::Write,
            Phase::Restarting => RunCommand::Ensure(Target::Running),
            Phase::Checking => RunCommand::Ensure(Target::Running),
            Phase::RebootStopping => RunCommand::Ensure(Target::Stopped),
            Phase::RebootStarting => RunCommand::Ensure(Target::Running),
            Phase::Done(o) => RunCommand::Finish(o),
        }
    }

    /// The fetched text, which `Write` puts over the local file.
    pub fn remote_text(&self) -> (r: &String)
        ensures
            r@ == self@.remote,
    {
        &self.remote
    }

    /// What made the run fail, if anything did.
    pub fn error(&self) -> (r: &Option<RunError>)
        ensures
            failure_of(*r) == self@.failure,
    {
        &self.error
    }

    fn fail(&mut self, e: RunError)
        ensures
            final(self)@ == old(self)@.fail(e.kind()),
    {
        self.phase = Phase::Done(Outcome::Failure);
        self.error = Some(e);
    }

    /// Compares the fetched text with the local text and moves on accordingly.
    fn decide(&mut self, local: &String)
        requires
            old(self).phase == Phase::ReadingLocal,
        ensures
            final(self)@ == (match decision(old(self)@.remote, local@) {
                Err(k) => old(self)@.fail(k),
                Ok(true) => old(self)@.goto(Phase::Stopping),
                Ok(false) => old(self)@.goto(Phase::Checking),
            }),
    {
        let remote: ConfigSnapshot = match Config::ini(&self.remote) {
            Ok(c) => c,
            Err(e) => {
                self.fail(RunError::Parse(e));
                return;
            },
        };
        let local: ConfigSnapshot = match Config::ini(local) {
            Ok(c) => c,
            Err(e) => {
                self.fail(RunError::Parse(e));
                return;
            },
        };
        match Config::compare_date(&remote, &local) {
            Err(e) => self.fail(RunError::Date(e)),
            Ok(true) => self.phase = Phase::Stopping,
            Ok(false) => self.phase = Phase::Checking,
        }
    }

    /// Takes the result of the last command and moves the run on.
    pub fn step(&mut self, event: RunEvent)
        ensures
            final(self)@ == old(self)@.after(event),
    {
        match (self.phase, event) {
            (Phase::Fetching, RunEvent::Fetched(Err(e))) => self.fail(RunError::Fetch(e)),
            (Phase::Fetching, RunEvent::Fetched(Ok(t))) => {
                self.remote = t;
                self.phase = Phase::ReadingLocal;
            },
            (Phase::ReadingLocal, RunEvent::LocalRead(Err(e))) => self.fail(RunError::ReadLocal(e)),
            (Phase::ReadingLocal, RunEvent::LocalRead(Ok(t))) => self.decide(&t),
            (Phase::Stopping, RunEvent::ServicesEnsured(_)) => self.phase = Phase::Writing,
            (Phase::Writing, RunEvent::Written(Err(e))) => {
                self.error = Some(RunError::Write(e));
                self.phase = Phase::Restarting;
            },
            (Phase::Writing, RunEvent::Written(Ok(_))) => self.phase = Phase::Restarting,
            (Phase::Restarting, RunEvent::ServicesEnsured(_)) => {
                self.phase =
                if self.error.is_none() {
                    Phase::Done(Outcome::Success)
                } else {
                    Phase::Done(Outcome::Failure)
                };
            },
            (Phase::Checking, RunEvent::ServicesEnsured(Err(f))) => self.fail(RunError::Services(f)),
            (Phase::Checking, RunEvent::ServicesEnsured(Ok(_))) => {
                self.phase = Phase::Done(Outcome::NoUpdateNeeded);
            },
            (Phase::RebootStopping, RunEvent::ServicesEnsured(_)) => {
                self.phase = Phase::RebootStarting;
            },
            (Phase::RebootStarting, RunEvent::ServicesEnsured(_)) => {
                self.phase = Phase::Done(Outcome::Success);
            },
            _ => {},
        }
    }
}

} // verus!
