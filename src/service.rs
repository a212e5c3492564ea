//! The two remote-desktop services and the coordinator that brings both to a
//! target state, one status query and at most one request per service.
use vstd::prelude::*;

verus! {

/// Windows' code for a service that is stopped.
pub const SERVICE_STOPPED: u32 = 1;

/// Windows' code for a service that is starting.
pub const SERVICE_START_PENDING: u32 = 2;

/// Windows' code for a service that is stopping.
pub const SERVICE_STOP_PENDING: u32 = 3;

/// Windows' code for a service that is running.
pub const SERVICE_RUNNING: u32 = 4;

/// Windows' error code for a stop refused because dependent services still run.
pub const ERROR_DEPENDENT_SERVICES_RUNNING: u32 = 1051;

/// The two services that hold the configuration file open. `TermService` is a
/// dependency of `UmRdpService`.
#[derive(Clone, Copy, Debug, PartialEq, Eq, Structural)]
pub enum ServiceName {
    UmRdpService,
    TermService,
}

/// The name by which the service manager knows a service.
pub open spec fn service_text(n: ServiceName) -> Seq<char> {
    match n {
        ServiceName::UmRdpService => "UmRdpService"@,
        ServiceName::TermService => "TermService"@,
    }
}

impl ServiceName {
    /// The name by which the service manager knows this service.
    pub fn as_str(&self) -> (r: &'static str)
        ensures
            r@ == service_text(*self),
    {
        match self {
            ServiceName::UmRdpService => "UmRdpService",
            ServiceName::TermService => "TermService",
        }
    }
}

/// A status reported by the service manager. States the coordinator does not
/// act on keep their code.
#[derive(Clone, Copy, Debug, PartialEq, Eq, Structural)]
pub enum ServiceStatus {
    Stopped,
    StartPending,
    StopPending,
    Running,
    Other(u32),
}

impl ServiceStatus {
    /// The status that a service manager code stands for.
    pub fn from_code(code: u32) -> (r: ServiceStatus)
        ensures
            code == SERVICE_STOPPED ==> r == ServiceStatus::Stopped,
            code == SERVICE_START_PENDING ==> r == ServiceStatus::StartPending,
            code == SERVICE_STOP_PENDING ==> r == ServiceStatus::StopPending,
            code == SERVICE_RUNNING ==> r == ServiceStatus::Running,
            !(SERVICE_STOPPED <= code <= SERVICE_RUNNING) ==> r == ServiceStatus::Other(code),
    {
        if code == SERVICE_STOPPED {
            ServiceStatus::Stopped
        } else if code == SERVICE_START_PENDING {
            ServiceStatus::StartPending
        } else if code == SERVICE_STOP_PENDING {
            ServiceStatus::StopPending
        } else if code == SERVICE_RUNNING {
            ServiceStatus::Running
        } else {
            ServiceStatus::Other(code)
        }
    }
}

/// An error reported by the service manager, with its code.
#[derive(Clone, Copy, Debug, PartialEq, Eq, Structural)]
pub struct OsError {
    pub code: u32,
}

impl OsError {
    /// The error that says a stop was refused because dependent services still
    /// run; the coordinator tolerates it.
    pub open spec fn is_dependents_running(self) -> bool {
        self.code == ERROR_DEPENDENT_SERVICES_RUNNING
    }
}

/// The collective state a coordination pass brings both services to.
#[derive(Clone, Copy, Debug, PartialEq, Eq, Structural)]
pub enum Target {
    Stopped,
    Running,
}

/// What to do with one service, given its fresh status.
#[derive(Clone, Copy, Debug, PartialEq, Eq, Structural)]
pub enum Step {
    /// It is in the target state: nothing to request.
    AlreadyInState,
    /// It is moving to the target state: a new request would race the pending one.
    InProgress,
    /// A start or stop request is due.
    Request,
}

/// The step owed to a service in `status` for `target`.
pub open spec fn step_for(status: ServiceStatus, target: Target) -> Step {
    match (target, status) {
        (Target::Stopped, ServiceStatus::Stopped) => Step::AlreadyInState,
        (Target::Running, ServiceStatus::Running) => Step::AlreadyInState,
        (Target::Stopped, ServiceStatus::StopPending) => Step::InProgress,
        (Target::Running, ServiceStatus::StartPending) => Step::InProgress,
        _ => Step::Request,
    }
}

/// Decides the step owed to a service in `status` for `target`.
pub fn plan_step(status: ServiceStatus, target: Target) -> (r: Step)
    ensures
        r == step_for(status, target),
{
    match (target, status) {
        (Target::Stopped, ServiceStatus::Stopped) => Step::AlreadyInState,
        (Target::Running, ServiceStatus::Running) => Step::AlreadyInState,
        (Target::Stopped, ServiceStatus::StopPending) => Step::InProgress,
        (Target::Running, ServiceStatus::StartPending) => Step::InProgress,
        _ => Step::Request,
    }
}

/// The order in which a pass visits the services: the dependency first when
/// starting, the dependent first when stopping.
pub open spec fn visit_order(target: Target) -> Seq<ServiceName> {
    match target {
        Target::Running => seq![ServiceName::TermService, ServiceName::UmRdpService],
        Target::Stopped => seq![ServiceName::UmRdpService, ServiceName::TermService],
    }
}

/// The `i`-th service a pass for `target` visits (0 or 1).
pub fn service_at(target: Target, i: usize) -> (r: ServiceName)
    requires
        i < 2,
    ensures
        r == visit_order(target)[i as int],
{
    match (target, i == 0) {
        (Target::Running, true) => ServiceName::TermService,
        (Target::Running, false) => ServiceName::UmRdpService,
        (Target::Stopped, true) => ServiceName::UmRdpService,
        (Target::Stopped, false) => ServiceName::TermService,
    }
}

/// The next operation a pass asks its caller to perform.
#[derive(Clone, Copy, Debug, PartialEq, Eq, Structural)]
pub enum ServiceCommand {
    /// Query the service's status and report it with `on_status`.
    Query(ServiceName),
    /// Request a start and report the result with `on_request`.
    Start(ServiceName),
    /// Request a stop and report the result with `on_request`.
    Stop(ServiceName),
    /// Both services have been handled; take the outcome with `finish`.
    Finished,
}

/// An error the service manager reported for one service.
#[derive(Clone, Copy, Debug, PartialEq, Eq, Structural)]
pub struct ServiceFailure {
    pub service: ServiceName,
    pub error: OsError,
}

/// The abstract state of a pass: its target, how many services it is done
/// with, whether a request for the current one is due, and the failures so far.
pub struct PassModel {
    pub target: Target,
    pub done: nat,
    pub requesting: bool,
    pub failures: Seq<ServiceFailure>,
}

impl PassModel {
    /// At most two services are done, and a request is due only for one not done.
    pub open spec fn wf(self) -> bool {
        &&& self.done <= 2
        &&& self.requesting ==> self.done < 2
    }

    /// The service the pass is at, while it is not finished.
    pub open spec fn current(self) -> ServiceName {
        visit_order(self.target)[self.done as int]
    }

    /// The operation the pass asks for next.
    pub open spec fn command(self) -> ServiceCommand {
        if self.done >= 2 {
            ServiceCommand::Finished
        } else if !self.requesting {
            ServiceCommand::Query(self.current())
        } else {
            match self.target {
                Target::Running => ServiceCommand::Start(self.current()),
                Target::Stopped => ServiceCommand::Stop(self.current()),
            }
        }
    }

    /// The state after the current service's status query came back.
    pub open spec fn after_status(self, status: Result<ServiceStatus, OsError>) -> PassModel {
        match status {
            Err(e) => PassModel {
                done: self.done + 1,
                requesting: false,
                failures: self.failures.push(ServiceFailure { service: self.current(), error: e }),
                ..self
            },
            Ok(s) => match step_for(s, self.target) {
                Step::Request => PassModel { requesting: true, ..self },
                _ => PassModel { done: self.done + 1, requesting: false, ..self },
            },
        }
    }

    /// The state after the current service's start or stop request came back.
    /// A stop refused because dependents still run is not a failure.
    pub open spec fn after_request(self, result: Result<(), OsError>) -> PassModel {
        let failures = match result {
            Err(e) => if e.is_dependents_running() {
                self.failures
            } else {
                self.failures.push(ServiceFailure { service: self.current(), error: e })
            },
            Ok(_) => self.failures,
        };
        PassModel { done: self.done + 1, requesting: false, failures, ..self }
    }
}

/// The state a pass toward `target` starts in.
pub open spec fn pass_start(target: Target) -> PassModel {
    PassModel { target, done: 0, requesting: false, failures: Seq::empty() }
}

/// The step owed to a service already in the target state, or moving to it, is
/// never a request.
pub proof fn lemma_settled_service_not_requested(status: ServiceStatus, target: Target)
    requires
        status == (match target {
            Target::Stopped => ServiceStatus::Stopped,
            Target::Running => ServiceStatus::Running,
        }) || status == (match target {
            Target::Stopped => ServiceStatus::StopPending,
            Target::Running => ServiceStatus::StartPending,
        }),
    ensures
        step_for(status, target) != Step::Request,
{
}

/// When both services already report the target state, a pass asks for one
/// query of each and no start or stop, and finishes without failure.
pub proof fn lemma_settled_pass_issues_no_request(target: Target)
    ensures
        ({
            let settled = match target {
                Target::Stopped => ServiceStatus::Stopped,
                Target::Running => ServiceStatus::Running,
            };
            let m0 = pass_start(target);
            let m1 = m0.after_status(Ok(settled));
            let m2 = m1.after_status(Ok(settled));
            &&& m0.command() == ServiceCommand::Query(visit_order(target)[0])
            &&& m1.command() == ServiceCommand::Query(visit_order(target)[1])
            &&& m2.command() == ServiceCommand::Finished
            &&& m2.failures.len() == 0
        }),
{
}

/// A service that reports it is starting, during a pass toward `Running`, gets
/// no second start request: the pass moves on to the next service or finishes.
pub proof fn lemma_start_pending_not_restarted(m: PassModel, n: ServiceName)
    requires
        m.wf(),
        m.target == Target::Running,
        m.command() == ServiceCommand::Query(n),
    ensures
        m.after_status(Ok(ServiceStatus::StartPending)).command() != ServiceCommand::Start(n),
        m.after_status(Ok(ServiceStatus::StartPending)).command() is Query
            || m.after_status(Ok(ServiceStatus::StartPending)).command() is Finished,
        m.after_status(Ok(ServiceStatus::StartPending)).failures == m.failures,
{
}

/// A stop of `UmRdpService` refused because dependents still run neither ends
/// the pass nor counts as a failure: `TermService` is queried next.
pub proof fn lemma_dependents_running_tolerated(m: PassModel, e: OsError)
    requires
        m.wf(),
        m.command() == ServiceCommand::Stop(ServiceName::UmRdpService),
        e.is_dependents_running(),
    ensures
        m.after_request(Err(e)).command() == ServiceCommand::Query(ServiceName::TermService),
        m.after_request(Err(e)).failures == m.failures,
{
}

/// A coordination pass over both services toward one target state. The caller
/// performs each [`ServiceCommand`] and reports its result; the pass goes on to
/// the second service whatever happened to the first, and collects failures.
pub struct Coordinator {
    target: Target,
    done: usize,
    requesting: bool,
    failures: Vec<ServiceFailure>,
}

impl View for Coordinator {
    type V = PassModel;

    closed spec fn view(&self) -> PassModel {
        PassModel {
            target: self.target,
            done: self.done as nat,
            requesting: self.requesting,
            failures: self.failures@,
        }
    }
}

impl Coordinator {
    /// Starts a pass that brings both services to `target`.
    pub fn ensure(target: Target) -> (r: Coordinator)
        ensures
            r@ == pass_start(target),
    {
        Coordinator { target, done: 0, requesting: false, failures: Vec::new() }
    }

    /// The operation the pass asks for next.
    pub fn command(&self) -> (r: ServiceCommand)
        requires
            self@.wf(),
        ensures
            r == self@.command(),
    {
        if self.done >= 2 {
            ServiceCommand::Finished
        } else {
            let n = service_at(self.target, self.done);
            if !self.requesting {
                ServiceCommand::Query(n)
            } else {
                match self.target {
                    Target::Running => ServiceCommand::Start(n),
                    Target::Stopped => ServiceCommand::Stop(n),
                }
            }
        }
    }

    /// Takes the fresh status of the service named by the last `Query`.
    pub fn on_status(&mut self, status: Result<ServiceStatus, OsError>)
        requires
            old(self)@.wf(),
            old(self)@.command() is Query,
        ensures
            final(self)@.wf(),
            final(self)@ == old(self)@.after_status(status),
    {
        match status {
            Err(e) => {
                let service = service_at(self.target, self.done);
                self.failures.push(ServiceFailure { service, error: e });
                self.done = self.done + 1;
            },
            Ok(s) => match plan_step(s, self.target) {
                Step::Request => {
                    self.requesting = true;
                },
                _ => {
                    self.done = self.done + 1;
                },
            },
        }
    }

    /// Takes the result of the request named by the last `Start` or `Stop`.
    pub fn on_request(&mut self, result: Result<(), OsError>)
        requires
            old(self)@.wf(),
            old(self)@.command() matches ServiceCommand::Start(_) || old(self)@.command() matches ServiceCommand::Stop(_),
        ensures
            final(self)@.wf(),
            final(self)@ == old(self)@.after_request(result),
    {
        match result {
            Err(e) => {
                if e.code != ERROR_DEPENDENT_SERVICES_RUNNING {
                    let service = service_at(self.target, self.done);
                    self.failures.push(ServiceFailure { service, error: e });
                }
            },
            Ok(_) => {},
        }
        self.done = self.done + 1;
        self.requesting = false;
    }

    /// The failures collected so far.
    pub fn failures(&self) -> (r: &Vec<ServiceFailure>)
        ensures
            r@ == self@.failures,
    {
        &self.failures
    }

    /// Ends a finished pass: `Ok` when no service reported an error other than
    /// the tolerated one, else every failure in the order it occurred.
    pub fn finish(self) -> (r: Result<(), Vec<ServiceFailure>>)
        requires
            self@.wf(),
            self@.command() == ServiceCommand::Finished,
        ensures
            self@.failures.len() == 0 ==> r is Ok,
            self@.failures.len() > 0 ==> (r matches Err(v) && v@ == self@.failures),
    {
        if self.failures.len() == 0 {
            Ok(())
        } else {
            Err(self.failures)
        }
    }
}

} // verus!
