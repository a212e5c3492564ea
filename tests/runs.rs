use rdp_update::service::{Coordinator, ServiceCommand, ServiceName, ServiceStatus, Target};
use rdp_update::update::{Outcome, RunCommand, RunError, RunEvent, UpdateRun};

/// The outside world of a run, held in memory.
struct World {
    remote: Result<String, String>,
    local: String,
    write_fails: bool,
    um: ServiceStatus,
    term: ServiceStatus,
    fetches: usize,
    service_calls: usize,
    passes: Vec<Target>,
    writes: usize,
}

impl World {
    fn new(remote: Result<&str, &str>, local: &str, um: ServiceStatus, term: ServiceStatus) -> World {
        World {
            remote: remote.map(|s| s.to_string()).map_err(|e| e.to_string()),
            local: local.to_string(),
            write_fails: false,
            um,
            term,
            fetches: 0,
            service_calls: 0,
            passes: Vec::new(),
            writes: 0,
        }
    }

    fn status(&mut self, n: ServiceName) -> &mut ServiceStatus {
        match n {
            ServiceName::UmRdpService => &mut self.um,
            ServiceName::TermService => &mut self.term,
        }
    }

    fn ensure(&mut self, target: Target) -> RunEvent {
        self.passes.push(target);
        let mut c = Coordinator::ensure(target);
        loop {
            self.service_calls += 1;
            match c.command() {
                ServiceCommand::Query(n) => {
                    let s = *self.status(n);
                    c.on_status(Ok(s));
                }
                ServiceCommand::Start(n) => {
                    *self.status(n) = ServiceStatus::Running;
                    c.on_request(Ok(()));
                }
                ServiceCommand::Stop(n) => {
                    *self.status(n) = ServiceStatus::Stopped;
                    c.on_request(Ok(()));
                }
                ServiceCommand::Finished => {
                    self.service_calls -= 1;
                    return RunEvent::ServicesEnsured(c.finish());
                }
            }
        }
    }

    fn drive(&mut self, mut run: UpdateRun) -> (Outcome, UpdateRun) {
        loop {
            let event = match run.command() {
                RunCommand::Fetch => {
                    self.fetches += 1;
                    RunEvent::Fetched(self.remote.clone())
                }
                RunCommand::ReadLocal => RunEvent::LocalRead(Ok(self.local.clone())),
                RunCommand::Ensure(t) => self.ensure(t),
                RunCommand::Write => {
                    self.writes += 1;
                    if self.write_fails {
                        RunEvent::Written(Err("access denied".to_string()))
                    } else {
                        self.local = run.remote_text().clone();
                        RunEvent::Written(Ok(()))
                    }
                }
                RunCommand::Finish(o) => return (o, run),
            };
            run.step(event);
        }
    }
}

const NEWER: &str = "[Main]\nUpdated=2024-06-01\n\n[SLPolicy]\nDefault=1\n";
const OLDER: &str = "[Main]\nUpdated=2024-05-01\n\n[SLPolicy]\nDefault=0\n";

#[test]
fn newer_remote_replaces_file_and_restarts() {
    let mut w = World::new(Ok(NEWER), OLDER, ServiceStatus::Running, ServiceStatus::Running);
    let (o, run) = w.drive(UpdateRun::start());
    assert_eq!(o, Outcome::Success);
    assert_eq!(w.local, NEWER);
    assert_eq!(w.passes, vec![Target::Stopped, Target::Running]);
    assert_eq!((w.um, w.term), (ServiceStatus::Running, ServiceStatus::Running));
    assert_eq!(run.error(), &None);
}

#[test]
fn older_remote_leaves_file_and_checks_services() {
    let mut w = World::new(Ok(OLDER), NEWER, ServiceStatus::Stopped, ServiceStatus::Running);
    let (o, _) = w.drive(UpdateRun::start());
    assert_eq!(o, Outcome::NoUpdateNeeded);
    assert_eq!(w.local, NEWER);
    assert_eq!(w.writes, 0);
    assert_eq!(w.passes, vec![Target::Running]);
    assert_eq!((w.um, w.term), (ServiceStatus::Running, ServiceStatus::Running));
}

#[test]
fn fetch_failure_touches_no_service() {
    let mut w = World::new(Err("timed out"), OLDER, ServiceStatus::Running, ServiceStatus::Running);
    let (o, run) = w.drive(UpdateRun::start());
    assert_eq!(o, Outcome::Failure);
    assert_eq!(w.fetches, 1);
    assert_eq!(w.service_calls, 0);
    assert!(w.passes.is_empty());
    assert_eq!(run.error(), &Some(RunError::Fetch("timed out".to_string())));
}

#[test]
fn local_without_date_is_replaced() {
    let mut w = World::new(Ok(NEWER), "[SLPolicy]\nDefault=0\n", ServiceStatus::Running, ServiceStatus::Running);
    let (o, _) = w.drive(UpdateRun::start());
    assert_eq!(o, Outcome::Success);
    assert_eq!(w.local, NEWER);
}

#[test]
fn remote_without_date_fails_before_services() {
    let mut w = World::new(Ok("[SLPolicy]\nDefault=1\n"), OLDER, ServiceStatus::Running, ServiceStatus::Running);
    let (o, run) = w.drive(UpdateRun::start());
    assert_eq!(o, Outcome::Failure);
    assert_eq!(w.service_calls, 0);
    assert!(matches!(run.error(), Some(RunError::Date(_))));
}

#[test]
fn unparsable_remote_fails_before_services() {
    let mut w = World::new(Ok("[Main\nUpdated=2024-06-01\n"), OLDER, ServiceStatus::Running, ServiceStatus::Running);
    let (o, run) = w.drive(UpdateRun::start());
    assert_eq!(o, Outcome::Failure);
    assert_eq!(w.service_calls, 0);
    assert!(matches!(run.error(), Some(RunError::Parse(_))));
}

#[test]
fn failed_write_still_restarts_services() {
    let mut w = World::new(Ok(NEWER), OLDER, ServiceStatus::Running, ServiceStatus::Running);
    w.write_fails = true;
    let (o, run) = w.drive(UpdateRun::start());
    assert_eq!(o, Outcome::Failure);
    assert_eq!(w.local, OLDER);
    assert_eq!(w.passes, vec![Target::Stopped, Target::Running]);
    assert_eq!((w.um, w.term), (ServiceStatus::Running, ServiceStatus::Running));
    assert_eq!(run.error(), &Some(RunError::Write("access denied".to_string())));
}

#[test]
fn reboot_stops_then_starts() {
    let mut w = World::new(Err("unused"), OLDER, ServiceStatus::Running, ServiceStatus::Running);
    let (o, _) = w.drive(UpdateRun::reboot());
    assert_eq!(o, Outcome::Success);
    assert_eq!(w.fetches, 0);
    assert_eq!(w.passes, vec![Target::Stopped, Target::Running]);
    assert_eq!((w.um, w.term), (ServiceStatus::Running, ServiceStatus::Running));
}

#[test]
fn unexpected_event_changes_nothing() {
    let mut run = UpdateRun::start();
    run.step(RunEvent::Written(Ok(())));
    assert_eq!(run.command(), RunCommand::Fetch);
}
