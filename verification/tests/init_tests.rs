use lfa_init::config::Action;
use lfa_init::config::Config;
use lfa_init::config::LdSrv;
use lfa_init::config::LoadedServices;
use lfa_init::config::Runlevel;
use lfa_init::exit_code_of;
use lfa_init::ld_srv_or_default;
use lfa_init::log_service;
use lfa_init::master_or_default;
use lfa_init::on_error;
use lfa_init::service::CmdOutcome;
use lfa_init::service::ExecOutcome;
use lfa_init::service::ExecType;
use lfa_init::service::InitSection;
use lfa_init::service::OnError;
use lfa_init::service::Service;
use lfa_init::service::ServiceSection;
use lfa_init::service_exit_code;
use lfa_init::stop_plan;
use lfa_init::boot_plan;
use lfa_init::Decision;
use lfa_init::Task;

fn svc(start: Option<Vec<&str>>, on_err: Option<OnError>) -> Service {
    Service {
        service: ServiceSection {
            start: start.map(|v| v.into_iter().map(|s| s.to_string()).collect()),
            stop: None,
            restart: None,
            can_restart: None,
        },
        init: InitSection {
            description: String::new(),
            on_error: on_err,
        },
    }
}

fn runlevel(
    dir: &str,
    enabled: Option<bool>,
    services: Option<Vec<&str>>,
    login_shell: Option<&str>,
) -> Runlevel {
    Runlevel {
        dir: dir.to_string(),
        enabled,
        description: String::new(),
        action: Some(Action::run_services),
        services: services.map(|v| v.into_iter().map(|s| s.to_string()).collect()),
        login_shell: login_shell.map(|s| s.to_string()),
    }
}

// An unreadable or malformed master file yields the documented default
// record, never a panic or a raw parse error.
#[test]
fn unreadable_master_config_yields_default() {
    let c = master_or_default(None);
    assert_eq!(c.final_runlevel, "rl1");
    assert_eq!(c.runlevel.len(), 1);
    let rl = &c.runlevel[0];
    assert_eq!(rl.dir, "rl1");
    assert_eq!(rl.enabled, Some(true));
    assert_eq!(rl.description, "Single user mode");
    assert_eq!(rl.action, Some(Action::run_services));
    assert_eq!(
        rl.services.as_deref(),
        Some(
            &[
                "mount_procfs".to_string(),
                "mount_sysfs".to_string(),
                "mount_tmpfs".to_string(),
                "mount_devpts".to_string(),
                "mount_devshm".to_string(),
            ][..]
        )
    );
    assert_eq!(rl.login_shell.as_deref(), Some("/bin/login"));
}

#[test]
fn loaded_master_config_passes_through() {
    let c = master_or_default(Some(Config {
        final_runlevel: "rl3".to_string(),
        runlevel: vec![runlevel("rl3", None, None, None)],
    }));
    assert_eq!(c.final_runlevel, "rl3");
    assert_eq!(c.runlevel[0].dir, "rl3");
}

#[test]
fn unreadable_boot_log_yields_empty() {
    let l = ld_srv_or_default(None);
    assert!(l.service.is_empty());
}

// A service with no start list succeeds at once and asks for no process.
#[test]
fn absent_start_list_is_success() {
    let s = svc(None, None);
    let sess = s.exec(ExecType::Start);
    assert_eq!(sess.outcome, Some(ExecOutcome::Code(0)));
    assert_eq!(sess.next_cmd(), None);
    assert_eq!(service_exit_code(&ExecOutcome::Code(0)), 0);
}

// The i-th command exiting non-zero ends the run with that code; commands
// past it are never handed out.
#[test]
fn nonzero_command_stops_the_list() {
    let s = svc(Some(vec!["/bin/a", "/bin/b", "/bin/c"]), None);
    let mut sess = s.exec(ExecType::Start);
    assert_eq!(sess.next_cmd().as_deref(), Some("/bin/a"));
    sess.report(CmdOutcome::Exited(0));
    assert_eq!(sess.next_cmd().as_deref(), Some("/bin/b"));
    sess.report(CmdOutcome::Exited(7));
    assert_eq!(sess.outcome, Some(ExecOutcome::Code(7)));
    assert_eq!(sess.next_cmd(), None);
}

#[test]
fn all_commands_succeeding_is_code_zero() {
    let s = svc(Some(vec!["/bin/a", "/bin/b"]), None);
    let mut sess = s.exec(ExecType::Start);
    sess.report(CmdOutcome::Exited(0));
    sess.report(CmdOutcome::Exited(0));
    assert_eq!(sess.outcome, Some(ExecOutcome::Code(0)));
}

#[test]
fn launch_failure_is_a_distinct_error() {
    let s = svc(Some(vec!["/bin/missing", "/bin/b"]), None);
    let mut sess = s.exec(ExecType::Start);
    sess.report(CmdOutcome::LaunchFailed);
    assert_eq!(sess.outcome, Some(ExecOutcome::LaunchError));
    assert_eq!(sess.next_cmd(), None);
    assert_eq!(service_exit_code(&ExecOutcome::LaunchError), 1);
}

#[test]
fn exit_code_coercion() {
    assert_eq!(exit_code_of(Some(3)), 3);
    // killed by a signal, no observable code: counts as success
    assert_eq!(exit_code_of(None), 0);
}

#[test]
fn parse_cmd_splits_on_first_space() {
    let s = svc(None, None);
    let c = s.parse_cmd("/bin/mount aa /bb");
    assert_eq!(c.prog, "/bin/mount");
    assert_eq!(c.args.as_deref(), Some("aa /bb"));
}

#[test]
fn parse_cmd_without_argument() {
    let s = svc(None, None);
    let c = s.parse_cmd("/bin/true");
    assert_eq!(c.prog, "/bin/true");
    assert_eq!(c.args, None);
}

#[test]
fn service_definition_path() {
    let p = Service::new("mount_procfs", "rl1");
    assert_eq!(p, "/etc/init/rl1/mount_procfs.toml");
}

#[test]
fn on_error_policies() {
    assert_eq!(on_error(&Some(OnError::ignore)), Decision::ContinueQuiet);
    assert_eq!(on_error(&Some(OnError::error)), Decision::ContinueReport);
    assert_eq!(on_error(&Some(OnError::abort)), Decision::Abort);
    // an absent policy reports and continues
    assert_eq!(on_error(&None), Decision::ContinueReport);
}

// The walk ends at the first enabled runlevel matching final_runlevel:
// later runlevels contribute no task, disabled earlier ones only a skip.
#[test]
fn walk_stops_at_final_runlevel() {
    let conf = Config {
        final_runlevel: "rl2".to_string(),
        runlevel: vec![
            runlevel("rl1", Some(false), Some(vec!["a"]), None),
            runlevel("rl2", None, Some(vec!["b"]), Some("/bin/sh")),
            runlevel("rl3", None, Some(vec!["c"]), None),
        ],
    };
    let plan = boot_plan(&conf);
    assert_eq!(
        plan.tasks,
        vec![
            Task::Skip { dir: "rl1".to_string() },
            Task::Enter { dir: "rl2".to_string() },
            Task::Start { rl: "rl2".to_string(), name: "b".to_string() },
        ]
    );
    assert_eq!(plan.login_shell, "/bin/sh");
}

#[test]
fn disabled_final_runlevel_does_not_stop_the_walk() {
    let conf = Config {
        final_runlevel: "rl1".to_string(),
        runlevel: vec![
            runlevel("rl1", Some(false), None, Some("/bin/sh")),
            runlevel("rl2", None, None, None),
        ],
    };
    let plan = boot_plan(&conf);
    assert_eq!(
        plan.tasks,
        vec![
            Task::Skip { dir: "rl1".to_string() },
            Task::Enter { dir: "rl2".to_string() },
            Task::NoServices { dir: "rl2".to_string() },
        ]
    );
    // no enabled final runlevel: the default shell stands
    assert_eq!(plan.login_shell, "/bin/ash");
}

#[test]
fn runlevel_without_services_reports_and_goes_on() {
    let conf = Config {
        final_runlevel: "rl2".to_string(),
        runlevel: vec![
            runlevel("rl1", None, None, None),
            runlevel("rl2", None, None, None),
        ],
    };
    let plan = boot_plan(&conf);
    assert_eq!(
        plan.tasks,
        vec![
            Task::Enter { dir: "rl1".to_string() },
            Task::NoServices { dir: "rl1".to_string() },
            Task::Enter { dir: "rl2".to_string() },
            Task::NoServices { dir: "rl2".to_string() },
        ]
    );
}

#[test]
fn power_action_runlevel_starts_no_service() {
    let mut rl = runlevel("rl0", None, Some(vec!["a"]), None);
    rl.action = Some(Action::power_off);
    let conf = Config {
        final_runlevel: "rl0".to_string(),
        runlevel: vec![rl],
    };
    let plan = boot_plan(&conf);
    assert_eq!(plan.tasks, vec![Task::Enter { dir: "rl0".to_string() }]);
}

// One full forward walk: service "a" succeeds, service "b" fails with the
// report policy; the boot log records both, and the walk still reaches the
// login shell.
#[test]
fn forward_walk_records_outcomes_and_reaches_shell() {
    let conf = Config {
        final_runlevel: "rl1".to_string(),
        runlevel: vec![runlevel("rl1", None, Some(vec!["a", "b"]), Some("/bin/login"))],
    };
    let plan = boot_plan(&conf);
    let mut log = LoadedServices { service: vec![] };
    let mut aborted = false;
    for task in &plan.tasks {
        if let Task::Start { rl, name } = task {
            // what the spawned processes would report: "a" is /bin/true,
            // "b" is /bin/false
            let (service, result) = if name == "a" {
                (svc(Some(vec!["/bin/true"]), Some(OnError::error)), CmdOutcome::Exited(0))
            } else {
                (svc(Some(vec!["/bin/false"]), Some(OnError::error)), CmdOutcome::Exited(1))
            };
            let mut sess = service.exec(ExecType::Start);
            while sess.outcome.is_none() {
                let _cmd = sess.next_cmd().unwrap();
                sess.report(result);
            }
            let code = service_exit_code(&sess.outcome.unwrap());
            if code != 0 {
                match on_error(&service.init.on_error) {
                    Decision::Abort => aborted = true,
                    Decision::ContinueQuiet | Decision::ContinueReport => {}
                }
            }
            log_service(&mut log, rl, name, code);
            if aborted {
                break;
            }
        }
    }
    assert_eq!(
        log.service,
        vec![
            LdSrv { rl: "rl1".to_string(), name: "a".to_string(), code: 0 },
            LdSrv { rl: "rl1".to_string(), name: "b".to_string(), code: 1 },
        ]
    );
    // the failure was only reported: the login shell is still launched
    assert!(!aborted);
    assert_eq!(plan.login_shell, "/bin/login");
}

// An aborting service terminates the whole walk: no later runlevel is
// visited and no login shell is launched.
#[test]
fn abort_policy_ends_the_walk_at_once() {
    let conf = Config {
        final_runlevel: "rl2".to_string(),
        runlevel: vec![
            runlevel("rl1", None, Some(vec!["bad"]), None),
            runlevel("rl2", None, Some(vec!["later"]), Some("/bin/sh")),
        ],
    };
    let plan = boot_plan(&conf);
    let mut visited_dirs: Vec<String> = Vec::new();
    let mut started: Vec<String> = Vec::new();
    let mut shell_launched = false;
    let mut process_alive = true;
    for task in &plan.tasks {
        if !process_alive {
            break;
        }
        match task {
            Task::Enter { dir } => visited_dirs.push(dir.clone()),
            Task::Start { name, .. } => {
                started.push(name.clone());
                let service = svc(Some(vec!["/bin/false"]), Some(OnError::abort));
                let mut sess = service.exec(ExecType::Start);
                sess.report(CmdOutcome::Exited(1));
                let code = service_exit_code(&sess.outcome.unwrap());
                if code != 0 && on_error(&service.init.on_error) == Decision::Abort {
                    // the real driver exits the process here
                    process_alive = false;
                }
            }
            Task::Skip { .. } | Task::NoServices { .. } => {}
        }
    }
    if process_alive {
        shell_launched = true;
    }
    assert_eq!(started, vec!["bad".to_string()]);
    assert_eq!(visited_dirs, vec!["rl1".to_string()]);
    assert!(!shell_launched);
}

// The reverse pass stops only entries started successfully, in reverse
// order, and never touches index 0.
#[test]
fn stop_plan_filters_and_reverses() {
    let entry = |rl: &str, name: &str, code: i32| LdSrv {
        rl: rl.to_string(),
        name: name.to_string(),
        code,
    };
    let log = LoadedServices {
        service: vec![
            entry("rl1", "first", 0),
            entry("rl1", "failed", 1),
            entry("rl1", "ok_a", 0),
            entry("rl2", "ok_b", 0),
        ],
    };
    let plan = stop_plan(&log);
    assert_eq!(
        plan,
        vec![entry("rl2", "ok_b", 0), entry("rl1", "ok_a", 0)]
    );
}

#[test]
fn stop_plan_of_empty_log_is_empty() {
    let log = LoadedServices { service: vec![] };
    assert!(stop_plan(&log).is_empty());
}

#[test]
fn run_services_action_only_warns() {
    assert_eq!(Action::run_services.take(), Ok(()));
}

#[test]
fn exec_selects_the_matching_list() {
    let mut s = svc(Some(vec!["/bin/start"]), None);
    s.service.stop = Some(vec!["/bin/stop".to_string()]);
    s.service.restart = Some(vec!["/bin/restart".to_string()]);
    assert_eq!(s.exec(ExecType::Start).next_cmd().as_deref(), Some("/bin/start"));
    assert_eq!(s.exec(ExecType::Stop).next_cmd().as_deref(), Some("/bin/stop"));
    assert_eq!(s.exec(ExecType::Restart).next_cmd().as_deref(), Some("/bin/restart"));
}

#[test]
fn default_service_runs_nothing_and_reports() {
    let s = Service::default();
    assert_eq!(s.service.start, None);
    assert_eq!(s.service.stop, None);
    assert_eq!(s.service.restart, None);
    assert_eq!(s.service.can_restart, Some(false));
    assert_eq!(s.init.on_error, Some(OnError::error));
    assert_eq!(OnError::default(), OnError::error);
}
