//! A minimal boot-time init system: runlevel orchestration and service
//! execution.
//!
//! The library holds the verified core: the configuration model, the
//! service executor (a session that walks a command list with
//! early-exit-on-failure semantics), the error-policy resolver, the
//! runlevel orchestrator (which runlevels are visited, which services are
//! started, which login shell is chosen), and the boot log used to stop
//! services in reverse order at shutdown.
//!
//! File reading and writing, process spawning and command-line parsing are
//! the surrounding program's business: it feeds plain values in and carries
//! the decided actions out.

pub mod cmd;
pub mod config;
pub mod consts;
pub mod msg;
pub mod service;

use vstd::prelude::*;
use vstd::string::StringExecFns;

use crate::config::Action;
use crate::config::Config;
use crate::config::LdSrv;
use crate::config::LoadedServices;
use crate::config::Runlevel;
use crate::config::is_default_config;
use crate::service::ExecOutcome;
use crate::service::OnError;

verus! {

/// Exit code recorded for a finished child process: a process that was
/// killed without reporting a code counts as success (code 0).
pub fn exit_code_of(status: Option<i32>) -> (code: i32)
    ensures
        code == match status {
            Some(c) => c,
            None => 0i32,
        },
{
    match status {
        Some(c) => c,
        None => 0,
    }
}

/// Substitute the documented fallback configuration when the master file
/// could not be read or parsed; a successfully loaded record passes
/// through unchanged.
pub fn master_or_default(loaded: Option<Config>) -> (c: Config)
    ensures
        match loaded {
            Some(l) => c == l,
            None => is_default_config(c),
        },
{
    match loaded {
        Some(l) => l,
        None => Config::default(),
    }
}

/// Substitute an empty boot log when the persisted one could not be read
/// or parsed; a successfully loaded record passes through unchanged.
pub fn ld_srv_or_default(loaded: Option<LoadedServices>) -> (s: LoadedServices)
    ensures
        match loaded {
            Some(l) => s == l,
            None => s.service@.len() == 0,
        },
{
    match loaded {
        Some(l) => l,
        None => LoadedServices::default(),
    }
}

/// What the orchestrator does about one failed service.
#[derive(Clone, Copy, Debug, PartialEq, Eq, Structural)]
pub enum Decision {
    /// Print a terse marker on the console and go on.
    ContinueQuiet,

    /// Report the failure message and go on.
    ContinueReport,

    /// Report the failure message, then terminate the whole process with a
    /// non-zero exit: remaining services and runlevels are abandoned and no
    /// login shell is launched.
    Abort,
}

/// The decision each policy resolves to; an absent policy counts as
/// `error` (report and continue), with no further defaulting.
pub open spec fn decision_of(e: Option<OnError>) -> Decision {
    match e {
        Some(OnError::ignore) => Decision::ContinueQuiet,
        Some(OnError::error) => Decision::ContinueReport,
        Some(OnError::abort) => Decision::Abort,
        None => Decision::ContinueReport,
    }
}

/// Resolve a service's declared on-error policy, applied once per failed
/// service (never per failed command within one).
pub fn on_error(err: &Option<OnError>) -> (d: Decision)
    ensures
        d == decision_of(*err),
{
    match err {
        Some(OnError::ignore) => Decision::ContinueQuiet,
        Some(OnError::error) => Decision::ContinueReport,
        Some(OnError::abort) => Decision::Abort,
        None => Decision::ContinueReport,
    }
}

/// The exit code the orchestrator records for a finished service run: the
/// run's own code, or 1 when some command could not be launched.
pub fn service_exit_code(outcome: &ExecOutcome) -> (code: i32)
    ensures
        code == match *outcome {
            ExecOutcome::Code(c) => c,
            ExecOutcome::LaunchError => 1i32,
        },
{
    match outcome {
        ExecOutcome::Code(c) => *c,
        ExecOutcome::LaunchError => 1,
    }
}

/// Append one service start attempt to the boot log.
pub fn log_service(log: &mut LoadedServices, rl: &String, name: &String, code: i32)
    ensures
        final(log).service@ == old(log).service@.push(LdSrv { rl: *rl, name: *name, code }),
{
    log.service.push(LdSrv { rl: rl.clone(), name: name.clone(), code });
}

/// One step of the forward orchestration walk, for the surrounding program
/// to carry out in order.
#[derive(Debug, PartialEq)]
pub enum Task {
    /// A disabled runlevel: log the skip, nothing else.
    Skip { dir: String },

    /// Switching to this runlevel.
    Enter { dir: String },

    /// Start this service of this runlevel: load its definition from
    /// `Service::new(name, rl)`, run its start list, resolve a failure
    /// through `on_error`, and record the attempt with `log_service`.
    Start { rl: String, name: String },

    /// A runlevel that should run services but lists none: report it and
    /// go on.
    NoServices { dir: String },
}

/// Whether the walk processes a runlevel at all (an absent flag means yes).
pub open spec fn rl_enabled(r: Runlevel) -> bool {
    r.enabled != Some(false)
}

/// The action a runlevel resolves to (an absent one runs services).
pub open spec fn rl_action(r: Runlevel) -> Action {
    match r.action {
        Some(a) => a,
        None => Action::run_services,
    }
}

/// The runlevel at which the walk stops: enabled, and named as the final
/// runlevel. A disabled runlevel never stops the walk, even when its name
/// matches.
pub open spec fn is_final_level(r: Runlevel, fr: Seq<char>) -> bool {
    rl_enabled(r) && r.dir@ == fr
}

/// What one visited runlevel contributes to the walk: a disabled one only
/// its skip, an enabled one its switch and, when its action runs services,
/// one start per listed service (or the missing-services report).
pub open spec fn level_tasks(r: Runlevel) -> Seq<Task> {
    if !rl_enabled(r) {
        seq![Task::Skip { dir: r.dir }]
    } else {
        seq![Task::Enter { dir: r.dir }] + match rl_action(r) {
            Action::run_services => match r.services {
                Some(list) => Seq::new(
                    list@.len(),
                    |i: int| Task::Start { rl: r.dir, name: list@[i] },
                ),
                None => seq![Task::NoServices { dir: r.dir }],
            },
            Action::power_off => Seq::<Task>::empty(),
            Action::reboot => Seq::<Task>::empty(),
        }
    }
}

/// The walk from runlevel `i` on: each level contributes its tasks, and
/// the first final level ends the walk after contributing its own.
pub open spec fn plan_from(rls: Seq<Runlevel>, fr: Seq<char>, i: int) -> Seq<Task>
    decreases rls.len() - i,
{
    if i < 0 || i >= rls.len() {
        Seq::<Task>::empty()
    } else if is_final_level(rls[i], fr) {
        level_tasks(rls[i])
    } else {
        level_tasks(rls[i]) + plan_from(rls, fr, i + 1)
    }
}

/// The login shell the first final level declares, if any.
pub open spec fn chosen_shell(rls: Seq<Runlevel>, fr: Seq<char>, i: int) -> Option<Seq<char>>
    decreases rls.len() - i,
{
    if i < 0 || i >= rls.len() {
        None
    } else if is_final_level(rls[i], fr) {
        match rls[i].login_shell {
            Some(sh) => Some(sh@),
            None => None,
        }
    } else {
        chosen_shell(rls, fr, i + 1)
    }
}

/// Every task of one forward walk over this configuration.
pub open spec fn boot_plan_spec(c: Config) -> Seq<Task> {
    plan_from(c.runlevel@, c.final_runlevel@, 0)
}

/// The login shell launched after the walk: the final runlevel's, or
/// `/bin/ash` when no final runlevel declares one.
pub open spec fn boot_shell_spec(c: Config) -> Seq<char> {
    match chosen_shell(c.runlevel@, c.final_runlevel@, 0) {
        Some(sh) => sh,
        None => "/bin/ash"@,
    }
}

/// A whole forward walk, decided up front: the tasks in order, and the
/// login shell to launch once they are done.
#[derive(Debug, PartialEq)]
pub struct BootPlan {
    pub tasks: Vec<Task>,
    pub login_shell: String,
}

/// Decide the forward orchestration walk for a configuration: which
/// runlevels are skipped, entered and final, which services are started in
/// which order, and which login shell follows.
pub fn boot_plan(conf: &Config) -> (p: BootPlan)
    ensures
        p.tasks@ == boot_plan_spec(*conf),
        p.login_shell@ == boot_shell_spec(*conf),
{
    let ghost rls = conf.runlevel@;
    let ghost fr = conf.final_runlevel@;
    let mut tasks: Vec<Task> = Vec::new();
    let mut shell = String::from_str("/bin/ash");
    let n = conf.runlevel.len();
    let mut i: usize = 0;
    let mut finished = false;
    while i < n && !finished
        invariant
            n == rls.len(),
            rls == conf.runlevel@,
            fr == conf.final_runlevel@,
            i <= n,
            !finished ==> {
                &&& tasks@ + plan_from(rls, fr, i as int) == plan_from(rls, fr, 0)
                &&& chosen_shell(rls, fr, i as int) == chosen_shell(rls, fr, 0)
                &&& shell@ == "/bin/ash"@
            },
            finished ==> {
                &&& tasks@ == boot_plan_spec(*conf)
                &&& shell@ == boot_shell_spec(*conf)
            },
        decreases n - i + (if finished { 0int } else { 1int }),
    {
        let rl = &conf.runlevel[i];
        let ghost pre = tasks@;
        let enabled = match rl.enabled {
            Some(b) => b,
            None => true,
        };
        if !enabled {
            tasks.push(Task::Skip { dir: rl.dir.clone() });
            proof {
                assert(tasks@ =~= pre + level_tasks(rls[i as int]));
            }
        } else {
            tasks.push(Task::Enter { dir: rl.dir.clone() });
            let action = match rl.action {
                Some(a) => a,
                None => Action::run_services,
            };
            match action {
                Action::run_services => {
                    match &rl.services {
                        Some(list) => {
                            let m = list.len();
                            let ghost entered = tasks@;
                            let mut j: usize = 0;
                            while j < m
                                invariant
                                    m == list@.len(),
                                    j <= m,
                                    tasks@ == entered + Seq::new(
                                        j as nat,
                                        |k: int| Task::Start {
                                            rl: rls[i as int].dir,
                                            name: list@[k],
                                        },
                                    ),
                                    rls[i as int].dir == rl.dir,
                                    list@ == rls[i as int].services->Some_0@,
                                decreases m - j,
                            {
                                tasks.push(Task::Start { rl: rl.dir.clone(), name: list[j].clone() });
                                proof {
                                    assert(tasks@ =~= entered + Seq::new(
                                        (j + 1) as nat,
                                        |k: int| Task::Start {
                                            rl: rls[i as int].dir,
                                            name: list@[k],
                                        },
                                    ));
                                }
                                j = j + 1;
                            }
                            proof {
                                assert(tasks@ =~= pre + level_tasks(rls[i as int]));
                            }
                        },
                        None => {
                            tasks.push(Task::NoServices { dir: rl.dir.clone() });
                            proof {
                                assert(tasks@ =~= pre + level_tasks(rls[i as int]));
                            }
                        },
                    }
                },
                Action::power_off => {
                    proof {
                        assert(tasks@ =~= pre + level_tasks(rls[i as int]));
                    }
                },
                Action::reboot => {
                    proof {
                        assert(tasks@ =~= pre + level_tasks(rls[i as int]));
                    }
                },
            }
            if rl.dir == conf.final_runlevel {
                if let Some(sh) = &rl.login_shell {
                    shell = sh.clone();
                }
                finished = true;
                proof {
                    assert(is_final_level(rls[i as int], fr));
                    assert(plan_from(rls, fr, i as int) == level_tasks(rls[i as int]));
                }
            }
        }
        if !finished {
            proof {
                assert(!is_final_level(rls[i as int], fr));
                assert(plan_from(rls, fr, i as int) == level_tasks(rls[i as int]) + plan_from(
                    rls,
                    fr,
                    i as int + 1,
                ));
                assert(tasks@ + plan_from(rls, fr, i as int + 1) =~= pre + plan_from(
                    rls,
                    fr,
                    i as int,
                ));
            }
            i = i + 1;
        }
    }
    proof {
        if !finished {
            assert(i == n);
            assert(plan_from(rls, fr, n as int) =~= Seq::<Task>::empty());
            assert(tasks@ =~= tasks@ + Seq::<Task>::empty());
            assert(chosen_shell(rls, fr, n as int) is None);
        }
    }
    BootPlan { tasks, login_shell: shell }
}

/// Tasks of runlevels `i .. end`, each level contributing its own, with no
/// final-level cutoff: the yardstick the walk is measured against.
pub open spec fn prefix_tasks(rls: Seq<Runlevel>, i: int, end: int) -> Seq<Task>
    decreases end - i,
{
    if 0 <= i < end && i < rls.len() {
        level_tasks(rls[i]) + prefix_tasks(rls, i + 1, end)
    } else {
        Seq::<Task>::empty()
    }
}

proof fn lemma_plan_prefix(rls: Seq<Runlevel>, fr: Seq<char>, k: int, i: int)
    requires
        0 <= i <= k < rls.len(),
        is_final_level(rls[k], fr),
        forall|j: int| i <= j < k ==> !is_final_level(#[trigger] rls[j], fr),
    ensures
        plan_from(rls, fr, i) == prefix_tasks(rls, i, k + 1),
        chosen_shell(rls, fr, i) == match rls[k].login_shell {
            Some(sh) => Some(sh@),
            None => None::<Seq<char>>,
        },
    decreases k - i,
{
    if i == k {
        assert(prefix_tasks(rls, k + 1, k + 1) =~= Seq::<Task>::empty());
        assert(level_tasks(rls[k]) + Seq::<Task>::empty() =~= level_tasks(rls[k]));
    } else {
        lemma_plan_prefix(rls, fr, k, i + 1);
    }
}

/// Orchestration terminates at the final runlevel: when runlevel `k` is the
/// first enabled one whose directory names the final runlevel, the walk
/// processes exactly runlevels `0 ..= k` — whatever the enabled flags of the
/// levels it skipped — and no task of any later runlevel is ever issued; the
/// login shell is the one runlevel `k` declares, if it declares one.
pub proof fn orchestration_stops_at_final(rls: Seq<Runlevel>, fr: Seq<char>, k: int)
    requires
        0 <= k < rls.len(),
        is_final_level(rls[k], fr),
        forall|j: int| 0 <= j < k ==> !is_final_level(#[trigger] rls[j], fr),
    ensures
        plan_from(rls, fr, 0) == prefix_tasks(rls, 0, k + 1),
        chosen_shell(rls, fr, 0) == match rls[k].login_shell {
            Some(sh) => Some(sh@),
            None => None::<Seq<char>>,
        },
{
    lemma_plan_prefix(rls, fr, k, 0);
}

/// The boot log entries the reverse shutdown pass stops, walking from the
/// last entry down to index 1 (index 0 is never unwound) and keeping those
/// whose recorded start exit code was 0.
pub open spec fn stop_list(entries: Seq<LdSrv>, i: int) -> Seq<LdSrv>
    decreases i,
{
    if i <= 0 || i >= entries.len() {
        Seq::<LdSrv>::empty()
    } else {
        let rest = stop_list(entries, i - 1);
        if entries[i].code == 0 {
            seq![entries[i]] + rest
        } else {
            rest
        }
    }
}

/// The whole reverse shutdown walk over a boot log.
pub open spec fn stop_plan_spec(entries: Seq<LdSrv>) -> Seq<LdSrv> {
    stop_list(entries, entries.len() - 1)
}

/// Decide the reverse shutdown pass: the boot log entries to stop, in
/// reverse start order, restricted to services whose start succeeded.
pub fn stop_plan(log: &LoadedServices) -> (r: Vec<LdSrv>)
    ensures
        r@ == stop_plan_spec(log.service@),
{
    let ghost entries = log.service@;
    let mut r: Vec<LdSrv> = Vec::new();
    let n = log.service.len();
    if n == 0 {
        proof {
            assert(r@ =~= stop_plan_spec(entries));
        }
        return r;
    }
    let mut i: usize = n - 1;
    while i > 0
        invariant
            entries == log.service@,
            n == entries.len(),
            1 <= n,
            i <= n - 1,
            r@ + stop_list(entries, i as int) == stop_list(entries, n - 1),
        decreases i,
    {
        let e = &log.service[i];
        if e.code == 0 {
            let ghost prev = r@;
            r.push(LdSrv { rl: e.rl.clone(), name: e.name.clone(), code: e.code });
            proof {
                assert(r@ =~= prev + seq![entries[i as int]]);
                assert(r@ + stop_list(entries, i as int - 1) =~= prev + stop_list(
                    entries,
                    i as int,
                ));
            }
        }
        i = i - 1;
    }
    proof {
        assert(stop_list(entries, 0) =~= Seq::<LdSrv>::empty());
        assert(r@ =~= r@ + Seq::<LdSrv>::empty());
    }
    r
}

proof fn lemma_stop_list_codes(entries: Seq<LdSrv>, i: int)
    requires
        i < entries.len(),
    ensures
        forall|k: int| 0 <= k < stop_list(entries, i).len() ==> (#[trigger] stop_list(
            entries,
            i,
        )[k]).code == 0,
        forall|j: int| 1 <= j <= i && entries[j].code == 0 ==> stop_list(entries, i).contains(
            entries[j],
        ),
    decreases i,
{
    if i <= 0 {
    } else {
        lemma_stop_list_codes(entries, i - 1);
        let rest = stop_list(entries, i - 1);
        if entries[i].code == 0 {
            let cur = seq![entries[i]] + rest;
            assert(stop_list(entries, i) == cur);
            assert(cur[0] == entries[i]);
            assert forall|j: int| 1 <= j <= i && entries[j].code == 0 implies stop_list(
                entries,
                i,
            ).contains(entries[j]) by {
                if j == i {
                    assert(cur[0] == entries[j]);
                } else {
                    let w = choose|w: int| 0 <= w < rest.len() && rest[w] == entries[j];
                    assert(cur[w + 1] == entries[j]);
                }
            }
        }
    }
}

/// The reverse shutdown pass stops only entries whose recorded start exit
/// code was 0: every such entry past index 0 is in the pass, every entry
/// recorded with a non-zero code is left untouched.
pub proof fn stop_plan_only_successful(entries: Seq<LdSrv>)
    ensures
        forall|k: int| 0 <= k < stop_plan_spec(entries).len() ==> (#[trigger] stop_plan_spec(
            entries,
        )[k]).code == 0,
        forall|j: int| 1 <= j < entries.len() && entries[j].code == 0 ==> stop_plan_spec(
            entries,
        ).contains(entries[j]),
        forall|j: int|
            0 <= j < entries.len() && entries[j].code != 0 ==> !stop_plan_spec(entries).contains(
                entries[j],
            ),
{
    lemma_stop_list_codes(entries, entries.len() - 1);
    assert forall|j: int|
        0 <= j < entries.len() && entries[j].code != 0 implies !stop_plan_spec(entries).contains(
        entries[j],
    ) by {
        if stop_plan_spec(entries).contains(entries[j]) {
            let w = choose|w: int|
                0 <= w < stop_plan_spec(entries).len() && stop_plan_spec(entries)[w] == entries[j];
            assert(stop_plan_spec(entries)[w].code == 0);
        }
    }
}

} // verus!
