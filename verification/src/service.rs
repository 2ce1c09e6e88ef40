//! Services: the minimal unit of the init system, a set of command lists
//! (start / stop / restart) with a failure policy.
//!
//! Running a command list is modelled as a session: the caller asks for the
//! next command, spawns it, and reports how it went; the session walks the
//! list in order and stops at the first failure. The spawning itself is the
//! caller's business.

use vstd::prelude::*;
use vstd::std_specs::vec::spec_vec_len;
use vstd::string::StrSliceExecFns;
use vstd::string::StringExecFns;

verus! {

/// A service definition: its command lists and its init-time policy.
#[derive(Debug, PartialEq)]
pub struct Service {
    pub service: ServiceSection,
    pub init: InitSection,
}

/// The command lists of a service; an absent list makes the matching
/// operation a no-op that succeeds.
#[derive(Debug, PartialEq)]
pub struct ServiceSection {
    pub start: Option<Vec<String>>,
    pub stop: Option<Vec<String>>,
    pub restart: Option<Vec<String>>,

    /// Declared capability flag, read by the restart front-end command.
    pub can_restart: Option<bool>,
}

/// What the init system needs to know beyond the commands themselves.
#[derive(Debug, PartialEq)]
pub struct InitSection {
    /// Short description, descriptive only.
    pub description: String,

    /// What to do when this service fails (absent means `error`).
    pub on_error: Option<OnError>,
}

/// Per-service policy applied once per failed service.
#[allow(non_camel_case_types)]
#[derive(Clone, Copy, Debug, PartialEq, Eq, Structural)]
pub enum OnError {
    /// Print a terse marker and go on.
    ignore,

    /// Report the failure and go on.
    error,

    /// Report the failure and terminate the whole process.
    abort,
}

/// One command of a command list, split into the program and its single
/// argument blob (everything after the first space, undivided).
#[derive(Debug, PartialEq)]
pub struct Cmd {
    pub prog: String,
    pub args: Option<String>,
}

/// The operation a service is asked to perform.
#[derive(Clone, Copy, Debug, PartialEq, Eq, Structural)]
pub enum ExecType {
    Start,
    Restart,
    Stop,
}

/// How one spawned command went, as the caller observed it. A process that
/// was killed without reporting an exit code counts as `Exited(0)`.
#[derive(Clone, Copy, Debug, PartialEq, Eq, Structural)]
pub enum CmdOutcome {
    /// The process ran and exited with this code.
    Exited(i32),

    /// The process could not be started at all.
    LaunchFailed,
}

/// How a whole command-list run ended.
#[derive(Clone, Copy, Debug, PartialEq, Eq, Structural)]
pub enum ExecOutcome {
    /// The exit code of the run: 0 when every command succeeded, otherwise
    /// the code of the first failing command.
    Code(i32),

    /// Some command could not be started; the run stopped there.
    LaunchError,
}

/// A run of one command list: the commands, the position reached, and the
/// outcome once the run is decided.
#[derive(Debug, PartialEq)]
pub struct ExecSession {
    /// The command list being run.
    pub cmds: Vec<String>,

    /// Index of the command to run next.
    pub idx: usize,

    /// Set as soon as the run's result is known; no further command is run
    /// from then on.
    pub outcome: Option<ExecOutcome>,
}

/// A session either is decided or still points at a command of its list.
pub open spec fn session_wf(s: ExecSession) -> bool {
    &&& s.idx <= s.cmds@.len()
    &&& (s.outcome is None ==> s.idx < s.cmds@.len())
}

/// The command a session asks to be run now, if any.
pub open spec fn session_next(s: ExecSession) -> Option<Seq<char>> {
    if s.outcome is None {
        Some(s.cmds@[s.idx as int]@)
    } else {
        None
    }
}

/// A session as `exec` hands it out: at the start of the selected command
/// list (an absent list counts as empty), already decided as success when
/// there is nothing to run.
pub open spec fn fresh_session(srv: Service, t: ExecType, s: ExecSession) -> bool {
    &&& s.cmds@ == match srv.command_list(t) {
        Some(v) => v@,
        None => Seq::<String>::empty(),
    }
    &&& s.idx == 0
    &&& s.outcome == if s.cmds@.len() == 0 {
        Some(ExecOutcome::Code(0))
    } else {
        None::<ExecOutcome>
    }
}

/// How one reported command outcome moves a session on: a launch failure
/// or a non-zero exit decides the run at once; a zero exit advances to the
/// next command, deciding success after the last one.
pub open spec fn stepped(pre: ExecSession, oc: CmdOutcome) -> ExecSession {
    match oc {
        CmdOutcome::LaunchFailed => ExecSession {
            cmds: pre.cmds,
            idx: pre.idx,
            outcome: Some(ExecOutcome::LaunchError),
        },
        CmdOutcome::Exited(c) => if c == 0 {
            ExecSession {
                cmds: pre.cmds,
                idx: (pre.idx + 1) as usize,
                outcome: if pre.idx + 1 == pre.cmds@.len() {
                    Some(ExecOutcome::Code(0))
                } else {
                    None::<ExecOutcome>
                },
            }
        } else {
            ExecSession { cmds: pre.cmds, idx: pre.idx, outcome: Some(ExecOutcome::Code(c)) }
        },
    }
}

/// The session reached from `pre` after reporting these outcomes in order.
pub open spec fn ran(pre: ExecSession, ocs: Seq<CmdOutcome>) -> ExecSession
    decreases ocs.len(),
{
    if ocs.len() == 0 {
        pre
    } else {
        ran(stepped(pre, ocs[0]), ocs.drop_first())
    }
}

/// There is a space at `i`, and none before it.
pub open spec fn space_at(s: Seq<char>, i: int) -> bool {
    &&& 0 <= i < s.len()
    &&& s[i] == ' '
    &&& forall|j: int| 0 <= j < i ==> s[j] != ' '
}

/// `r` is `s` split at its first space: the program, and everything after
/// that space as one undivided argument blob; no space means no argument.
pub open spec fn parsed_cmd(s: Seq<char>, r: Cmd) -> bool {
    match r.args {
        None => r.prog@ == s && (forall|j: int| 0 <= j < s.len() ==> s[j] != ' '),
        Some(a) => exists|i: int|
            #[trigger] space_at(s, i) && r.prog@ == s.subrange(0, i) && a@ == s.subrange(
                i + 1,
                s.len() as int,
            ),
    }
}

impl Service {
    /// Where the definition of service `srv_name` of runlevel `rl` lives:
    /// `{CONF_DIR}{rl}/{srv_name}.toml`. The surrounding program reads that
    /// file and hands the parsed record back to the library.
    pub fn new(srv_name: &str, rl: &str) -> (path: String)
        ensures
            path@ == crate::consts::CONF_DIR@ + rl@ + "/"@ + srv_name@ + ".toml"@,
    {
        let mut path = String::from_str(crate::consts::CONF_DIR);
        path.append(rl);
        path.append("/");
        path.append(srv_name);
        path.append(".toml");
        path
    }

    /// The command list that operation `t` runs.
    pub open spec fn command_list(self, t: ExecType) -> Option<Vec<String>> {
        match t {
            ExecType::Start => self.service.start,
            ExecType::Restart => self.service.restart,
            ExecType::Stop => self.service.stop,
        }
    }

    /// Split a command string into the program and its single argument
    /// blob: everything after the first space is passed as one undivided
    /// token.
    pub fn parse_cmd(&self, cmd: &str) -> (r: Cmd)
        ensures
            parsed_cmd(cmd@, r),
    {
        let n = cmd.unicode_len();
        let mut i: usize = 0;
        while i < n
            invariant
                n == cmd@.len(),
                i <= n,
                forall|j: int| 0 <= j < i ==> cmd@[j] != ' ',
            decreases n - i,
        {
            if cmd.get_char(i) == ' ' {
                let prog = cmd.substring_char(0, i).to_owned();
                let args = cmd.substring_char(i + 1, n).to_owned();
                proof {
                    assert(space_at(cmd@, i as int));
                }
                return Cmd { prog, args: Some(args) };
            }
            i = i + 1;
        }
        Cmd { prog: cmd.to_owned(), args: None }
    }

    /// Begin a run of the command list that `exec_type` selects. The caller
    /// then repeatedly runs `next_cmd` and feeds `report` until the session
    /// is decided; an absent list is decided as success at once.
    pub fn exec(&self, exec_type: ExecType) -> (s: ExecSession)
        ensures
            fresh_session(*self, exec_type, s),
            session_wf(s),
    {
        let list: Option<&Vec<String>> = match exec_type {
            ExecType::Start => self.service.start.as_ref(),
            ExecType::Restart => self.service.restart.as_ref(),
            ExecType::Stop => self.service.stop.as_ref(),
        };
        let mut cmds: Vec<String> = Vec::new();
        match list {
            Some(v) => {
                let mut i: usize = 0;
                while i < v.len()
                    invariant
                        i <= v@.len(),
                        cmds@ == v@.subrange(0, i as int),
                    decreases v@.len() - i,
                {
                    cmds.push(v[i].clone());
                    proof {
                        assert(cmds@ =~= v@.subrange(0, i + 1));
                    }
                    i = i + 1;
                }
                proof {
                    assert(cmds@ =~= v@);
                }
            },
            None => {
                proof {
                    assert(cmds@ =~= Seq::<String>::empty());
                }
            },
        }
        let outcome = if cmds.len() == 0 {
            Some(ExecOutcome::Code(0))
        } else {
            None
        };
        ExecSession { cmds, idx: 0, outcome }
    }
}

impl ExecSession {
    /// The command to run now, or `None` once the run is decided.
    pub fn next_cmd(&self) -> (r: Option<String>)
        requires
            session_wf(*self),
        ensures
            match r {
                Some(c) => session_next(*self) == Some(c@),
                None => session_next(*self) is None,
            },
    {
        match self.outcome {
            Some(_) => None,
            None => Some(self.cmds[self.idx].clone()),
        }
    }

    /// Feed back how the command handed out by `next_cmd` went.
    pub fn report(&mut self, oc: CmdOutcome)
        requires
            session_wf(*old(self)),
            old(self).outcome is None,
        ensures
            session_wf(*final(self)),
            *final(self) == stepped(*old(self), oc),
    {
        match oc {
            CmdOutcome::LaunchFailed => {
                self.outcome = Some(ExecOutcome::LaunchError);
            },
            CmdOutcome::Exited(c) => {
                if c != 0 {
                    self.outcome = Some(ExecOutcome::Code(c));
                } else {
                    let n = self.cmds.len();
                    assert(self.idx < n);
                    self.idx = self.idx + 1;
                    if self.idx == n {
                        self.outcome = Some(ExecOutcome::Code(0));
                    }
                }
            },
        }
    }
}

/// A service whose selected command list is absent finishes at once with
/// exit code 0 and never asks for a command to be run.
pub proof fn absent_list_runs_nothing(srv: Service, t: ExecType, s: ExecSession)
    requires
        srv.command_list(t) is None,
        fresh_session(srv, t, s),
    ensures
        s.outcome == Some(ExecOutcome::Code(0)),
        session_next(s) is None,
{
}

/// Once a command exits non-zero, the run is over: the session's outcome is
/// that command's code, and no later command is ever handed out.
pub proof fn nonzero_exit_stops_run(pre: ExecSession, c: i32)
    requires
        session_wf(pre),
        pre.outcome is None,
        c != 0,
    ensures
        stepped(pre, CmdOutcome::Exited(c)).outcome == Some(ExecOutcome::Code(c)),
        stepped(pre, CmdOutcome::Exited(c)).idx == pre.idx,
        session_next(stepped(pre, CmdOutcome::Exited(c))) is None,
{
}

proof fn lemma_fails_at(pre: ExecSession, ocs: Seq<CmdOutcome>, i: int, c: i32)
    requires
        session_wf(pre),
        pre.outcome is None,
        0 <= i,
        pre.idx + i < pre.cmds@.len(),
        ocs.len() == i + 1,
        forall|j: int| 0 <= j < i ==> ocs[j] == CmdOutcome::Exited(0),
        ocs[i] == CmdOutcome::Exited(c),
        c != 0,
    ensures
        ran(pre, ocs).cmds == pre.cmds,
        ran(pre, ocs).idx == pre.idx + i,
        ran(pre, ocs).outcome == Some(ExecOutcome::Code(c)),
    decreases i,
{
    broadcast use vstd::std_specs::vec::axiom_spec_len;

    assert(spec_vec_len(&pre.cmds) == pre.cmds@.len());
    if i == 0 {
        assert(ran(stepped(pre, ocs[0]), ocs.drop_first()) == stepped(pre, ocs[0]));
    } else {
        let mid = stepped(pre, ocs[0]);
        lemma_fails_at(mid, ocs.drop_first(), i - 1, c);
    }
}

/// When the commands at indices `0 .. i` of a run exit 0 and the one at
/// index `i` exits `c != 0`, the run ends with exactly code `c`, stopped at
/// index `i`: the commands past `i` are never handed out.
pub proof fn failing_command_decides_the_run(
    srv: Service,
    t: ExecType,
    s0: ExecSession,
    ocs: Seq<CmdOutcome>,
    i: int,
    c: i32,
)
    requires
        fresh_session(srv, t, s0),
        0 <= i < s0.cmds@.len(),
        ocs.len() == i + 1,
        forall|j: int| 0 <= j < i ==> ocs[j] == CmdOutcome::Exited(0),
        ocs[i] == CmdOutcome::Exited(c),
        c != 0,
    ensures
        ran(s0, ocs).outcome == Some(ExecOutcome::Code(c)),
        ran(s0, ocs).idx == i,
        session_next(ran(s0, ocs)) is None,
{
    lemma_fails_at(s0, ocs, i, c);
}

proof fn lemma_zero_run(pre: ExecSession, ocs: Seq<CmdOutcome>)
    requires
        session_wf(pre),
        pre.outcome is None,
        pre.idx + ocs.len() == pre.cmds@.len(),
        forall|j: int| 0 <= j < ocs.len() ==> ocs[j] == CmdOutcome::Exited(0),
    ensures
        ran(pre, ocs).cmds == pre.cmds,
        ran(pre, ocs).idx == pre.cmds@.len(),
        ran(pre, ocs).outcome == Some(ExecOutcome::Code(0)),
    decreases ocs.len(),
{
    broadcast use vstd::std_specs::vec::axiom_spec_len;

    assert(spec_vec_len(&pre.cmds) == pre.cmds@.len());
    let mid = stepped(pre, ocs[0]);
    if ocs.len() == 1 {
        assert(ran(mid, ocs.drop_first()) == mid);
    } else {
        lemma_zero_run(mid, ocs.drop_first());
    }
}

/// When every command of a non-empty run exits 0, the run ends with exit
/// code 0, having walked the whole list.
pub proof fn all_zero_exits_succeed(
    srv: Service,
    t: ExecType,
    s0: ExecSession,
    ocs: Seq<CmdOutcome>,
)
    requires
        fresh_session(srv, t, s0),
        s0.cmds@.len() > 0,
        ocs.len() == s0.cmds@.len(),
        forall|j: int| 0 <= j < ocs.len() ==> ocs[j] == CmdOutcome::Exited(0),
    ensures
        ran(s0, ocs).outcome == Some(ExecOutcome::Code(0)),
        ran(s0, ocs).idx == s0.cmds@.len(),
{
    lemma_zero_run(s0, ocs);
}

impl Default for Service {
    /// A service that does nothing: no command lists, not restartable,
    /// reporting errors.
    fn default() -> (s: Self)
        ensures
            s.service.start is None,
            s.service.stop is None,
            s.service.restart is None,
            s.service.can_restart == Some(false),
            s.init.description@ == "[example] Default service"@,
            s.init.on_error == Some(OnError::error),
    {
        Service {
            service: ServiceSection {
                start: None,
                stop: None,
                restart: None,
                can_restart: Some(false),
            },
            init: InitSection {
                description: String::from_str("[example] Default service"),
                on_error: Some(OnError::error),
            },
        }
    }
}

impl Default for OnError {
    /// An absent policy reports and goes on.
    fn default() -> (e: Self)
        ensures
            e == OnError::error,
    {
        OnError::error
    }
}

} // verus!
