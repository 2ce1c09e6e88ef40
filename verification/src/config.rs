//! The configuration model: the master configuration (an ordered list of
//! runlevels), the action taken when a runlevel is entered, and the boot
//! log that records every service start for the reverse shutdown pass.

use vstd::prelude::*;
use vstd::string::StringExecFns;

verus! {

/// Master configuration of the init system.
///
/// Holds the ordered list of runlevels and names the one at which the
/// forward walk stops and the login shell is launched.
#[derive(Debug, PartialEq)]
pub struct Config {
    /// Last runlevel processed by the forward walk.
    pub final_runlevel: String,

    /// Runlevels, processed strictly in this order.
    pub runlevel: Vec<Runlevel>,
}

/// One runlevel: a named stage of system startup, associating a directory
/// of service definitions with an action.
#[derive(Debug, PartialEq)]
pub struct Runlevel {
    /// The runlevel's name, and the directory holding its services.
    pub dir: String,

    /// Whether the walk processes this runlevel at all (absent means yes).
    pub enabled: Option<bool>,

    /// Short description, descriptive only.
    pub description: String,

    /// What happens when the walk switches to this runlevel
    /// (absent means `Action::run_services`).
    pub action: Option<Action>,

    /// Names of the services started at this runlevel, in order; read only
    /// when the action is (or defaults to) `run_services`.
    pub services: Option<Vec<String>>,

    /// Login shell launched after the walk, if this runlevel is the final
    /// one; absent keeps the default shell.
    pub login_shell: Option<String>,
}

/// Action taken when the walk switches to a runlevel.
#[allow(non_camel_case_types)]
#[derive(Clone, Copy, Debug, PartialEq, Eq, Structural)]
pub enum Action {
    /// Start the runlevel's services, one after the other.
    run_services,

    /// Shut the machine down.
    power_off,

    /// Reboot the machine.
    reboot,
}

/// One line of the boot log: a service start attempt and its exit code.
#[derive(Debug, PartialEq)]
pub struct LdSrv {
    /// Runlevel the service belongs to.
    pub rl: String,

    /// Service name, without the file extension.
    pub name: String,

    /// Exit code its start commands ended with (0 on success).
    pub code: i32,
}

/// The boot log: every service start attempt of one forward walk, in the
/// order the starts were made.
#[derive(Debug, PartialEq)]
pub struct LoadedServices {
    /// The recorded start attempts.
    pub service: Vec<LdSrv>,
}

/// The five services of the fallback runlevel.
pub open spec fn default_service_names() -> Seq<Seq<char>> {
    seq![
        "mount_procfs"@,
        "mount_sysfs"@,
        "mount_tmpfs"@,
        "mount_devpts"@,
        "mount_devshm"@,
    ]
}

/// The documented fallback runlevel: "rl1", enabled, running the five
/// filesystem-mount services, with `/bin/login` as its login shell.
pub open spec fn is_default_runlevel(r: Runlevel) -> bool {
    &&& r.dir@ == "rl1"@
    &&& r.enabled == Some(true)
    &&& r.description@ == "Single user mode"@
    &&& r.action == Some(Action::run_services)
    &&& match r.services {
        Some(s) => s.deep_view() == default_service_names(),
        None => false,
    }
    &&& match r.login_shell {
        Some(sh) => sh@ == "/bin/login"@,
        None => false,
    }
}

/// The documented fallback configuration: final runlevel "rl1" and the one
/// fallback runlevel.
pub open spec fn is_default_config(c: Config) -> bool {
    &&& c.final_runlevel@ == "rl1"@
    &&& c.runlevel@.len() == 1
    &&& is_default_runlevel(c.runlevel@[0])
}

impl Action {
    /// Make the power transition this action names. `run_services` only
    /// warns: switching runlevels is the orchestrator's job, not this
    /// call's. For the other two the machine powers off or reboots and the
    /// call never returns; a returned `Err` carries the transition's
    /// failure.
    pub fn take(&self) -> (r: Result<(), String>)
        ensures
            r is Ok <==> *self is run_services,
    {
        match self {
            Action::run_services => {
                crate::msg::err_line(
                    "/sbin/init: WARNING: No implementation is provided for the `run_services` action.",
                );
                Ok(())
            },
            Action::power_off => Err(sys_power_off()),
            Action::reboot => Err(sys_reboot()),
        }
    }
}

/// Relies on nix::sys::reboot::reboot(RB_POWER_OFF): on success the machine
/// powers off and the call never returns; when it does return, its value is
/// always the error, rendered here as text.
#[verifier::external_body]
fn sys_power_off() -> (e: String) {
    match nix::sys::reboot::reboot(nix::sys::reboot::RebootMode::RB_POWER_OFF) {
        Err(why) => format!("{}", why),
        Ok(_) => String::new(),
    }
}

/// Relies on nix::sys::reboot::reboot(RB_AUTOBOOT): on success the machine
/// reboots and the call never returns; when it does return, its value is
/// always the error, rendered here as text.
#[verifier::external_body]
fn sys_reboot() -> (e: String) {
    match nix::sys::reboot::reboot(nix::sys::reboot::RebootMode::RB_AUTOBOOT) {
        Err(why) => format!("{}", why),
        Ok(_) => String::new(),
    }
}

impl Default for LoadedServices {
    /// An empty boot log: nothing was recorded, nothing to reverse.
    fn default() -> (l: Self)
        ensures
            l.service@.len() == 0,
    {
        LoadedServices { service: Vec::new() }
    }
}

impl Default for Runlevel {
    /// The fallback runlevel, substituted when the master configuration
    /// cannot be read.
    fn default() -> (r: Self)
        ensures
            is_default_runlevel(r),
    {
        let mut services: Vec<String> = Vec::new();
        services.push(String::from_str("mount_procfs"));
        services.push(String::from_str("mount_sysfs"));
        services.push(String::from_str("mount_tmpfs"));
        services.push(String::from_str("mount_devpts"));
        services.push(String::from_str("mount_devshm"));
        proof {
            assert(services.deep_view() =~= default_service_names());
        }
        Runlevel {
            dir: String::from_str("rl1"),
            enabled: Some(true),
            description: String::from_str("Single user mode"),
            action: Some(Action::run_services),
            services: Some(services),
            login_shell: Some(String::from_str("/bin/login")),
        }
    }
}

impl Default for Config {
    /// The fallback master configuration, substituted when the real one
    /// cannot be read.
    fn default() -> (c: Self)
        ensures
            is_default_config(c),
    {
        let mut runlevel: Vec<Runlevel> = Vec::new();
        runlevel.push(Runlevel::default());
        Config { final_runlevel: String::from_str("rl1"), runlevel }
    }
}

impl Default for Action {
    /// A runlevel that declares no action runs its services.
    fn default() -> (a: Self)
        ensures
            a == Action::run_services,
    {
        Action::run_services
    }
}

} // verus!
