use vstd::prelude::*;

verus! {

/// Directory holding the init system's configuration: the master file and
/// one sub-directory of service definitions per runlevel.
pub const CONF_DIR: &'static str = "/etc/init/";

/// Path of the master configuration file, which names the runlevels and
/// the services started at each of them.
pub const INIT_MASTER_CONF_FILE: &'static str = "/etc/init/init.toml";

/// Path of the boot log, the record of which services were started and
/// with what exit code.
pub const LOADED_SERVICES_CONF_FILE: &'static str = "/var/log/ld_srv.toml.log";

} // verus!
