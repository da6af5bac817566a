//! The playback agent: the service that keeps this machine available as a
//! playback device.

use vstd::prelude::*;
use vstd::string::*;
use crate::model::Devices;
use crate::paths::{join, path_join};

verus! {

/// Name of the agent's service unit file.
pub const UNIT_FILE: &'static str = "sptty.service";

/// The unit file up to the path of the executable.
pub const UNIT_HEAD: &'static str =
    "[Unit]\nDescription=Lightweight Spotify daemon.\n\n[Service]\nExecStart=";

/// The unit file after the path of the executable.
pub const UNIT_TAIL: &'static str = " agent run\n\n[Install]\nWantedBy=default.target\n";

/// Whether the agent, once it is connected, takes playback over: it does
/// where the user has no device yet.
pub fn run(devices: &Devices) -> (takes_over: bool)
    ensures
        takes_over == (devices.devices.len() == 0),
{
    devices.devices.len() == 0
}

/// Content of the service unit that runs the agent from `executable`.
pub fn unit(executable: &str) -> (content: String)
    ensures
        content@ == UNIT_HEAD@ + executable@ + UNIT_TAIL@,
{
    let mut content = String::from_str(UNIT_HEAD);
    content.append(executable);
    content.append(UNIT_TAIL);
    content
}

/// Where the service unit is installed, given the directory of the user's
/// service units.
pub fn unit_path(unit_dir: &str) -> (path: String)
    ensures
        path@ == path_join(unit_dir@, UNIT_FILE@),
{
    join(unit_dir, UNIT_FILE)
}

} // verus!
