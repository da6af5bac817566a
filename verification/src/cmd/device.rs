//! The commands on playback devices.

use vstd::prelude::*;
use vstd::string::*;
use crate::error::{Error, ErrorView};
use crate::model::{Device, Devices, TransferUserPlaybackRequest};
use crate::text::{joined, lowercase, starts_with, to_lowercase};

verus! {

/// Mark in front of the active device.
pub const ACTIVE_MARK: &'static str = "✔ ";

/// What stands in front of any other device.
pub const IDLE_MARK: &'static str = "  ";

/// The line that lists a device: its name, marked where the device is
/// active.
pub open spec fn line_of(device: Device) -> Seq<char> {
    if device.is_active {
        ACTIVE_MARK@ + device.name@
    } else {
        IDLE_MARK@ + device.name@
    }
}

/// The line that lists a device.
pub fn line(device: &Device) -> (text: String)
    ensures
        text@ == line_of(*device),
{
    if device.is_active {
        joined(ACTIVE_MARK, device.name.as_str())
    } else {
        joined(IDLE_MARK, device.name.as_str())
    }
}

/// The lines that list the devices, in their order.
pub fn list(devices: &Devices) -> (lines: Vec<String>)
    ensures
        lines.len() == devices.devices.len(),
        forall|i: int| 0 <= i < lines.len() ==> (#[trigger] lines[i])@ == line_of(devices.devices[i]),
{
    let mut lines: Vec<String> = Vec::new();
    let mut i: usize = 0;
    while i < devices.devices.len()
        invariant
            i <= devices.devices.len(),
            lines.len() == i,
            forall|k: int| 0 <= k < i ==> (#[trigger] lines[k])@ == line_of(devices.devices[k]),
        decreases devices.devices.len() - i,
    {
        lines.push(line(&devices.devices[i]));
        i = i + 1;
    }
    lines
}

/// A device answers to `wanted` where its name starts with it, letter case
/// aside.
pub open spec fn answers_to(device: Device, wanted: Seq<char>) -> bool {
    lowercase(wanted).is_prefix_of(lowercase(device.name@))
}

/// Position of the first device that answers to `wanted`, if there is one.
pub fn select(devices: &Devices, wanted: &str) -> (found: Option<usize>)
    ensures
        match found {
            Some(at) => {
                &&& at < devices.devices.len()
                &&& answers_to(devices.devices[at as int], wanted@)
                &&& forall|k: int| 0 <= k < at ==> !answers_to(#[trigger] devices.devices[k], wanted@)
            },
            None => forall|k: int|
                0 <= k < devices.devices.len() ==> !answers_to(
                    #[trigger] devices.devices[k],
                    wanted@,
                ),
        },
{
    let wanted_lower = to_lowercase(wanted);
    let mut i: usize = 0;
    while i < devices.devices.len()
        invariant
            i <= devices.devices.len(),
            wanted_lower@ == lowercase(wanted@),
            forall|k: int| 0 <= k < i ==> !answers_to(#[trigger] devices.devices[k], wanted@),
        decreases devices.devices.len() - i,
    {
        let name = to_lowercase(devices.devices[i].name.as_str());
        if starts_with(name.as_str(), wanted_lower.as_str()) {
            return Some(i);
        }
        i = i + 1;
    }
    None
}

/// The request that moves playback to the device with the given id.
pub fn transfer(device_id: String, play: bool) -> (request: TransferUserPlaybackRequest)
    ensures
        request.device_ids@.len() == 1,
        request.device_ids@[0]@ == device_id@,
        request.play == play,
{
    let mut device_ids: Vec<String> = Vec::new();
    device_ids.push(device_id);
    TransferUserPlaybackRequest { device_ids, play }
}

/// The request that makes the first device answering to `name` the active
/// one. Where none answers, the command fails.
pub fn set(devices: &Devices, name: &str, play: bool) -> (r: Result<
    TransferUserPlaybackRequest,
    Error,
>)
    ensures
        match r {
            Ok(request) => {
                &&& request.play == play
                &&& request.device_ids@.len() == 1
                &&& exists|at: int|
                    {
                        &&& 0 <= at < devices.devices.len()
                        &&& answers_to(#[trigger] devices.devices[at], name@)
                        &&& forall|k: int|
                            0 <= k < at ==> !answers_to(#[trigger] devices.devices[k], name@)
                        &&& request.device_ids@[0]@ == devices.devices[at].id@
                    }
            },
            Err(e) => {
                &&& e@ == ErrorView::Command("no match device found."@)
                &&& forall|k: int|
                    0 <= k < devices.devices.len() ==> !answers_to(
                        #[trigger] devices.devices[k],
                        name@,
                    )
            },
        },
{
    match select(devices, name) {
        Some(at) => Ok(transfer(devices.devices[at].id.clone(), play)),
        None => Err(Error::Command(String::from_str("no match device found."))),
    }
}

} // verus!
