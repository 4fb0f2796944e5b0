use vstd::prelude::*;
use vstd::string::*;

verus! {

/// Options of one enrollment run.
pub struct Args {
    /// Read the private key from the operator instead of generating one.
    pub prompt: bool,
    /// Name under which the device is registered.
    pub device_name: String,
}

impl Args {
    /// Options with the default device name.
    pub fn new(prompt: bool) -> (r: Args)
        ensures
            r.prompt == prompt,
            r.device_name@ == "wgcf-teams-device"@,
    {
        Args { prompt, device_name: String::from_str("wgcf-teams-device") }
    }
}

} // verus!
