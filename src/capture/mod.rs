pub mod device_info;
pub mod device_info_list;
pub mod discovery;

use vstd::prelude::*;

verus! {

/// Snapshot length the capture source is opened with.
pub const SNAPLEN: i32 = 5000;

/// Read timeout of the capture source, in milliseconds.
pub const READ_TIMEOUT_MS: i32 = 1000;

/// The capture side's configuration: the interface to monitor.
pub struct Sniffer {
    device_name: String,
}

impl Sniffer {
    /// The name of the monitored interface.
    pub closed spec fn name(&self) -> Seq<char> {
        self.device_name@
    }

    pub fn new(device_name: &str) -> (r: Self)
        ensures
            r.name() == device_name@,
    {
        Sniffer { device_name: device_name.to_owned() }
    }

    pub fn device_name(&self) -> (r: &str)
        ensures
            r@ == self.name(),
    {
        self.device_name.as_str()
    }
}

} // verus!
