//! Putting a metadata snapshot together from its parts.

use crate::event::{Metadata, MonitorMetadata};
use vstd::prelude::*;

verus! {

/// `os_info::get`: the description of the operating system that this
/// process runs on. Nothing is claimed of it.
#[verifier::external_body]
pub fn get_os_metadata() -> (os: os_info::Info) {
    os_info::get()
}

/// A snapshot of the given parts and of the operating system as it is
/// found now.
pub fn query_metadata(
    user_id: String,
    host_id: String,
    monitor: Vec<MonitorMetadata>,
    input_device: String,
) -> (metadata: Metadata)
    ensures
        metadata.user_id == user_id,
        metadata.host_id == host_id,
        metadata.monitor == monitor,
        metadata.input_device == input_device,
{
    let os = get_os_metadata();
    snapshot(user_id, host_id, monitor, input_device, os)
}

/// The snapshot made of the given parts.
pub fn snapshot(
    user_id: String,
    host_id: String,
    monitor: Vec<MonitorMetadata>,
    input_device: String,
    os: os_info::Info,
) -> (metadata: Metadata)
    ensures
        metadata == (Metadata { user_id, host_id, monitor, input_device, os }),
{
    Metadata { user_id, host_id, monitor, input_device, os }
}

} // verus!
