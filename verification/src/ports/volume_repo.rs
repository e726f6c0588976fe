//! Volumes and where they are mounted.
use vstd::prelude::*;

use crate::errors::CoreError;
use crate::types::{DeviceId, PathText, VolumeId, VolumeIdentifiers, VolumeRecord};

verus! {

/// Persistence of volumes.
pub trait VolumeRepository: Send + Sync {
    /// The volume with these identifiers, made where there is none.
    fn find_or_create(&mut self, ident: &VolumeIdentifiers, device: DeviceId) -> Result<
        VolumeId,
        CoreError,
    >;

    /// Records where a volume is mounted on a machine.
    fn record_mount(&mut self, volume: VolumeId, machine: DeviceId, mount: &PathText) -> Result<
        (),
        CoreError,
    >;

    /// All volumes, with their mounts on a machine.
    fn list(&self, machine: DeviceId) -> Result<Vec<VolumeRecord>, CoreError>;
}

} // verus!
