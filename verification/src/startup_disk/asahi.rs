//! The firmware-backed backend: a direct, privilege-gated pass-through to
//! the `asahi_bless` library, which owns all durable boot state.

use vstd::prelude::*;

use crate::candidate::{BootCandidate, Volume};
use crate::error::StartupDiskError;
use crate::startup_disk::{is_asahi, is_privileged_operation, StartupDiskTrait};
use crate::text::str_eq;

verus! {

/// The nvram device the firmware library reads and writes by default.
pub const NVRAM_DEVICE_PATH: &'static str = "/dev/mtd/by-name/nvram";

/// The firmware library's error type, carried opaquely until it is mapped
/// onto the service's own failure kinds.
#[verifier::external_type_specification]
#[verifier::external_body]
pub struct ExBlessError(asahi_bless::Error);

/// Relies on `asahi_bless::Error`: maps the firmware library's failure onto
/// the service's own kinds, one variant for one; I/O causes are kept as text.
#[verifier::external_body]
fn error_from_bless(e: asahi_bless::Error) -> StartupDiskError {
    match e {
        asahi_bless::Error::Parse => StartupDiskError::Parse,
        asahi_bless::Error::SectionTooBig => StartupDiskError::SectionTooBig,
        asahi_bless::Error::ApplyError(io) => StartupDiskError::Apply(format!("{io}")),
        asahi_bless::Error::OutOfRange => StartupDiskError::OutOfRange,
        asahi_bless::Error::Ambiguous => StartupDiskError::Ambiguous,
        asahi_bless::Error::NvramReadError(io) => StartupDiskError::NvramRead(format!("{io}")),
        asahi_bless::Error::DiskReadError(io) => StartupDiskError::DiskRead(format!("{io}")),
        asahi_bless::Error::VolumeNotFound => StartupDiskError::VolumeNotFound,
    }
}

/// Relies on `asahi_bless::get_boot_candidates`: enumerates the bootable
/// volume groups from disk and firmware metadata. The outcome depends on the
/// machine's state, so nothing is promised of it; candidates are carried
/// over field for field, identifiers as their plain bit values.
#[verifier::external_body]
fn bless_get_boot_candidates() -> Result<Vec<BootCandidate>, asahi_bless::Error> {
    let convert = |c: asahi_bless::BootCandidate| BootCandidate {
        vg_uuid: c.vg_uuid.as_u128(),
        volumes: c
            .volumes
            .into_iter()
            .map(|v| Volume { name: v.name, is_system: v.is_system })
            .collect(),
        part_uuid: c.part_uuid.as_u128(),
    };
    Ok(asahi_bless::get_boot_candidates()?.into_iter().map(convert).collect())
}

/// Relies on `asahi_bless::get_boot_volume`: reads the stored default (or,
/// with `next`, the next-boot override) from the given nvram device. Its
/// source builds every successful answer with an empty volume list, and that
/// is all that is promised of an outcome that otherwise depends on the
/// machine's state.
#[verifier::external_body]
fn bless_get_boot_volume(device: &str, next: bool) -> (r: Result<
    BootCandidate,
    asahi_bless::Error,
>)
    ensures
        r matches Ok(c) ==> c.volumes@.len() == 0,
{
    match asahi_bless::get_boot_volume(device, next) {
        Ok(c) => Ok(
            BootCandidate {
                vg_uuid: c.vg_uuid.as_u128(),
                volumes: Vec::new(),
                part_uuid: c.part_uuid.as_u128(),
            },
        ),
        Err(e) => Err(e),
    }
}

/// Relies on `asahi_bless::set_boot_volume`: writes the candidate's two
/// identifiers to the given nvram device as the default (or next-boot) boot
/// target. The write either takes effect whole or fails; no partial state
/// change is promised of either outcome.
#[verifier::external_body]
fn bless_set_boot_volume(device: &str, cand: &BootCandidate, next: bool) -> Result<
    (),
    asahi_bless::Error,
> {
    let converted = asahi_bless::BootCandidate {
        vg_uuid: uuid::Uuid::from_u128(cand.vg_uuid),
        volumes: cand
            .volumes
            .iter()
            .map(|v| asahi_bless::Volume { name: v.name.clone(), is_system: v.is_system })
            .collect(),
        part_uuid: uuid::Uuid::from_u128(cand.part_uuid),
    };
    asahi_bless::set_boot_volume(device, &converted, next)
}

/// The firmware-backed backend. Every firmware-touching operation demands
/// privileges; everything passes through to the firmware library unchanged,
/// and every failure propagates as a structured result -- there is no retry
/// and no silent fallback.
pub struct AsahiBlessLibrary;

impl StartupDiskTrait for AsahiBlessLibrary {
    /// The firmware backend demands privileges exactly for the three
    /// firmware-touching operations.
    open spec fn escalation_policy(&self, method: Seq<char>) -> bool {
        is_privileged_operation(method)
    }

    /// Defers to the platform probe: supported exactly when the host
    /// carries the Apple-Silicon firmware marker.
    fn is_supported(&self) -> bool {
        is_asahi()
    }

    fn needs_escalation(&self, method: &str) -> (r: bool) {
        str_eq(method, "get_boot_candidates") || str_eq(method, "get_boot_volume") || str_eq(
            method,
            "set_boot_volume",
        )
    }

    fn get_boot_candidates(&self) -> (r: Result<Vec<BootCandidate>, StartupDiskError>) {
        match bless_get_boot_candidates() {
            Ok(cands) => Ok(cands),
            Err(e) => Err(error_from_bless(e)),
        }
    }

    /// Never a synthetic candidate: the answer is drawn from the stored boot
    /// state or the call fails. A successful answer carries the two
    /// identifiers and no volume list.
    fn get_boot_volume(&self, next: bool) -> (r: Result<BootCandidate, StartupDiskError>)
        ensures
            r matches Ok(c) ==> c.volumes@.len() == 0,
    {
        match bless_get_boot_volume(NVRAM_DEVICE_PATH, next) {
            Ok(c) => Ok(c),
            Err(e) => Err(error_from_bless(e)),
        }
    }

    fn set_boot_volume(&self, cand: &BootCandidate, next: bool) -> (r: Result<(), StartupDiskError>) {
        match bless_set_boot_volume(NVRAM_DEVICE_PATH, cand, next) {
            Ok(()) => Ok(()),
            Err(e) => Err(error_from_bless(e)),
        }
    }
}

} // verus!
