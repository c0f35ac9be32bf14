//! The boot selection service: one capability set over two interchangeable
//! backends, selected once at process start and never re-selected.

pub mod asahi;
pub mod mock;

use vstd::prelude::*;

use crate::candidate::BootCandidate;
use crate::error::StartupDiskError;

verus! {

/// Firmware device-tree marker whose presence identifies a supported
/// Apple-Silicon host.
pub const ASAHI_MARKER_PATH: &'static str = "/proc/device-tree/chosen/asahi,system-fw-version";

/// Relies on `std::path::Path::exists`: reports whether the path names an
/// existing filesystem entry. The answer depends on the machine's state, so
/// nothing further is promised of it.
#[verifier::external_body]
fn path_exists(path: &str) -> bool {
    std::path::Path::new(path).exists()
}

/// Platform probe: whether the firmware device-tree marker that Asahi Linux
/// publishes on Apple-Silicon hosts is present. Only existence is checked;
/// no content is read. Absence is a normal "not supported" answer.
pub fn is_asahi() -> bool {
    path_exists(ASAHI_MARKER_PATH)
}

/// The three operations that read or change firmware boot state, by name.
/// These and only these demand privileges on the firmware-backed backend.
pub open spec fn is_privileged_operation(method: Seq<char>) -> bool {
    ||| method == "get_boot_candidates"@
    ||| method == "get_boot_volume"@
    ||| method == "set_boot_volume"@
}

/// The capability set every backend offers. A backend never escalates by
/// itself: the caller asks `needs_escalation` first and controls when a
/// privilege prompt appears.
pub trait StartupDiskTrait {
    /// For which operation names this backend demands privileges.
    spec fn escalation_policy(&self, method: Seq<char>) -> bool;

    /// Whether this backend can meaningfully answer boot-selection queries
    /// on this machine.
    fn is_supported(&self) -> bool;

    /// Pure policy decision, no side effect: must the caller acquire
    /// privileges before invoking the operation called `method`?
    fn needs_escalation(&self, method: &str) -> (r: bool)
        ensures
            r == self.escalation_policy(method@),
    ;

    /// Enumerates all bootable volume groups.
    fn get_boot_candidates(&self) -> Result<Vec<BootCandidate>, StartupDiskError>;

    /// Reads the currently configured default boot target, or the next-boot
    /// override when `next` is set.
    fn get_boot_volume(&self, next: bool) -> Result<BootCandidate, StartupDiskError>;

    /// Requests that `cand` become the default (or next-boot) boot target.
    fn set_boot_volume(&self, cand: &BootCandidate, next: bool) -> Result<(), StartupDiskError>;
}

/// The closed set of backends: the firmware-backed one and the mock. One of
/// the two is selected at process start and stays active for the whole run;
/// no operation ever mixes the two.
pub enum StartupDiskLibrary {
    AsahiBless(asahi::AsahiBlessLibrary),
    Mock(mock::MockLibrary),
}

impl StartupDiskTrait for StartupDiskLibrary {
    /// The active backend's own policy, unchanged.
    open spec fn escalation_policy(&self, method: Seq<char>) -> bool {
        match self {
            StartupDiskLibrary::AsahiBless(lib) => lib.escalation_policy(method),
            StartupDiskLibrary::Mock(lib) => lib.escalation_policy(method),
        }
    }

    fn is_supported(&self) -> (r: bool)
        ensures
            self is Mock ==> r,
    {
        match self {
            StartupDiskLibrary::AsahiBless(lib) => lib.is_supported(),
            StartupDiskLibrary::Mock(lib) => lib.is_supported(),
        }
    }

    fn needs_escalation(&self, method: &str) -> (r: bool) {
        match self {
            StartupDiskLibrary::AsahiBless(lib) => lib.needs_escalation(method),
            StartupDiskLibrary::Mock(lib) => lib.needs_escalation(method),
        }
    }

    fn get_boot_candidates(&self) -> (r: Result<Vec<BootCandidate>, StartupDiskError>)
        ensures
            self is Mock ==> r is Ok && mock::mock_enumeration(r->Ok_0@),
    {
        match self {
            StartupDiskLibrary::AsahiBless(lib) => lib.get_boot_candidates(),
            StartupDiskLibrary::Mock(lib) => lib.get_boot_candidates(),
        }
    }

    fn get_boot_volume(&self, next: bool) -> (r: Result<BootCandidate, StartupDiskError>)
        ensures
            self is Mock ==> r is Ok,
            r matches Ok(c) ==> c.volumes@.len() == 0,
    {
        match self {
            StartupDiskLibrary::AsahiBless(lib) => lib.get_boot_volume(next),
            StartupDiskLibrary::Mock(lib) => lib.get_boot_volume(next),
        }
    }

    fn set_boot_volume(&self, cand: &BootCandidate, next: bool) -> (r: Result<(), StartupDiskError>)
        ensures
            self is Mock ==> r is Ok,
    {
        match self {
            StartupDiskLibrary::AsahiBless(lib) => lib.set_boot_volume(cand, next),
            StartupDiskLibrary::Mock(lib) => lib.set_boot_volume(cand, next),
        }
    }
}

/// The backend selection rule: the mock serves when the explicit override
/// asks for it, or in a non-production build on a host without platform
/// support, so the interaction loop stays exercisable anywhere. In every
/// other case the firmware-backed backend serves.
pub open spec fn selects_mock(
    use_mock_override: bool,
    debug_build: bool,
    platform_supported: bool,
) -> bool {
    use_mock_override || (debug_build && !platform_supported)
}

/// Chooses the process-wide backend, once, from the explicit override, the
/// build mode, and the platform probe's answer. The choice is immutable for
/// the lifetime of the process.
pub fn startup_disk_library(
    use_mock_override: bool,
    debug_build: bool,
    platform_supported: bool,
) -> (lib: StartupDiskLibrary)
    ensures
        lib is Mock <==> selects_mock(use_mock_override, debug_build, platform_supported),
        lib is AsahiBless <==> !selects_mock(use_mock_override, debug_build, platform_supported),
{
    if use_mock_override || (debug_build && !platform_supported) {
        StartupDiskLibrary::Mock(mock::MockLibrary)
    } else {
        StartupDiskLibrary::AsahiBless(asahi::AsahiBlessLibrary)
    }
}

/// The escalation table in one statement: the firmware-backed backend
/// demands privileges exactly for the three firmware-touching operations,
/// whatever the operation name; the mock backend never demands any.
pub proof fn lemma_escalation_policy(lib: StartupDiskLibrary, method: Seq<char>)
    ensures
        lib is AsahiBless ==> lib.escalation_policy(method) == is_privileged_operation(method),
        lib is Mock ==> !lib.escalation_policy(method),
{
}

} // verus!
