//! The mock backend: a deterministic, privilege-free stand-in that
//! synthesizes fake boot candidates so a caller can exercise the full
//! interaction loop without touching firmware state.

use vstd::prelude::*;

use crate::candidate::{BootCandidate, Volume};
use crate::error::StartupDiskError;
use crate::startup_disk::StartupDiskTrait;

verus! {

/// A lowercase ASCII letter.
pub open spec fn is_lowercase_letter(c: char) -> bool {
    'a' as u32 <= c as u32 <= 'z' as u32
}

/// The shape of every volume the mock synthesizes: a name of one to
/// `max_length` lowercase letters.
pub open spec fn mock_volume_wf(v: Volume, max_length: int) -> bool {
    &&& 1 <= v.name@.len() <= max_length
    &&& forall|i: int| 0 <= i < v.name@.len() ==> is_lowercase_letter(#[trigger] v.name@[i])
}

/// The fixed shape of a mock enumeration: exactly three candidates of two
/// volumes each, names of one to ten lowercase letters, and one fixed
/// system-volume pattern per candidate.
pub open spec fn mock_enumeration(cands: Seq<BootCandidate>) -> bool {
    &&& cands.len() == 3
    &&& forall|i: int, j: int|
        0 <= i < 3 && 0 <= j < 2 ==> mock_volume_wf(#[trigger] cands[i].volumes@[j], 10)
    &&& forall|i: int| 0 <= i < 3 ==> (#[trigger] cands[i].volumes)@.len() == 2
    &&& cands[0].volumes@[0].is_system && !cands[0].volumes@[1].is_system
    &&& !cands[1].volumes@[0].is_system && cands[1].volumes@[1].is_system
    &&& !cands[2].volumes@[0].is_system && !cands[2].volumes@[1].is_system
}

/// Relies on `rand::random_range`: a value drawn uniformly from the
/// nonempty inclusive range, which therefore lies within it. Nothing more is
/// promised of a random draw.
#[verifier::external_body]
fn random_in_range(lo: usize, hi: usize) -> (r: usize)
    requires
        lo <= hi,
    ensures
        lo <= r <= hi,
{
    rand::random_range(lo..=hi)
}

/// Relies on `uuid::Uuid::new_v4`: a freshly generated random 128-bit
/// identifier, returned as its plain bit value. Nothing is promised of a
/// random draw.
#[verifier::external_body]
fn fresh_uuid() -> u128 {
    uuid::Uuid::new_v4().as_u128()
}

/// The `i`th lowercase letter, as a one-character string slice.
fn letter(i: usize) -> (r: &'static str)
    requires
        i < 26,
    ensures
        r@.len() == 1,
        is_lowercase_letter(r@[0]),
{
    proof {
        reveal_strlit("a");
        reveal_strlit("b");
        reveal_strlit("c");
        reveal_strlit("d");
        reveal_strlit("e");
        reveal_strlit("f");
        reveal_strlit("g");
        reveal_strlit("h");
        reveal_strlit("i");
        reveal_strlit("j");
        reveal_strlit("k");
        reveal_strlit("l");
        reveal_strlit("m");
        reveal_strlit("n");
        reveal_strlit("o");
        reveal_strlit("p");
        reveal_strlit("q");
        reveal_strlit("r");
        reveal_strlit("s");
        reveal_strlit("t");
        reveal_strlit("u");
        reveal_strlit("v");
        reveal_strlit("w");
        reveal_strlit("x");
        reveal_strlit("y");
        reveal_strlit("z");
    }
    match i {
        0 => "a",
        1 => "b",
        2 => "c",
        3 => "d",
        4 => "e",
        5 => "f",
        6 => "g",
        7 => "h",
        8 => "i",
        9 => "j",
        10 => "k",
        11 => "l",
        12 => "m",
        13 => "n",
        14 => "o",
        15 => "p",
        16 => "q",
        17 => "r",
        18 => "s",
        19 => "t",
        20 => "u",
        21 => "v",
        22 => "w",
        23 => "x",
        24 => "y",
        _ => "z",
    }
}

/// A random name of one to `max_length` lowercase letters.
fn random_name(max_length: usize) -> (r: String)
    requires
        1 <= max_length,
    ensures
        1 <= r@.len() <= max_length,
        forall|i: int| 0 <= i < r@.len() ==> is_lowercase_letter(#[trigger] r@[i]),
{
    let n = random_in_range(1, max_length);
    let mut name = String::new();
    let mut i: usize = 0;
    while i < n
        invariant
            i <= n,
            name@.len() == i,
            forall|j: int| 0 <= j < name@.len() ==> is_lowercase_letter(#[trigger] name@[j]),
        decreases n - i,
    {
        name.append(letter(random_in_range(0, 25)));
        i += 1;
    }
    name
}

/// Synthesizes `num_volumes` volumes with random lowercase names of one to
/// `max_length` letters, the `n`th marked as system volume per `is_system`.
fn generate_random_volumes(num_volumes: usize, max_length: usize, is_system: &[bool]) -> (r: Vec<
    Volume,
>)
    requires
        1 <= max_length,
        num_volumes <= is_system@.len(),
    ensures
        r@.len() == num_volumes,
        forall|n: int|
            0 <= n < num_volumes ==> mock_volume_wf(#[trigger] r@[n], max_length as int)
                && r@[n].is_system == is_system@[n],
{
    let mut vols: Vec<Volume> = Vec::new();
    let mut n: usize = 0;
    while n < num_volumes
        invariant
            n <= num_volumes,
            num_volumes <= is_system@.len(),
            1 <= max_length,
            vols@.len() == n,
            forall|k: int|
                0 <= k < n ==> mock_volume_wf(#[trigger] vols@[k], max_length as int)
                    && vols@[k].is_system == is_system@[k],
        decreases num_volumes - n,
    {
        let name = random_name(max_length);
        vols.push(Volume { name, is_system: is_system[n] });
        n += 1;
    }
    vols
}

/// The deterministic, privilege-free backend. It reports itself supported on
/// any machine, demands no privileges, and synthesizes fresh fake data on
/// every call; its data must never be taken for real boot state.
pub struct MockLibrary;

impl StartupDiskTrait for MockLibrary {
    /// The mock demands privileges for nothing.
    open spec fn escalation_policy(&self, method: Seq<char>) -> bool {
        false
    }

    fn is_supported(&self) -> (r: bool)
        ensures
            r,
    {
        true
    }

    fn needs_escalation(&self, method: &str) -> (r: bool) {
        false
    }

    /// Exactly three candidates of two volumes each, with fresh random
    /// identifiers and random lowercase names on every call -- deliberately
    /// unstable across calls, to catch callers that assume identity
    /// stability.
    fn get_boot_candidates(&self) -> (r: Result<Vec<BootCandidate>, StartupDiskError>)
        ensures
            r is Ok,
            mock_enumeration(r->Ok_0@),
    {
        let flags0: [bool; 2] = [true, false];
        let flags1: [bool; 2] = [false, true];
        let flags2: [bool; 2] = [false, false];
        let mut cands: Vec<BootCandidate> = Vec::new();
        cands.push(
            BootCandidate {
                vg_uuid: fresh_uuid(),
                volumes: generate_random_volumes(2, 10, flags0.as_slice()),
                part_uuid: fresh_uuid(),
            },
        );
        cands.push(
            BootCandidate {
                vg_uuid: fresh_uuid(),
                volumes: generate_random_volumes(2, 10, flags1.as_slice()),
                part_uuid: fresh_uuid(),
            },
        );
        cands.push(
            BootCandidate {
                vg_uuid: fresh_uuid(),
                volumes: generate_random_volumes(2, 10, flags2.as_slice()),
                part_uuid: fresh_uuid(),
            },
        );
        Ok(cands)
    }

    /// A candidate with an empty volume list, for either value of `next`:
    /// a deliberately distinct shape that signals "no meaningful default in
    /// mock mode" and, by construction, never matches an enumerated mock
    /// candidate by name-independent identity either.
    fn get_boot_volume(&self, next: bool) -> (r: Result<BootCandidate, StartupDiskError>)
        ensures
            r is Ok,
            r->Ok_0.volumes@.len() == 0,
    {
        Ok(BootCandidate { vg_uuid: fresh_uuid(), volumes: Vec::new(), part_uuid: fresh_uuid() })
    }

    /// Accepts any candidate and persists nothing.
    fn set_boot_volume(&self, cand: &BootCandidate, next: bool) -> (r: Result<(), StartupDiskError>)
        ensures
            r is Ok,
    {
        Ok(())
    }
}

} // verus!
