//! Save games: the format version, version migration and save errors.

use crate::ids::{decimal, decimal_text, numbered};
use vstd::prelude::*;

verus! {

/// The save format version this build writes and reads.
pub const SAVE_VERSION: u32 = 1;

/// `std::io::Error`, carried through unchanged in `SaveError::Io`.
#[verifier::external_type_specification]
#[verifier::external_body]
pub struct ExIoError(std::io::Error);

/// Why a save could not be loaded.
#[derive(Debug)]
pub enum SaveError {
    Io(std::io::Error),
    Corrupt,
    Migration(String),
}

/// The message for a save written by a newer build.
pub open spec fn newer_save_text(version: u32) -> Seq<char> {
    "Save version "@ + decimal_text(version as nat) + " er nyere end understøttet "@ + decimal_text(
        SAVE_VERSION as nat,
    ) + " — opdater spillet."@
}

/// The message for a version that has no migration step.
pub open spec fn unknown_save_text(version: u32) -> Seq<char> {
    "Ukendt save version "@ + decimal_text(version as nat)
}

fn newer_save_message(version: u32) -> (s: String)
    ensures
        s@ == newer_save_text(version),
{
    let mut s = numbered("Save version ", version);
    s.append(" er nyere end understøttet ");
    s.append(decimal(SAVE_VERSION).as_str());
    s.append(" — opdater spillet.");
    s
}

fn unknown_save_message(version: u32) -> (s: String)
    ensures
        s@ == unknown_save_text(version),
{
    numbered("Ukendt save version ", version)
}

/// Brings a save's version up to `SAVE_VERSION`. A save from a newer build
/// is refused; version 0 is upgraded to 1.
pub fn migrate_version(version: u32) -> (r: Result<u32, String>)
    ensures
        version > SAVE_VERSION ==> (r matches Err(e) && e@ == newer_save_text(version)),
        version <= SAVE_VERSION ==> r == Ok::<u32, String>(SAVE_VERSION),
{
    if version > SAVE_VERSION {
        return Err(newer_save_message(version));
    }
    let mut v = version;
    while v < SAVE_VERSION
        invariant
            v <= SAVE_VERSION,
        decreases SAVE_VERSION - v,
    {
        match v {
            0 => v = 1,
            other => return Err(unknown_save_message(other)),
        }
    }
    Ok(v)
}

} // verus!
