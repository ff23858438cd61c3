//! Which hardware log rows count as a match for a login's client hashes.
use vstd::prelude::*;

verus! {

/// How the hashes of a login are matched against other users' hardware.
#[derive(Debug, Clone, Copy, PartialEq, Eq, Structural)]
pub enum HardwareMatchRule {
    /// All three hashes must be equal (the unique ID or the disk ID is a
    /// well-known placeholder, which alone would match too many users).
    AllHashes,
    /// Only the unique ID is compared (the client runs under wine, whose
    /// adapter hash is shared by everyone).
    UniqueIdOnly,
    /// Any one of the three hashes being equal is a match.
    AnyHash,
}

/// md5(md5("00000000-0000-0000-0000-000000000000")): the unique ID of
/// clients that report none.
pub open spec fn placeholder_unique_id() -> Seq<char> {
    "06a9e146cb8cc0853ded03bb15f2260e"@
}

/// md5(md5("0")): the disk ID of clients that report none.
pub open spec fn placeholder_disk_id() -> Seq<char> {
    "dcfcd07e645d245babe887e5e2daa016"@
}

/// md5("runningunderwine"): the adapters hash of clients running under wine.
pub open spec fn wine_mac() -> Seq<char> {
    "b4ec3c4334a0249dae95c284ec5983df"@
}

/// The rule by which other users' hardware is matched against these hashes.
pub fn foreign_hardware_match_rule(mac: &str, unique_id: &str, disk_id: &str) -> (rule: HardwareMatchRule)
    ensures
        rule == if unique_id@ == placeholder_unique_id() || disk_id@ == placeholder_disk_id() {
            HardwareMatchRule::AllHashes
        } else if mac@ == wine_mac() {
            HardwareMatchRule::UniqueIdOnly
        } else {
            HardwareMatchRule::AnyHash
        },
{
    let unique_id = String::from_str(unique_id);
    let disk_id = String::from_str(disk_id);
    let mac = String::from_str(mac);
    if unique_id == String::from_str("06a9e146cb8cc0853ded03bb15f2260e")
        || disk_id == String::from_str("dcfcd07e645d245babe887e5e2daa016") {
        HardwareMatchRule::AllHashes
    } else if mac == String::from_str("b4ec3c4334a0249dae95c284ec5983df") {
        HardwareMatchRule::UniqueIdOnly
    } else {
        HardwareMatchRule::AnyHash
    }
}

} // verus!
