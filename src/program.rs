use vstd::prelude::*;

use crate::types::Address;

verus! {

/// Version of this program.
pub const PROGRAM_VERSION: &'static str = "1.0.0";

/// Name of this program.
pub const PROGRAM_NAME: &'static str = "SketchXpress Bonding Curve System";

/// One-line description of this program.
pub const PROGRAM_DESCRIPTION: &'static str = "Revolutionary NFT marketplace with bonding curves, Token-Owned Escrow, and dynamic bidding";

/// Name, description, version and id of the deployed program.
#[derive(Clone, Debug)]
pub struct ProgramInfo {
    pub name: String,
    pub description: String,
    pub version: String,
    pub id: Address,
}

/// The program's version.
pub fn get_program_version() -> (r: &'static str)
    ensures
        r == PROGRAM_VERSION,
{
    PROGRAM_VERSION
}

/// The program's name, description and version, with the id it is deployed under.
pub fn get_program_info(id: Address) -> (r: ProgramInfo)
    ensures
        r.name@ == PROGRAM_NAME@,
        r.description@ == PROGRAM_DESCRIPTION@,
        r.version@ == PROGRAM_VERSION@,
        r.id == id,
{
    ProgramInfo {
        name: PROGRAM_NAME.to_owned(),
        description: PROGRAM_DESCRIPTION.to_owned(),
        version: PROGRAM_VERSION.to_owned(),
        id,
    }
}

} // verus!
