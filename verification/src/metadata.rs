use vstd::prelude::*;

use crate::errors::ErrorCode;
use crate::ids::AccountId;

verus! {

pub const VERSION_MAJOR: u32 = 1;

pub const VERSION_MINOR: u32 = 0;

pub const VERSION_PATCH: u32 = 2;

/// The program's self-description record, stored once at a derived address
/// and overwritten by the program's upgrade authority.
#[derive(Debug)]
pub struct ProgramMetadata {
    pub semvar_major: u32,
    pub semvar_minor: u32,
    pub semvar_patch: u32,
    pub program: AccountId,
    pub program_name: String,
    pub developer_name: String,
    pub developer_url: String,
    pub source_url: String,
    pub verify_url: String,
}

/// Resolved accounts for `store_metadata`: the program, its upgradeable
/// program-data account, the upgrade authority (signer) and the metadata
/// record.  That the signer really is the upgrade authority is the host
/// runtime's constraint.
#[derive(Clone, Copy, Debug)]
pub struct UpdateMetadata {
    pub program: AccountId,
    pub program_data: AccountId,
    pub program_admin: AccountId,
    pub program_info: AccountId,
    pub system_program: AccountId,
}

/// Builds the metadata record to persist: the caller's strings under the
/// program's current version numbers.
pub fn store_metadata(
    ctx: &UpdateMetadata,
    inp_program_name: String,
    inp_developer_name: String,
    inp_developer_url: String,
    inp_source_url: String,
    inp_verify_url: String,
) -> (r: Result<ProgramMetadata, ErrorCode>)
    ensures
        r matches Ok(md) && md.semvar_major == VERSION_MAJOR && md.semvar_minor == VERSION_MINOR
            && md.semvar_patch == VERSION_PATCH && md.program == ctx.program && md.program_name@
            == inp_program_name@ && md.developer_name@ == inp_developer_name@ && md.developer_url@
            == inp_developer_url@ && md.source_url@ == inp_source_url@ && md.verify_url@
            == inp_verify_url@,
{
    Ok(
        ProgramMetadata {
            semvar_major: VERSION_MAJOR,
            semvar_minor: VERSION_MINOR,
            semvar_patch: VERSION_PATCH,
            program: ctx.program,
            program_name: inp_program_name,
            developer_name: inp_developer_name,
            developer_url: inp_developer_url,
            source_url: inp_source_url,
            verify_url: inp_verify_url,
        },
    )
}

} // verus!
