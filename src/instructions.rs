//! The instructions of the allocate, finalize and authority phases of a
//! program upload.
use vstd::prelude::*;

use crate::error::Error;

verus! {

#[verifier::external_type_specification]
#[verifier::external_body]
pub struct ExInstructionError(solana_program::instruction::InstructionError);

/// The instructions that `bpf_loader_upgradeable::create_buffer` builds.
pub uninterp spec fn create_buffer_instructions_of(
    payer: solana_program::pubkey::Pubkey,
    buffer: solana_program::pubkey::Pubkey,
    authority: solana_program::pubkey::Pubkey,
    lamports: u64,
    program_len: usize,
) -> Seq<solana_program::instruction::Instruction>;

/// The instructions that `bpf_loader_upgradeable::deploy_with_max_program_len`
/// builds.
pub uninterp spec fn deploy_instructions_of(
    payer: solana_program::pubkey::Pubkey,
    program: solana_program::pubkey::Pubkey,
    buffer: solana_program::pubkey::Pubkey,
    upgrade_authority: solana_program::pubkey::Pubkey,
    lamports: u64,
    max_data_len: usize,
) -> Seq<solana_program::instruction::Instruction>;

/// The instruction that `bpf_loader_upgradeable::set_buffer_authority` builds.
pub uninterp spec fn set_buffer_authority_instruction_of(
    buffer: solana_program::pubkey::Pubkey,
    current: solana_program::pubkey::Pubkey,
    new_authority: solana_program::pubkey::Pubkey,
) -> solana_program::instruction::Instruction;

/// The instruction that `bpf_loader_upgradeable::set_upgrade_authority`
/// builds for a new authority.
pub uninterp spec fn set_upgrade_authority_instruction_of(
    program: solana_program::pubkey::Pubkey,
    current: solana_program::pubkey::Pubkey,
    new_authority: solana_program::pubkey::Pubkey,
) -> solana_program::instruction::Instruction;

/// Relies on `UpgradeableLoaderState::size_of_programdata`: 45 bytes of
/// metadata plus the program, saturating.
#[verifier::external_body]
fn size_of_programdata(program_len: usize) -> (r: usize)
    ensures
        r == if 45 + program_len <= usize::MAX {
            45 + program_len
        } else {
            usize::MAX as int
        },
{
    solana_program::bpf_loader_upgradeable::UpgradeableLoaderState::size_of_programdata(
        program_len,
    )
}

/// Relies on `UpgradeableLoaderState::size_of_program`: 36 bytes.
#[verifier::external_body]
fn size_of_program() -> (r: usize)
    ensures
        r == 36,
{
    solana_program::bpf_loader_upgradeable::UpgradeableLoaderState::size_of_program()
}

/// Relies on `bpf_loader_upgradeable::create_buffer`, which always returns
/// two instructions: create the account, then initialize it as a buffer.
#[verifier::external_body]
fn create_buffer_instructions(
    payer: &solana_program::pubkey::Pubkey,
    buffer: &solana_program::pubkey::Pubkey,
    authority: &solana_program::pubkey::Pubkey,
    lamports: u64,
    program_len: usize,
) -> (r: Result<
    Vec<solana_program::instruction::Instruction>,
    solana_program::instruction::InstructionError,
>)
    ensures
        r is Ok && r->Ok_0@.len() == 2 && r->Ok_0@ == create_buffer_instructions_of(
            *payer,
            *buffer,
            *authority,
            lamports,
            program_len,
        ),
{
    solana_program::bpf_loader_upgradeable::create_buffer(
        payer,
        buffer,
        authority,
        lamports,
        program_len,
    )
}

/// Relies on `bpf_loader_upgradeable::deploy_with_max_program_len`, which
/// always returns two instructions: create the program account, then deploy.
#[verifier::external_body]
fn deploy_instructions(
    payer: &solana_program::pubkey::Pubkey,
    program: &solana_program::pubkey::Pubkey,
    buffer: &solana_program::pubkey::Pubkey,
    upgrade_authority: &solana_program::pubkey::Pubkey,
    lamports: u64,
    max_data_len: usize,
) -> (r: Result<
    Vec<solana_program::instruction::Instruction>,
    solana_program::instruction::InstructionError,
>)
    ensures
        r is Ok && r->Ok_0@.len() == 2 && r->Ok_0@ == deploy_instructions_of(
            *payer,
            *program,
            *buffer,
            *upgrade_authority,
            lamports,
            max_data_len,
        ),
{
    solana_program::bpf_loader_upgradeable::deploy_with_max_program_len(
        payer,
        program,
        buffer,
        upgrade_authority,
        lamports,
        max_data_len,
    )
}

/// Relies on `bpf_loader_upgradeable::set_buffer_authority`.
#[verifier::external_body]
fn set_buffer_authority_instruction(
    buffer: &solana_program::pubkey::Pubkey,
    current: &solana_program::pubkey::Pubkey,
    new_authority: &solana_program::pubkey::Pubkey,
) -> (r: solana_program::instruction::Instruction)
    ensures
        r == set_buffer_authority_instruction_of(*buffer, *current, *new_authority),
{
    solana_program::bpf_loader_upgradeable::set_buffer_authority(buffer, current, new_authority)
}

/// Relies on `bpf_loader_upgradeable::set_upgrade_authority`.
#[verifier::external_body]
fn set_upgrade_authority_instruction(
    program: &solana_program::pubkey::Pubkey,
    current: &solana_program::pubkey::Pubkey,
    new_authority: &solana_program::pubkey::Pubkey,
) -> (r: solana_program::instruction::Instruction)
    ensures
        r == set_upgrade_authority_instruction_of(*program, *current, *new_authority),
{
    solana_program::bpf_loader_upgradeable::set_upgrade_authority(
        program,
        current,
        Some(new_authority),
    )
}

/// The account size whose rent-exempt balance an allocated buffer holds:
/// the program-data size of the program, 45 bytes more, saturating.
pub fn buffer_rent_size(program_len: usize) -> (r: usize)
    ensures
        r == if 45 + program_len <= usize::MAX {
            45 + program_len
        } else {
            usize::MAX as int
        },
{
    size_of_programdata(program_len)
}

/// The size of a program account, whose rent-exempt balance deploying pays.
pub fn program_rent_size() -> (r: usize)
    ensures
        r == 36,
{
    size_of_program()
}

/// The allocate phase of a program upload: create a buffer of `program_len`
/// bytes funded with `lamports`, writable by `authority`.
pub fn create_buffer(
    payer: &solana_program::pubkey::Pubkey,
    buffer: &solana_program::pubkey::Pubkey,
    authority: &solana_program::pubkey::Pubkey,
    lamports: u64,
    program_len: usize,
) -> (r: Result<Vec<solana_program::instruction::Instruction>, Error>)
    ensures
        r is Ok && r->Ok_0@ == create_buffer_instructions_of(
            *payer,
            *buffer,
            *authority,
            lamports,
            program_len,
        ),
        r is Ok && r->Ok_0@.len() == 2,
{
    match create_buffer_instructions(payer, buffer, authority, lamports, program_len) {
        Ok(instructions) => Ok(instructions),
        Err(e) => Err(Error::InstructionError(e)),
    }
}

/// The finalize phase of a program upload: deploy the buffer as `program`,
/// upgradeable by the payer, with room for `max_data_len` bytes.
pub fn deploy(
    payer: &solana_program::pubkey::Pubkey,
    program: &solana_program::pubkey::Pubkey,
    buffer: &solana_program::pubkey::Pubkey,
    lamports: u64,
    max_data_len: usize,
) -> (r: Result<Vec<solana_program::instruction::Instruction>, Error>)
    ensures
        r is Ok && r->Ok_0@ == deploy_instructions_of(
            *payer,
            *program,
            *buffer,
            *payer,
            lamports,
            max_data_len,
        ),
        r is Ok && r->Ok_0@.len() == 2,
{
    match deploy_instructions(payer, program, buffer, payer, lamports, max_data_len) {
        Ok(instructions) => Ok(instructions),
        Err(e) => Err(Error::InstructionError(e)),
    }
}

/// Hands a buffer's write authority from `current` to `new_authority`.
pub fn set_buffer_authority(
    buffer: &solana_program::pubkey::Pubkey,
    current: &solana_program::pubkey::Pubkey,
    new_authority: &solana_program::pubkey::Pubkey,
) -> (r: Vec<solana_program::instruction::Instruction>)
    ensures
        r@ == seq![set_buffer_authority_instruction_of(*buffer, *current, *new_authority)],
{
    vec![set_buffer_authority_instruction(buffer, current, new_authority)]
}

/// The authority phase of a program upload: hands the program's upgrade
/// authority from `current` to `new_authority`.
pub fn set_program_authority(
    program: &solana_program::pubkey::Pubkey,
    current: &solana_program::pubkey::Pubkey,
    new_authority: &solana_program::pubkey::Pubkey,
) -> (r: Vec<solana_program::instruction::Instruction>)
    ensures
        r@ == seq![set_upgrade_authority_instruction_of(*program, *current, *new_authority)],
{
    vec![set_upgrade_authority_instruction(program, current, new_authority)]
}

} // verus!
