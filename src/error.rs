//! The library's error type.
use vstd::prelude::*;


verus! {

#[derive(Debug)]
pub enum Error {
    /// The configuration text is not valid YAML.
    ConfigParseError(yaml_rust::ScanError),
    /// The configuration file could not be read.
    ConfigReadError(String),
    /// A required configuration field is missing or not a string.
    InvalidConfig(String),
    InvalidPubkey,
    InvalidProgramPath,
    /// The program file could not be opened.
    ProgramOpenError(String),
    /// The program file could not be read.
    ProgramReadError(String),
    /// The payload is longer than 32-bit offsets can address.
    PayloadTooLarge,
    /// The program path names no file.
    InvalidProgramFileName,
    KeypairReadError,
    KeypairWriteError,
    InvalidEventTimestamp,
    InvalidTransactionLt,
    InvalidConfiguration,
    InvalidRoundNumber,
    InvalidProposalRoundNumber,
    InvalidProposalRelays,
    /// A relay identity is not hexadecimal text.
    InvalidHex(hex::FromHexError),
    /// An identity is not 32 bytes long; it has this many.
    InvalidIdentityLength(usize),
    /// The relay set has this many members, outside the allowed range.
    RelayCount(usize),
    /// The operator-supplied program size overflows.
    ProgramSizeOverflow,
    /// A write message leaves no room for payload.
    ChunkCapacity,
    /// A write unit reaches past the end of the account.
    WriteOutOfBounds,
    /// An instruction could not be built.
    InstructionError(solana_program::instruction::InstructionError),
    /// This many write transactions failed.
    WriteTransactions(usize),
}

} // verus!
