//! The proposal record: a round's relay set, its validation, its canonical
//! byte encoding.
use vstd::prelude::*;

use crate::error::Error;

verus! {

#[verifier::external_type_specification]
#[verifier::external_body]
pub struct ExFromHexError(hex::FromHexError);

/// A proposed relay round.
#[derive(Clone, Debug, PartialEq, Eq)]
pub struct ProposalRecord {
    pub round_number: u32,
    pub relays: Vec<[u8; 32]>,
    pub round_end: u32,
}

pub open spec fn is_hex_digit(c: char) -> bool {
    ('0' <= c && c <= '9') || ('a' <= c && c <= 'f') || ('A' <= c && c <= 'F')
}

pub open spec fn hex_value(c: char) -> nat {
    if '0' <= c && c <= '9' {
        (c as nat - '0' as nat) as nat
    } else if 'a' <= c && c <= 'f' {
        (c as nat - 'a' as nat + 10) as nat
    } else {
        (c as nat - 'A' as nat + 10) as nat
    }
}

/// `text` is an even number of hexadecimal digits.
pub open spec fn is_hex(text: Seq<char>) -> bool {
    text.len() % 2 == 0 && forall|i: int| 0 <= i < text.len() ==> is_hex_digit(#[trigger] text[i])
}

/// The bytes that hexadecimal `text` spells, high digit first.
pub open spec fn hex_bytes(text: Seq<char>) -> Seq<u8> {
    Seq::new(
        text.len() / 2,
        |i: int| (hex_value(text[2 * i]) * 16 + hex_value(text[2 * i + 1])) as u8,
    )
}

/// Relies on `hex::decode`: an even number of hexadecimal digits (either
/// case) decodes to one byte per pair; any other text is an error.
#[verifier::external_body]
fn decode_hex(text: &str) -> (r: Result<Vec<u8>, hex::FromHexError>)
    ensures
        r is Ok <==> is_hex(text@),
        r is Ok ==> r->Ok_0@ == hex_bytes(text@),
{
    hex::decode(text)
}

/// `x` as `width` bytes, least significant first.
pub open spec fn le_bytes(x: nat, width: nat) -> Seq<u8>
    decreases width,
{
    if width == 0 {
        seq![]
    } else {
        seq![(x % 256) as u8] + le_bytes(x / 256, (width - 1) as nat)
    }
}

/// The relays' bytes, one after another.
pub open spec fn relays_bytes(relays: Seq<[u8; 32]>) -> Seq<u8>
    decreases relays.len(),
{
    if relays.len() == 0 {
        seq![]
    } else {
        relays_bytes(relays.drop_last()) + relays.last()@
    }
}

/// The canonical encoding of a record: the round number, the relay count and
/// the round end as little-endian 32-bit integers, with the relays' bytes
/// between count and round end.
pub open spec fn record_bytes(round_number: u32, relays: Seq<[u8; 32]>, round_end: u32) -> Seq<u8> {
    le_bytes(round_number as nat, 4) + le_bytes(relays.len(), 4) + relays_bytes(relays) + le_bytes(
        round_end as nat,
        4,
    )
}

impl ProposalRecord {
    /// The relay count fits the encoding's 32-bit length prefix.
    pub open spec fn wf(&self) -> bool {
        self.relays@.len() <= u32::MAX
    }

    /// A record, if the relay set's size is within `[min_relays, max_relays]`,
    /// the bounds that the round loader program sets.
    pub fn new(
        round_number: u32,
        relays: Vec<[u8; 32]>,
        round_end: u32,
        min_relays: usize,
        max_relays: usize,
    ) -> (r: Result<ProposalRecord, Error>)
        requires
            min_relays <= max_relays <= u32::MAX,
        ensures
            (min_relays <= relays@.len() <= max_relays) ==> r == Ok::<ProposalRecord, Error>(
                ProposalRecord { round_number, relays, round_end },
            ),
            !(min_relays <= relays@.len() <= max_relays) ==> r is Err && r->Err_0 is RelayCount
                && r->Err_0->RelayCount_0 == relays@.len(),
    {
        let n = relays.len();
        if n < min_relays || n > max_relays {
            Err(Error::RelayCount(n))
        } else {
            Ok(ProposalRecord { round_number, relays, round_end })
        }
    }

    /// The record's canonical encoding.
    pub fn serialize(&self) -> (r: Vec<u8>)
        requires
            self.wf(),
        ensures
            r@ == record_bytes(self.round_number, self.relays@, self.round_end),
    {
        let mut out: Vec<u8> = Vec::new();
        push_le(&mut out, self.round_number as u64, 4);
        push_le(&mut out, self.relays.len() as u64, 4);
        let ghost head = out@;
        let mut i: usize = 0;
        while i < self.relays.len()
            invariant
                i <= self.relays@.len(),
                out@ == head + relays_bytes(self.relays@.subrange(0, i as int)),
            decreases self.relays@.len() - i,
        {
            let relay: &[u8; 32] = &self.relays[i];
            let ghost before = out@;
            let mut j: usize = 0;
            while j < 32
                invariant
                    j <= 32,
                    out@ == before + relay@.subrange(0, j as int),
                decreases 32 - j,
            {
                out.push(relay[j]);
                assert(out@ =~= before + relay@.subrange(0, j + 1));
                j = j + 1;
            }
            assert(self.relays@.subrange(0, i + 1).drop_last() =~= self.relays@.subrange(
                0,
                i as int,
            ));
            assert(relay@.subrange(0, 32) =~= relay@);
            assert(out@ =~= head + relays_bytes(self.relays@.subrange(0, i + 1)));
            i = i + 1;
        }
        assert(self.relays@.subrange(0, self.relays@.len() as int) =~= self.relays@);
        push_le(&mut out, self.round_end as u64, 4);
        assert(out@ =~= record_bytes(self.round_number, self.relays@, self.round_end));
        out
    }
}

/// Appends `x` as `width` little-endian bytes.
fn push_le(out: &mut Vec<u8>, x: u64, width: usize)
    ensures
        final(out)@ == old(out)@ + le_bytes(x as nat, width as nat),
    decreases width,
{
    if width > 0 {
        let ghost before = out@;
        out.push((x % 256) as u8);
        push_le(out, x / 256, width - 1);
        assert(final(out)@ =~= before + le_bytes(x as nat, width as nat));
    }
}

/// Validates the relay set and encodes the record; a relay set of the wrong
/// size is rejected before any encoding.
pub fn serialize_proposal(
    round_number: u32,
    relays: Vec<[u8; 32]>,
    round_end: u32,
    min_relays: usize,
    max_relays: usize,
) -> (r: Result<Vec<u8>, Error>)
    requires
        min_relays <= max_relays <= u32::MAX,
    ensures
        (min_relays <= relays@.len() <= max_relays) ==> r is Ok && r->Ok_0@ == record_bytes(
            round_number,
            relays@,
            round_end,
        ),
        !(min_relays <= relays@.len() <= max_relays) ==> r is Err && r->Err_0 is RelayCount
            && r->Err_0->RelayCount_0 == relays@.len(),
{
    match ProposalRecord::new(round_number, relays, round_end, min_relays, max_relays) {
        Ok(record) => Ok(record.serialize()),
        Err(e) => Err(e),
    }
}

/// Reads a 32-byte identity written as 64 hexadecimal digits.
pub fn parse_identity(text: &str) -> (r: Result<[u8; 32], Error>)
    ensures
        !is_hex(text@) ==> r is Err && r->Err_0 is InvalidHex,
        is_hex(text@) && hex_bytes(text@).len() != 32 ==> r is Err && r->Err_0
            is InvalidIdentityLength && r->Err_0->InvalidIdentityLength_0 == hex_bytes(
            text@,
        ).len(),
        is_hex(text@) && hex_bytes(text@).len() == 32 ==> r is Ok && r->Ok_0@ == hex_bytes(
            text@,
        ),
{
    match decode_hex(text) {
        Err(e) => Err(Error::InvalidHex(e)),
        Ok(bytes) => {
            if bytes.len() != 32 {
                Err(Error::InvalidIdentityLength(bytes.len()))
            } else {
                let mut id: [u8; 32] = [0u8; 32];
                let mut i: usize = 0;
                while i < 32
                    invariant
                        i <= 32,
                        bytes@.len() == 32,
                        forall|k: int| 0 <= k < i ==> id@[k] == bytes@[k],
                    decreases 32 - i,
                {
                    id[i] = bytes[i];
                    i = i + 1;
                }
                assert(id@ =~= bytes@);
                Ok(id)
            }
        },
    }
}

} // verus!
