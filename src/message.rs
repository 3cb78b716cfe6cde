//! Write messages: how much payload one signed message can carry, and the
//! messages that carry a payload's plan.
use vstd::prelude::*;

use crate::chunk::{WriteUnit, capacity, is_plan_of, lemma_planned_units_fit, max_chunk_size, plan};
use crate::error::Error;

verus! {

#[verifier::external_type_specification]
#[verifier::external_body]
pub struct ExMessage(solana_program::message::Message);

#[verifier::external_type_specification]
#[verifier::external_body]
pub struct ExInstruction(solana_program::instruction::Instruction);

#[verifier::external_type_specification]
#[verifier::external_body]
pub struct ExPubkey(solana_program::pubkey::Pubkey);

#[verifier::external_type_specification]
#[verifier::external_body]
pub struct ExHash(solana_program::hash::Hash);

/// Relies on `solana_sdk::packet::PACKET_DATA_SIZE`: a transaction packet
/// carries at most 1232 bytes.
#[verifier::external_body]
fn packet_data_size() -> (r: usize)
    ensures
        r == 1232,
{
    solana_sdk::packet::PACKET_DATA_SIZE
}

/// Size in bytes of a transaction holding `message` and one signature slot
/// per required signer, as `bincode::serialized_size` gives it.
pub uninterp spec fn signed_size_of(message: solana_program::message::Message) -> Option<u64>;

/// The message that writes `bytes` at `offset` into `buffer`, as
/// `bpf_loader_upgradeable::write` and `Message::new_with_blockhash` build it.
pub uninterp spec fn buffer_write_message_of(
    buffer: solana_program::pubkey::Pubkey,
    authority: solana_program::pubkey::Pubkey,
    blockhash: solana_program::hash::Hash,
    offset: u32,
    bytes: Seq<u8>,
) -> solana_program::message::Message;

/// Relies on `bincode::serialized_size`: the size of a transaction holding
/// `message` and one default signature per required signer.
#[verifier::external_body]
fn signed_size(message: &solana_program::message::Message) -> (r: Option<u64>)
    ensures
        r == signed_size_of(*message),
{
    let signatures = vec![
        solana_sdk::signature::Signature::default();
        message.header.num_required_signatures as usize
    ];
    let transaction = solana_sdk::transaction::Transaction { signatures, message: message.clone() };
    bincode::serialized_size(&transaction).ok()
}

/// Relies on `solana_program::bpf_loader_upgradeable::write`, put into one
/// message by `Message::new_with_blockhash`, paid by `authority`. The write
/// instruction names two accounts besides the loader, so compiling the
/// message's keys cannot overflow.
#[verifier::external_body]
fn buffer_write_message(
    buffer: &solana_program::pubkey::Pubkey,
    authority: &solana_program::pubkey::Pubkey,
    blockhash: &solana_program::hash::Hash,
    offset: u32,
    bytes: Vec<u8>,
) -> (r: solana_program::message::Message)
    ensures
        r == buffer_write_message_of(*buffer, *authority, *blockhash, offset, bytes@),
{
    let instruction = solana_program::bpf_loader_upgradeable::write(buffer, authority, offset, bytes);
    solana_program::message::Message::new_with_blockhash(&[instruction], Some(authority), blockhash)
}

/// Largest payload of a packet-sized signed write message.
pub open spec fn packet_capacity(baseline: nat) -> nat {
    capacity(1232, baseline)
}

/// Payload capacity of write messages whose zero-payload form is `message`:
/// the packet limit less its signed size less one byte; zero when nothing
/// fits or it cannot be measured.
pub open spec fn message_capacity(message: solana_program::message::Message) -> nat {
    match signed_size_of(message) {
        Some(n) => packet_capacity(n as nat),
        None => 0,
    }
}

/// `message` is what `create_msg` builds for offset zero and no payload.
pub open spec fn is_baseline<F: Fn(u32, Vec<u8>) -> solana_program::message::Message>(
    create_msg: &F,
    message: solana_program::message::Message,
) -> bool {
    exists|empty: Vec<u8>| empty@.len() == 0 && create_msg.ensures((0u32, empty), message)
}

/// Builds the zero-payload message once and measures its capacity.
fn measure_capacity<F>(create_msg: &F) -> (r: (usize, Ghost<solana_program::message::Message>)) where
    F: Fn(u32, Vec<u8>) -> solana_program::message::Message,

    requires
        forall|offset: u32, bytes: Vec<u8>| create_msg.requires((offset, bytes)),
    ensures
        is_baseline(create_msg, r.1@),
        r.0 == message_capacity(r.1@),
{
    let empty: Vec<u8> = Vec::new();
    let ghost sent = empty;
    let baseline = create_msg(0, empty);
    assert(sent@.len() == 0 && create_msg.ensures((0u32, sent), baseline));
    let c = match signed_size(&baseline) {
        Some(n) => {
            if n <= usize::MAX as u64 {
                max_chunk_size(packet_data_size(), n as usize)
            } else {
                0
            }
        },
        None => 0,
    };
    (c, Ghost(baseline))
}

/// The payload capacity of the messages that `create_msg` builds: it builds
/// the zero-payload message, measures it signed, and leaves the packet limit
/// less that size less one byte; zero when nothing fits or it cannot be
/// measured.
pub fn calculate_max_chunk_size<F>(create_msg: &F) -> (r: usize) where
    F: Fn(u32, Vec<u8>) -> solana_program::message::Message,

    requires
        forall|offset: u32, bytes: Vec<u8>| create_msg.requires((offset, bytes)),
    ensures
        exists|baseline: solana_program::message::Message|
            is_baseline(create_msg, baseline) && r == message_capacity(baseline),
{
    let (c, Ghost(baseline)) = measure_capacity(create_msg);
    c
}

/// `message` is a message that `create_msg` builds for `unit`.
pub open spec fn message_for<F: Fn(u32, Vec<u8>) -> solana_program::message::Message>(
    create_msg: &F,
    unit: WriteUnit,
    message: solana_program::message::Message,
) -> bool {
    exists|bytes: Vec<u8>| bytes@ == unit.bytes@ && create_msg.ensures((unit.offset, bytes), message)
}

/// `messages` are the messages that `create_msg` builds for `units`, one per
/// unit and in order.
pub open spec fn messages_for<F: Fn(u32, Vec<u8>) -> solana_program::message::Message>(
    create_msg: &F,
    units: Seq<WriteUnit>,
    messages: Seq<solana_program::message::Message>,
) -> bool {
    &&& messages.len() == units.len()
    &&& forall|i: int| 0 <= i < units.len() ==> message_for(create_msg, #[trigger] units[i], messages[i])
}

/// Builds one message per write unit.
pub fn build_messages<F>(create_msg: &F, units: &Vec<WriteUnit>) -> (r: Vec<
    solana_program::message::Message,
>) where F: Fn(u32, Vec<u8>) -> solana_program::message::Message,

    requires
        forall|offset: u32, bytes: Vec<u8>| create_msg.requires((offset, bytes)),
    ensures
        messages_for(create_msg, units@, r@),
{
    let mut messages: Vec<solana_program::message::Message> = Vec::new();
    let mut i: usize = 0;
    while i < units.len()
        invariant
            i <= units@.len(),
            forall|offset: u32, bytes: Vec<u8>| create_msg.requires((offset, bytes)),
            messages_for(create_msg, units@.subrange(0, i as int), messages@),
        decreases units@.len() - i,
    {
        let bytes = units[i].bytes.clone();
        let ghost sent = bytes;
        let ghost before = messages@;
        let message = create_msg(units[i].offset, bytes);
        assert(create_msg.ensures((units@[i as int].offset, sent), message));
        messages.push(message);
        proof {
            let done = units@.subrange(0, i + 1);
            let prev = units@.subrange(0, i as int);
            assert(messages@[i as int] == message);
            assert(message_for(create_msg, units@[i as int], message));
            assert forall|k: int| 0 <= k < done.len() implies message_for(
                create_msg,
                #[trigger] done[k],
                messages@[k],
            ) by {
                assert(done[k] == units@[k]);
                if k < i {
                    assert(prev[k] == units@[k]);
                    assert(messages@[k] == before[k]);
                }
            }
        }
        i = i + 1;
    }
    assert(units@.subrange(0, units@.len() as int) =~= units@);
    messages
}

/// The plan of one upload and the messages that carry it.
pub struct WriteBatch {
    pub chunk_size: usize,
    pub units: Vec<WriteUnit>,
    pub messages: Vec<solana_program::message::Message>,
}

/// What `plan_messages` owes for a zero-payload message `baseline`: a batch
/// at its capacity exactly when that capacity is positive, else the
/// configuration error.
pub open spec fn batch_for<F: Fn(u32, Vec<u8>) -> solana_program::message::Message>(
    create_msg: &F,
    payload: Seq<u8>,
    baseline: solana_program::message::Message,
    r: Result<WriteBatch, Error>,
) -> bool {
    match r {
        Ok(batch) => {
            &&& message_capacity(baseline) > 0
            &&& batch.chunk_size == message_capacity(baseline)
            &&& is_plan_of(batch.units@, payload, batch.chunk_size as nat)
            &&& messages_for(create_msg, batch.units@, batch.messages@)
        },
        Err(e) => message_capacity(baseline) == 0 && e is ChunkCapacity,
    }
}

/// Plans `payload` at the largest chunk size that the messages of
/// `create_msg` allow, and builds one message per unit. It is a
/// configuration error when a message leaves no room for payload.
pub fn plan_messages<F>(create_msg: &F, payload: &[u8]) -> (r: Result<WriteBatch, Error>) where
    F: Fn(u32, Vec<u8>) -> solana_program::message::Message,

    requires
        forall|offset: u32, bytes: Vec<u8>| create_msg.requires((offset, bytes)),
        payload@.len() <= u32::MAX,
    ensures
        exists|baseline: solana_program::message::Message|
            is_baseline(create_msg, baseline) && batch_for(create_msg, payload@, baseline, r),
{
    let (chunk_size, Ghost(baseline)) = measure_capacity(create_msg);
    if chunk_size == 0 {
        let r = Err(Error::ChunkCapacity);
        assert(batch_for(create_msg, payload@, baseline, r));
        return r;
    }
    let units = plan(payload, chunk_size);
    let messages = build_messages(create_msg, &units);
    let r = Ok(WriteBatch { chunk_size, units, messages });
    assert(batch_for(create_msg, payload@, baseline, r));
    r
}

/// Every message of a planned batch fits in one packet, provided the
/// template is representative: each of its messages, signed, is at most its
/// payload plus one byte longer than the zero-payload message.
pub proof fn lemma_batch_fits_packet<F: Fn(u32, Vec<u8>) -> solana_program::message::Message>(
    create_msg: &F,
    payload: Seq<u8>,
    baseline: solana_program::message::Message,
    batch: WriteBatch,
)
    requires
        payload.len() <= u32::MAX,
        batch_for(create_msg, payload, baseline, Ok(batch)),
        signed_size_of(baseline) is Some,
        forall|i: int|
            0 <= i < batch.messages@.len() ==> (#[trigger] signed_size_of(batch.messages@[i])) is Some
                && signed_size_of(batch.messages@[i])->0 <= signed_size_of(baseline)->0
                + batch.units@[i].bytes@.len() + 1,
    ensures
        forall|i: int|
            0 <= i < batch.messages@.len() ==> (#[trigger] signed_size_of(batch.messages@[i]))->0
                <= 1232,
{
    let n = signed_size_of(baseline)->0 as nat;
    lemma_planned_units_fit(batch.units@, payload, 1232, n);
    assert forall|i: int| 0 <= i < batch.messages@.len() implies (#[trigger] signed_size_of(
        batch.messages@[i],
    ))->0 <= 1232 by {
        assert(n + batch.units@[i].bytes@.len() + 1 <= 1232);
    }
}

/// The write messages of a program buffer upload: `program_data` in
/// offset-addressed chunks, each written by `authority` and paid by it.
/// It succeeds exactly when the zero-payload write message leaves room for
/// payload, and then message `i` writes unit `i`'s bytes at its offset.
pub fn write_buffer(
    buffer: &solana_program::pubkey::Pubkey,
    authority: &solana_program::pubkey::Pubkey,
    blockhash: &solana_program::hash::Hash,
    program_data: &[u8],
) -> (r: Result<WriteBatch, Error>)
    requires
        program_data@.len() <= u32::MAX,
    ensures
        ({
            let baseline = buffer_write_message_of(*buffer, *authority, *blockhash, 0, seq![]);
            match r {
                Ok(batch) => {
                    &&& message_capacity(baseline) > 0
                    &&& batch.chunk_size == message_capacity(baseline)
                    &&& is_plan_of(batch.units@, program_data@, batch.chunk_size as nat)
                    &&& batch.messages@.len() == batch.units@.len()
                    &&& forall|i: int|
                        0 <= i < batch.units@.len() ==> batch.messages@[i]
                            == buffer_write_message_of(
                            *buffer,
                            *authority,
                            *blockhash,
                            (#[trigger] batch.units@[i]).offset,
                            batch.units@[i].bytes@,
                        )
                },
                Err(e) => message_capacity(baseline) == 0 && e is ChunkCapacity,
            }
        }),
{
    let create_msg = |offset: u32, bytes: Vec<u8>| -> (m: solana_program::message::Message)
        ensures
            m == buffer_write_message_of(*buffer, *authority, *blockhash, offset, bytes@),
        { buffer_write_message(buffer, authority, blockhash, offset, bytes) };
    let r = plan_messages(&create_msg, program_data);
    proof {
        let baseline = choose|baseline: solana_program::message::Message|
            is_baseline(&create_msg, baseline) && batch_for(&create_msg, program_data@, baseline, r);
        let empty = choose|empty: Vec<u8>|
            empty@.len() == 0 && create_msg.ensures((0u32, empty), baseline);
        assert(empty@ =~= seq![]);
        if r is Ok {
            let batch = r->Ok_0;
            assert forall|i: int| 0 <= i < batch.units@.len() implies batch.messages@[i]
                == buffer_write_message_of(
                *buffer,
                *authority,
                *blockhash,
                (#[trigger] batch.units@[i]).offset,
                batch.units@[i].bytes@,
            ) by {
                assert(message_for(&create_msg, batch.units@[i], batch.messages@[i]));
            }
        }
    }
    r
}

} // verus!
