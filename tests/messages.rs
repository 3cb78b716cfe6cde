use solana_cli::message::{calculate_max_chunk_size, plan_messages, write_buffer};
use solana_program::message::Message;
use solana_program::pubkey::Pubkey;
use solana_sdk::signature::Signature;
use solana_sdk::transaction::Transaction;

fn signed_size(message: &Message) -> usize {
    let tx = Transaction {
        signatures: vec![Signature::default(); message.header.num_required_signatures as usize],
        message: message.clone(),
    };
    bincode::serialized_size(&tx).unwrap() as usize
}

fn write_message(buffer: Pubkey, payer: Pubkey, offset: u32, bytes: Vec<u8>) -> Message {
    let ix = solana_program::bpf_loader_upgradeable::write(&buffer, &payer, offset, bytes);
    Message::new_with_blockhash(&[ix], Some(&payer), &solana_program::hash::Hash::default())
}

#[test]
fn chunk_size_is_packet_less_baseline_less_one() {
    let buffer = Pubkey::new_from_array([1; 32]);
    let payer = Pubkey::new_from_array([2; 32]);
    let create = |offset: u32, bytes: Vec<u8>| write_message(buffer, payer, offset, bytes);
    let baseline = signed_size(&create(0, Vec::new()));
    let size = calculate_max_chunk_size(&create);
    assert_eq!(size, solana_sdk::packet::PACKET_DATA_SIZE - baseline - 1);
    assert!(size > 0);
}

#[test]
fn every_planned_message_fits_a_packet() {
    let buffer = Pubkey::new_from_array([1; 32]);
    let payer = Pubkey::new_from_array([2; 32]);
    let data: Vec<u8> = (0..5000u32).map(|i| (i % 256) as u8).collect();
    let batch = write_buffer(&buffer, &payer, &solana_program::hash::Hash::default(), &data).unwrap();
    assert_eq!(batch.units.len(), (data.len() + batch.chunk_size - 1) / batch.chunk_size);
    assert_eq!(batch.messages.len(), batch.units.len());
    for m in &batch.messages {
        assert!(signed_size(m) <= solana_sdk::packet::PACKET_DATA_SIZE);
    }
    let full = batch.units.iter().filter(|u| u.bytes.len() == batch.chunk_size).count();
    assert!(full >= batch.units.len() - 1);
}

#[test]
fn messages_follow_the_units() {
    let buffer = Pubkey::new_from_array([1; 32]);
    let payer = Pubkey::new_from_array([2; 32]);
    let data = vec![7u8; 3000];
    let batch = write_buffer(&buffer, &payer, &solana_program::hash::Hash::default(), &data).unwrap();
    for (u, m) in batch.units.iter().zip(&batch.messages) {
        assert_eq!(m, &write_message(buffer, payer, u.offset, u.bytes.clone()));
    }
}

#[test]
fn oversized_template_is_a_configuration_error() {
    let payer = Pubkey::new_from_array([2; 32]);
    let create = |offset: u32, _bytes: Vec<u8>| {
        let buffer = Pubkey::new_from_array([1; 32]);
        let ix = solana_program::bpf_loader_upgradeable::write(&buffer, &payer, offset, vec![0; 1300]);
        Message::new_with_blockhash(&[ix], Some(&payer), &solana_program::hash::Hash::default())
    };
    assert_eq!(calculate_max_chunk_size(&create), 0);
    let r = plan_messages(&create, &[1, 2, 3]);
    assert!(matches!(r, Err(solana_cli::error::Error::ChunkCapacity)));
}

#[test]
fn empty_program_gives_empty_batch() {
    let buffer = Pubkey::new_from_array([1; 32]);
    let payer = Pubkey::new_from_array([2; 32]);
    let batch = write_buffer(&buffer, &payer, &solana_program::hash::Hash::default(), &[]).unwrap();
    assert!(batch.units.is_empty());
    assert!(batch.messages.is_empty());
    let baseline = write_message(buffer, payer, 0, Vec::new());
    assert_eq!(batch.chunk_size, solana_sdk::packet::PACKET_DATA_SIZE - signed_size(&baseline) - 1);
}
