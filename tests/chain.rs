use esp_hal::descriptor::{build_chain, Descriptor, Owner, MAX_CHUNK_SIZE};
use esp_hal::dma::DmaChannel;
use esp_hal::error::Error;

fn pool(n: usize) -> Vec<Descriptor> {
    (0..n).map(|_| Descriptor::empty()).collect()
}

fn is_free(d: &Descriptor) -> bool {
    d.offset == 0 && d.length == 0 && d.owner == Owner::Cpu && !d.suc_eof && d.next.is_none()
}

#[test]
fn chain_for_large_buffer_has_ceiling_count() {
    let mut slots = pool(10);
    let k = build_chain(&mut slots, 32000, MAX_CHUNK_SIZE, false).unwrap();
    assert_eq!(k, 8);
    let mut total: usize = 0;
    for (i, d) in slots[..k].iter().enumerate() {
        assert_eq!(d.offset, i * MAX_CHUNK_SIZE);
        assert!(d.length as usize <= MAX_CHUNK_SIZE);
        assert_eq!(d.owner, Owner::Dma);
        assert_eq!(d.suc_eof, i == k - 1);
        total += d.length as usize;
    }
    assert_eq!(total, 32000);
    assert_eq!(slots[7].length, 3356);
    assert_eq!(slots[6].next, Some(7));
    assert_eq!(slots[7].next, None);
    assert!(is_free(&slots[8]) && is_free(&slots[9]));
}

#[test]
fn chain_for_exact_multiple_ends_with_full_chunk() {
    let mut slots = pool(2);
    assert_eq!(build_chain(&mut slots, 2 * MAX_CHUNK_SIZE, MAX_CHUNK_SIZE, false), Ok(2));
    assert_eq!(slots[0].length as usize, MAX_CHUNK_SIZE);
    assert_eq!(slots[1].length as usize, MAX_CHUNK_SIZE);
    assert!(!slots[0].suc_eof && slots[1].suc_eof);
}

#[test]
fn chain_with_small_chunks() {
    let mut slots = pool(4);
    assert_eq!(build_chain(&mut slots, 10, 3, false), Ok(4));
    let lengths: Vec<u16> = slots.iter().map(|d| d.length).collect();
    assert_eq!(lengths, vec![3, 3, 3, 1]);
    let offsets: Vec<usize> = slots.iter().map(|d| d.offset).collect();
    assert_eq!(offsets, vec![0, 3, 6, 9]);
    let eofs: Vec<bool> = slots.iter().map(|d| d.suc_eof).collect();
    assert_eq!(eofs, vec![false, false, false, true]);
}

#[test]
fn chain_for_empty_buffer_is_empty() {
    let mut slots = pool(2);
    assert_eq!(build_chain(&mut slots, 0, MAX_CHUNK_SIZE, false), Ok(0));
    assert!(slots.iter().all(is_free));
}

#[test]
fn circular_chain_links_back_to_first() {
    let mut slots = pool(3);
    assert_eq!(build_chain(&mut slots, 5000, MAX_CHUNK_SIZE, true), Ok(2));
    assert_eq!(slots[0].next, Some(1));
    assert_eq!(slots[1].next, Some(0));
    assert!(slots[1].suc_eof);
    assert!(is_free(&slots[2]));
}

#[test]
fn too_few_slots_leave_no_partial_chain() {
    let mut slots = pool(3);
    assert_eq!(build_chain(&mut slots, 32000, MAX_CHUNK_SIZE, false), Err(Error::ConfigurationError));
    assert!(slots.iter().all(is_free));
    let mut none = pool(0);
    assert_eq!(build_chain(&mut none, 1, MAX_CHUNK_SIZE, false), Err(Error::ConfigurationError));
}

#[test]
fn chunk_size_out_of_range_is_refused() {
    let mut slots = pool(4);
    assert_eq!(build_chain(&mut slots, 10, 0, false), Err(Error::ConfigurationError));
    assert_eq!(build_chain(&mut slots, 10, MAX_CHUNK_SIZE + 1, false), Err(Error::ConfigurationError));
    assert!(slots.iter().all(is_free));
}

#[test]
fn channel_binds_each_direction_from_its_own_pool() {
    let mut ch = DmaChannel::configure(0, false, 8, 2, 0);
    assert_eq!(ch.tx_descriptors.len(), 8);
    assert_eq!(ch.rx_descriptors.len(), 2);
    assert_eq!(ch.bind_tx(32000), Ok(8));
    assert_eq!(ch.tx_chain_len, 8);
    assert_eq!(ch.bind_rx(32000), Err(Error::ConfigurationError));
    assert_eq!(ch.rx_chain_len, 0);
    assert!(ch.rx_descriptors.iter().all(is_free));
    assert_eq!(ch.bind_rx(5000), Ok(2));
    assert_eq!(ch.rx_descriptors[1].length, 5000 - 4092);
}

#[test]
fn channel_refuses_empty_buffer_and_busy_state() {
    let mut ch = DmaChannel::configure(1, false, 4, 4, 3);
    assert_eq!(ch.bind_tx(0), Err(Error::ConfigurationError));
    ch.busy = true;
    assert_eq!(ch.bind_tx(100), Err(Error::ResourceBusy));
    assert_eq!(ch.bind_rx(100), Err(Error::ResourceBusy));
    assert!(ch.tx_descriptors.iter().all(is_free));
}
