use esp_hal::descriptor::Owner;
use esp_hal::dma::DmaChannel;
use esp_hal::error::Error;
use esp_hal::spi::{Address, Command, Spi, SpiDataMode, SpiMode};
use esp_hal::target::MemoryTarget;
use esp_hal::transfer::{Transfer, TransferStatus};

fn master() -> Spi {
    Spi::new_half_duplex(100_000, SpiMode::Mode0, 80_000_000)
        .ok()
        .unwrap()
        .with_pins(Some(4), Some(6), Some(5), Some(7), Some(8), Some(9))
        .with_dma(DmaChannel::configure(0, false, 8, 8, 0))
}

fn finish(mut t: Transfer) -> (Spi, Vec<u8>, Vec<u8>) {
    assert_eq!(t.poll(t.tx_active, t.rx_active, 0), TransferStatus::Complete);
    t.wait().ok().unwrap()
}

#[test]
fn slave_loopback_receives_master_pattern() {
    let n = 32000;
    let mut master_send: Vec<u8> = (0..n).map(|j| (j % 255) as u8).collect();
    let mut spi = Spi::new(6, 7, 2, 10, SpiMode::Mode0).with_dma(DmaChannel::configure(0, false, 8, 8, 0));
    let mut slave_receive = vec![0xffu8; n];
    for i in 0u8..4 {
        master_send[0] = i;
        master_send[n - 1] = i;
        slave_receive.fill(0xff);
        let mut t = spi.dma_read(slave_receive, 1_000).ok().unwrap();
        assert!(t.rx_active && !t.tx_active);
        for chunk in master_send.chunks(4092) {
            assert_eq!(t.poll(false, false, 0), TransferStatus::InProgress);
            t.deliver_rx(chunk);
        }
        assert_eq!(t.received, n);
        assert_eq!(t.poll(false, false, 0), TransferStatus::Complete);
        let (back, _, rx) = t.wait().ok().unwrap();
        spi = back;
        slave_receive = rx;
        assert_eq!(slave_receive[0], i);
        assert_eq!(slave_receive[n - 1], i);
        assert_eq!(&slave_receive[1..n - 1], &master_send[1..n - 1]);
    }
}

#[test]
fn extra_received_bytes_are_dropped() {
    let spi = Spi::new(6, 7, 2, 10, SpiMode::Mode0).with_dma(DmaChannel::configure(0, false, 1, 1, 0));
    let mut t = spi.dma_read(vec![0u8; 4], 10).ok().unwrap();
    t.deliver_rx(&[1, 2]);
    assert!(!t.rx_eof);
    t.deliver_rx(&[3, 4, 5, 6]);
    assert!(t.rx_eof);
    assert_eq!(t.rx_buffer, vec![1, 2, 3, 4]);
}

#[test]
fn quad_write_then_read_round_trips_through_target() {
    let mut flash = MemoryTarget::new(4096);
    let mut send = vec![b'!'; 256];
    send[..5].copy_from_slice(b"Hello");
    let spi = master();
    let t = spi
        .write(
            SpiDataMode::Quad,
            Command::Command8(0x32, SpiDataMode::Single),
            Address::Address24(0x000000, SpiDataMode::Single),
            0,
            send.clone(),
            100,
        )
        .ok()
        .unwrap();
    assert_eq!(flash.write(Address::Address24(0x000000, SpiDataMode::Single), &t.tx_buffer), Ok(()));
    let (spi, sent, _) = finish(t);
    assert_eq!(sent, send);

    let read_addr = Address::Address32(0x000000 << 8, SpiDataMode::Quad);
    let mut t = spi
        .read(SpiDataMode::Quad, Command::Command8(0xeb, SpiDataMode::Single), read_addr, 4, vec![0u8; 256], 100)
        .ok()
        .unwrap();
    let answer = flash.read(read_addr, 256).unwrap();
    t.deliver_rx(&answer);
    let (_, _, receive) = finish(t);
    assert_eq!(receive, send);
}

#[test]
fn target_refuses_frames_past_its_end() {
    let mut flash = MemoryTarget::new(16);
    let a = Address::Address24(10, SpiDataMode::Single);
    assert_eq!(flash.write(a, &[0u8; 7]), Err(Error::ConfigurationError));
    assert_eq!(flash.read(a, 7), Err(Error::ConfigurationError));
    assert_eq!(flash.write(a, &[1u8; 6]), Ok(()));
    assert_eq!(flash.read(a, 6), Ok(vec![1u8; 6]));
    assert_eq!(flash.read(Address::Address24(0, SpiDataMode::Single), 2), Ok(vec![0xff, 0xff]));
}

#[test]
fn full_duplex_completes_only_when_both_chains_end() {
    let spi = Spi::new(6, 7, 2, 10, SpiMode::Mode0).with_dma(DmaChannel::configure(2, false, 8, 8, 1));
    let tx: Vec<u8> = (0..100u8).collect();
    let mut t = spi.dma_transfer(tx.clone(), vec![0u8; 100], 50).ok().unwrap();
    assert!(t.spi.dma.as_ref().unwrap().busy);
    assert_eq!(t.spi.dma.as_ref().unwrap().rx_descriptors[0].owner, Owner::Dma);
    assert_eq!(t.spi.dma.as_ref().unwrap().tx_chain_len, 1);
    assert_eq!(t.spi.dma.as_ref().unwrap().rx_chain_len, 1);
    assert_eq!(t.poll(true, false, 10), TransferStatus::InProgress);
    assert_eq!(t.poll(false, true, 10), TransferStatus::Complete);
    let (spi, back, _) = t.wait().ok().unwrap();
    assert_eq!(back, tx);
    let ch = spi.dma.as_ref().unwrap();
    assert!(!ch.busy);
    assert_eq!(ch.tx_chain_len, 0);
    assert!(ch.tx_descriptors.iter().chain(ch.rx_descriptors.iter()).all(|d| d.owner == Owner::Cpu));
    assert_eq!(ch.rx_descriptors[0].length, 100);
}

#[test]
fn stalled_transfer_times_out_and_keeps_channel_busy() {
    let spi = master();
    let mut t = spi
        .write(SpiDataMode::Single, Command::Command8(0x06, SpiDataMode::Single), Address::Empty, 0, vec![1, 2, 3], 100)
        .ok()
        .unwrap();
    assert_eq!(t.poll(false, false, 99), TransferStatus::InProgress);
    assert_eq!(t.poll(false, false, 100), TransferStatus::TimedOut);
    let rejected = t.wait().err().unwrap();
    assert_eq!(rejected.error, Error::Timeout);
    assert_eq!(rejected.tx_buffer, vec![1, 2, 3]);
    let again = rejected
        .spi
        .write(SpiDataMode::Single, Command::Command8(0x06, SpiDataMode::Single), Address::Empty, 0, vec![], 100);
    let rejected = again.err().unwrap();
    assert_eq!(rejected.error, Error::ResourceBusy);
}

#[test]
fn write_with_empty_buffer_has_no_data_chain() {
    let t = master()
        .write(SpiDataMode::Single, Command::Command8(0x06, SpiDataMode::Single), Address::Empty, 0, vec![], 100)
        .ok()
        .unwrap();
    assert!(!t.tx_active && !t.rx_active);
    let (spi, _, _) = finish(t);
    assert!(!spi.dma.unwrap().busy);
}

#[test]
fn starts_that_cannot_run_are_refused() {
    let no_dma = Spi::new_half_duplex(100_000, SpiMode::Mode0, 80_000_000).ok().unwrap();
    let r = no_dma.write(SpiDataMode::Single, Command::Empty, Address::Empty, 0, vec![1], 10);
    assert_eq!(r.err().unwrap().error, Error::ConfigurationError);

    let dual_only = Spi::new_half_duplex(100_000, SpiMode::Mode0, 80_000_000)
        .ok()
        .unwrap()
        .with_pins(Some(4), Some(6), Some(5), None, None, Some(9))
        .with_dma(DmaChannel::configure(0, false, 8, 8, 0));
    let r = dual_only.read(SpiDataMode::Quad, Command::Empty, Address::Empty, 0, vec![0u8; 4], 10);
    let rejected = r.err().unwrap();
    assert_eq!(rejected.error, Error::ConfigurationError);
    assert_eq!(rejected.rx_buffer.len(), 4);

    let r = master().dma_read(vec![0u8; 4], 10);
    assert_eq!(r.err().unwrap().error, Error::ConfigurationError);

    let slave = Spi::new(6, 7, 2, 10, SpiMode::Mode0).with_dma(DmaChannel::configure(0, false, 1, 1, 0));
    let r = slave.dma_write(vec![], 10);
    let rejected = r.err().unwrap();
    assert_eq!(rejected.error, Error::ConfigurationError);
    let r = rejected.spi.dma_write(vec![0u8; 5000], 10);
    let rejected = r.err().unwrap();
    assert_eq!(rejected.error, Error::ConfigurationError);
    assert!(!rejected.spi.dma.unwrap().busy);
}
