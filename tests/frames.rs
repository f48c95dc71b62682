use esp_hal::error::Error;
use esp_hal::spi::SpiDataMode::{Quad, Single};
use esp_hal::fifo::{pack_fifo, unpack_fifo, FIFO_DEPTH};
use esp_hal::spi::{
    clock_divider, encode_phases, frame_cycles, Address, Command, Direction, Pins, Spi, SpiDataMode, SpiMode, MAX_CLOCK_DIVIDER,
};

fn mode_ctrl(m: SpiDataMode, dual: u32, quad: u32) -> u32 {
    match m {
        SpiDataMode::Single => 0,
        SpiDataMode::Dual => 1 << dual,
        SpiDataMode::Quad => 1 << quad,
    }
}

#[test]
fn line_modes_land_in_their_own_fields() {
    // (command, address, data) -> control register of a read frame
    let table: [(SpiDataMode, SpiDataMode, SpiDataMode, u32); 8] = [
        (Single, Single, Single, 0x0000_0000),
        (Single, Single, Quad, 0x0000_8000),
        (Single, Quad, Single, 0x0000_0040),
        (Single, Quad, Quad, 0x0000_8040),
        (Quad, Single, Single, 0x0000_0200),
        (Quad, Single, Quad, 0x0000_8200),
        (Quad, Quad, Single, 0x0000_0240),
        (Quad, Quad, Quad, 0x0000_8240),
    ];
    for (c, a, d, ctrl) in table {
        let r = encode_phases(d, Command::Command8(0x9f, c), Address::Address24(0x10, a), 0, Direction::Read);
        assert_eq!(r.ctrl, ctrl);
        assert_eq!(r.ctrl, mode_ctrl(c, 8, 9) | mode_ctrl(a, 5, 6) | mode_ctrl(d, 14, 15));
    }
    let dual = encode_phases(
        SpiDataMode::Dual,
        Command::Command8(0x3b, SpiDataMode::Dual),
        Address::Address24(0, SpiDataMode::Dual),
        0,
        Direction::Read,
    );
    assert_eq!(dual.ctrl, 0x0000_4120);
}

#[test]
fn quad_write_frame_registers() {
    let r = encode_phases(
        SpiDataMode::Quad,
        Command::Command8(0x32, SpiDataMode::Single),
        Address::Address24(0x000123, SpiDataMode::Single),
        0,
        Direction::Write,
    );
    assert_eq!(r.ctrl, 0);
    assert_eq!(r.user, (1 << 31) | (1 << 30) | (1 << 27) | (1 << 13));
    assert_eq!(r.user1, 23 << 27);
    assert_eq!(r.user2, (7 << 28) | 0x32);
    assert_eq!(r.addr, 0x123);
}

#[test]
fn fast_read_frame_with_dummy_cycles() {
    let r = encode_phases(
        SpiDataMode::Quad,
        Command::Command8(0xeb, SpiDataMode::Single),
        Address::Address32(0x000000 << 8, SpiDataMode::Quad),
        4,
        Direction::Read,
    );
    assert_eq!(r.ctrl, (1 << 6) | (1 << 15));
    assert_eq!(r.user, (1 << 31) | (1 << 30) | (1 << 29) | (1 << 28));
    assert_eq!(r.user1, (31 << 27) | 3);
    assert_eq!(r.user2, (7 << 28) | 0xeb);
}

#[test]
fn empty_phases_are_left_out() {
    let r = encode_phases(SpiDataMode::Single, Command::Empty, Address::Empty, 0, Direction::Write);
    assert_eq!(r.user, 1 << 27);
    assert_eq!(r.user1, 0);
    assert_eq!(r.user2, 0);
    assert_eq!(Command::Empty.width(), 0);
    assert_eq!(Address::Empty.width(), 0);
    assert_eq!(Address::Address24(5, SpiDataMode::Dual).width(), 24);
    assert_eq!(Address::Address32(5, SpiDataMode::Dual).mode(), SpiDataMode::Dual);
    assert_eq!(Command::Command8(0x06, SpiDataMode::Quad).value(), 0x06);
}

#[test]
fn divider_never_exceeds_requested_rate() {
    assert_eq!(clock_divider(80_000_000, 100_000), Ok(800));
    assert_eq!(clock_divider(80_000_000, 3_000_000), Ok(27));
    assert_eq!(clock_divider(80_000_000, 80_000_000), Ok(1));
    assert_eq!(clock_divider(80_000_000, 100_000_000), Ok(1));
    assert_eq!(clock_divider(80_000_000, 0), Err(Error::ConfigurationError));
    assert_eq!(clock_divider(80_000_000, 100), Err(Error::ConfigurationError));
    assert_eq!(clock_divider(MAX_CLOCK_DIVIDER, 1), Ok(MAX_CLOCK_DIVIDER));
    let spi = Spi::new_half_duplex(100_000, SpiMode::Mode0, 80_000_000).ok().unwrap();
    assert_eq!(spi.clock_divider, 800);
    assert_eq!(spi.pins, Pins::none());
    assert!(Spi::new_half_duplex(0, SpiMode::Mode0, 80_000_000).is_err());
}

#[test]
fn fifo_words_round_trip() {
    let data = [1u8, 2, 3, 4, 5];
    let words = pack_fifo(&data);
    assert_eq!(words, vec![0x0403_0201, 0x0000_0005]);
    assert_eq!(unpack_fifo(&words, 5), data.to_vec());
    let full: Vec<u8> = (0..FIFO_DEPTH as u32).map(|i| (i * 7) as u8).collect();
    let words = pack_fifo(&full);
    assert_eq!(words.len(), 16);
    assert_eq!(unpack_fifo(&words, FIFO_DEPTH), full);
    assert!(pack_fifo(&[]).is_empty());
}

#[test]
fn fifo_frame_checks_depth_role_and_lines() {
    let spi = Spi::new_half_duplex(1_000_000, SpiMode::Mode0, 80_000_000)
        .ok()
        .unwrap()
        .with_pins(Some(1), Some(2), Some(3), None, None, Some(4));
    let cmd = Command::Command8(0x9f, SpiDataMode::Single);
    assert!(spi.fifo_read_frame(SpiDataMode::Single, cmd, Address::Empty, 0, FIFO_DEPTH).is_ok());
    assert_eq!(spi.fifo_read_frame(SpiDataMode::Single, cmd, Address::Empty, 0, FIFO_DEPTH + 1), Err(Error::FifoOverflow));
    assert_eq!(spi.fifo_read_frame(SpiDataMode::Quad, cmd, Address::Empty, 0, 3), Err(Error::ConfigurationError));
    assert!(spi.fifo_read_frame(SpiDataMode::Dual, cmd, Address::Empty, 0, 3).is_ok());
    let slave = Spi::new(6, 7, 2, 10, SpiMode::Mode0);
    assert_eq!(slave.fifo_read_frame(SpiDataMode::Single, cmd, Address::Empty, 0, 3), Err(Error::ConfigurationError));
}

#[test]
fn frame_length_counts_each_phase_over_its_lines() {
    let fast_read = frame_cycles(
        SpiDataMode::Quad,
        Command::Command8(0xeb, SpiDataMode::Single),
        Address::Address32(0, SpiDataMode::Quad),
        4,
        256,
    );
    assert_eq!(fast_read, 8 + 8 + 4 + 512);
    assert_eq!(frame_cycles(SpiDataMode::Single, Command::Empty, Address::Empty, 0, 3), 24);
    assert_eq!(
        frame_cycles(SpiDataMode::Dual, Command::Empty, Address::Address24(0, SpiDataMode::Dual), 0, 1),
        12 + 4
    );
    assert_eq!(frame_cycles(SpiDataMode::Single, Command::Empty, Address::Empty, 0, 0), 0);
}
