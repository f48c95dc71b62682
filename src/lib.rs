//! SPI master/slave transaction engine for a DMA-capable microcontroller
//! peripheral: descriptor chains, DMA channels, phase encoding, transfer
//! handles and the FIFO path, each with a verified contract.

pub mod error;
pub mod descriptor;
pub mod dma;
pub mod spi;
pub mod transfer;
pub mod fifo;
pub mod target;
