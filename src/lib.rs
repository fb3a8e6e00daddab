//! Userland services of a capability-secured i.MX6 board: a persistent
//! key/value storage service over SPI NOR flash, the UART serial port, and
//! small network value types.

pub mod error;
pub mod flash;
pub mod flash_controller;
pub mod key_hash;
pub mod net_types;
pub mod serial;
pub mod service;
pub mod text;

pub use error::{ErrorCode, SuccessCode};
pub use flash::{HwError, NorFlash, RamNorFlash, ERASED_BYTE, PAGE_SIZE, REGION_SIZE};
pub use flash_controller::SpiNorFlashController;
pub use key_hash::{get_hashed_key, main_key_hash};
pub use net_types::{EthernetAddress, Ipv4Address, Port};
pub use serial::{terminal_bytes, Event, Reg, RegisterBlock, Serial, UartRegisters};
pub use service::{engine_command, hash_key, reply, EngineCommand, EngineOutcome, Request, Response};
pub use text::{BoundedText, Key, TextError, Value, MAX_KEY_SIZE, MAX_VALUE_SIZE};
