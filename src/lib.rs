//! An on-chain echo program: plain and authorized writes into program-owned
//! buffers, and creation of price-tagged vending-machine buffers at derived
//! addresses, with the byte layouts, address checks and write bounds proved.

pub mod address;
pub mod buffer;
pub mod codec;
pub mod error;
pub mod mint;
pub mod processor;

pub use codec::{
    AuthorizedBufferHeader, EchoInstruction, VendingMachineBufferHeader,
    AUTH_BUFFER_HEADER_SIZE, VENDING_MACHINE_HEADER_SIZE,
};
pub use error::ProcessError;
pub use processor::{Account, Action, CreateAccountRequest, Processor};
