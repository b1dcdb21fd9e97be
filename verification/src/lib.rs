//! SECS-I / HSMS transport state machines and the SECS-II runtime bookkeeping
//! around them, with their behaviour stated as Verus contracts.

pub mod common;
pub mod time;
pub mod bytes;
pub mod error;
pub mod secs1_block;
pub mod hsms;
pub mod hsms_session;
pub mod hsms_assembler;
pub mod hsms_transaction;
pub mod hsms_machine;
pub mod secs1_transfer;
pub mod secs1_machine;
pub mod keyed;
pub mod runtime;
pub mod runtime_shared;
pub mod hsms_transport;
pub mod web_source;
