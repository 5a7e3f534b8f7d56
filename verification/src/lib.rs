//! A controller core for a label printer driven over a serial-over-radio
//! link: address resolution from layered configuration sources, the
//! preview decision, and the preview-confirm-send session state machine
//! with dry-run support.

pub mod addr;
pub mod config;
pub mod directory;
pub mod preview;
pub mod resolve;
pub mod session;
