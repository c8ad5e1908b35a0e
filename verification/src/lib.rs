//! A GTP-U user-plane packet mirror.
//!
//! The library recognizes an Ethernet / IPv4 / UDP / GTP-U layering in a
//! captured frame, strips the GTP-U tunnel header, and rebuilds the inner
//! payload as a fresh Ethernet frame addressed to a destination interface.
//! The capture and injection channels themselves live outside the library;
//! everything here works on plain byte sequences.

pub mod gtpu_pdu;
pub mod mirror;
