//! Verified core of a dual-display board firmware.
//!
//! Three concerns carry the real invariants and are modelled here over plain
//! values: serialized access to the one shared two-wire bus ([`bus`]), the
//! lifecycle of the two display channels with a bounded retry budget
//! ([`channel`]), and the reset-persistent double-tap boot selector
//! ([`boot`]). Hardware effects (wire transfers, delays, the bootloader ROM
//! entry) are performed by the surrounding program, which hands their
//! outcomes in as plain values; every decision taken on those outcomes is
//! verified here.

pub mod boot;
pub mod bus;
pub mod channel;
