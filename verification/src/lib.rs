//! Verified core of a duty-cycled temperature sensor node.
//!
//! The node periodically samples a digital thermometer over a shared
//! single-wire bus and reports the reading over a wireless link or the
//! local log. The modules here hold the decision logic of that cycle:
//! payload decoding, scratchpad validation, device selection, the radio
//! association state machine, the duty-cycle orchestration, and the
//! rendering of the report record. Hardware access (GPIO, radio driver,
//! sockets, deep sleep) lives outside the library and hands these
//! functions plain values.

pub mod duty_cycle;
pub mod radio;
pub mod report;
pub mod sensor;
pub mod temperature;
