//! Verified control core for a two-axis light-tracking stepper platform.
//!
//! The crate models each stepper axis as an angle-bounded state machine,
//! drives a hill-climbing / grid light search over two axes against a
//! scalar brightness capability, adapts a tracking schedule from observed
//! drift, and prepares the request/response payloads that a CoAP transport
//! carries.  Hardware access (pin phases, analog reads, sockets) enters
//! only through the `MotorDriver` and `Sensors` traits and through a small
//! set of trusted wrappers around `coap_lite`.

pub mod coap;
pub mod command;
pub mod lighttracking;
pub mod motor;
pub mod search;
pub mod tracking;
