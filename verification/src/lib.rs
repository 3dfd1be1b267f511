//! Backend logic of a desktop application shell: a greeting command, the
//! responses of the sidecar-start command, and the relay rules that turn a
//! sidecar process's channel events into outward front-end events.

pub mod greeting;
pub mod numeral;
pub mod sidecar;

