//! Decision logic of a command-line notifier that plays a short chime when an
//! external tool reports an event: argument handling, the classification of the
//! event payload, the resolution of the volume preference, and the negotiation of
//! an output stream over a ladder of buffer sizes.
pub mod cli;
pub mod negotiation;
pub mod notification;
pub mod preferences;
