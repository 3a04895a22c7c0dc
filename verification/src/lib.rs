//! Core logic of a network-attached echo appliance.
//!
//! The appliance joins a wireless network, serves a single-port TCP echo
//! service one connection at a time, renders received text onto a scrolling
//! display log, and reflects its phase through two binary indicator outputs.
//!
//! This crate holds the verified core: the join retry state machine
//! ([`join::NetworkJoinManager`]), the per-connection echo session
//! ([`session::EchoSession`]), the scrolling display log
//! ([`display::DisplayLog`]), the indicator mapping
//! ([`indicator::IndicatorController`]), and the top-level service driver
//! ([`service::ServiceLoop`]). The hardware collaborators — radio, network
//! stack, display panel, output pins — perform I/O only: a host program runs
//! the blocking calls and feeds their outcomes back in as events, while every
//! decision is made here.

use vstd::prelude::*;

pub mod display;
pub mod indicator;
pub mod join;
pub mod service;
pub mod session;

verus! {

/// TCP port the echo service listens on.
pub const ECHO_PORT: u16 = 31337;

/// Idle timeout, in seconds, for both the accept call and each read call.
pub const IDLE_TIMEOUT_SECS: u64 = 10;

/// Size, in bytes, of the socket scratch buffer; no single read returns more.
pub const SOCKET_BUFFER_BYTES: usize = 4096;

/// Height of one text line on the display, in display units.
pub const LINE_HEIGHT: u32 = 15;

/// Largest cursor line position at which a line may still be drawn; a cursor
/// beyond it triggers a clear before the next draw.
pub const MAX_LINE_POSITION: u32 = 220;

/// Cursor line position right after a clear, and at start-up.
pub const INITIAL_LINE_OFFSET: u32 = 0;

/// Width and height of the square display surface, in display units.
pub const DISPLAY_EXTENT: u32 = 240;

} // verus!
