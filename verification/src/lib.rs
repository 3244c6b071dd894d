//! Locates a process's main top-level window among everything the desktop
//! reports and centers it in its monitor's usable work area.
//!
//! The window system itself is reached by the surrounding application, which
//! hands each query's answer to this library as plain values: a scan of the
//! desktop becomes a list of [`candidate::WindowInfo`] records, a monitor
//! becomes a [`geometry::MonitorInfo`]. The library decides which window is
//! the main one ([`candidate::select_candidate`]), where it belongs
//! ([`center::center_request`]), and when to retry, give up or diagnose
//! ([`driver::RetryDriver`]).

pub mod candidate;
pub mod center;
pub mod driver;
pub mod geometry;
