//! A bridge that exposes one long-lived wallet session to a foreign host
//! through a narrow textual call surface.
//!
//! The bridge owns a single session slot ([`store::SessionStore`]), builds and
//! tears sessions down through an explicit lifecycle protocol
//! ([`lifecycle`]), and routes textual commands either synchronously or as
//! detached background work ([`dispatch`]). The wallet client itself is an
//! external collaborator: the host performs its calls and feeds the outcomes
//! back as events, while every decision the bridge makes is verified here.

pub mod commands;
pub mod dispatch;
pub mod error;
pub mod laws;
pub mod lifecycle;
pub mod store;
