//! Core of an unattended radio-station appliance: level metering, on-air
//! detection, frame encoding and distribution, and the decision logic of the
//! streaming and recording sinks; also the screens of its front-panel
//! display and the checks on its stored configuration.

pub mod levels;
pub mod detector;
pub mod encoder;
pub mod distribution;
pub mod capture;
pub mod events;
pub mod streaming;
pub mod recording;
pub mod upload;
pub mod matrix_orbital;
pub mod screens;
pub mod config;
