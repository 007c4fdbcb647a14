//! Per-frame logic of a small VR demo: keyboard steering of a platform that
//! carries the XR rig, and desktop cameras that mirror the headset's eyes.
pub mod mirroring;
pub mod platform;
