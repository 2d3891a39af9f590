//! A permission broker for desktop privacy permissions.
//!
//! The broker decides, for five permission kinds (accessibility, full disk
//! access, screen recording, microphone, audio capture), whether a
//! capability is currently granted and what action a request for it should
//! take.  Every decision is a pure function of a *platform observation*: a
//! plain value that a thin platform layer gathers from the operating system
//! (an OS trust query, the listability of a probe directory, a media
//! authorization status) and hands in.  On a platform without these privacy
//! concepts the observation is absent and the broker reports every
//! permission as granted and every request as successful.

pub mod broker;
pub mod kind;
pub mod laws;
