//! Domain core of a newsletter service: the confirmation state machine for
//! subscribers and the confirmed-only newsletter dispatch pipeline.
pub mod subscriber;
pub mod token;
pub mod confirmation;
pub mod newsletter;
