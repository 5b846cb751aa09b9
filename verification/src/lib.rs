//! Core logic of an identity-lifecycle and user-profile service: the codec
//! between profile records and their stored attribute-map shape, the
//! reconciliation decisions made on account confirmation, the profile API's
//! routing and response rules, and the outbound message selection.
//!
//! All network and store traffic stays outside this crate; these modules work
//! on plain values handed in by the caller and state their behaviour in
//! contracts.

pub mod api;
pub mod attr;
pub mod codec;
pub mod json;
pub mod message;
pub mod reconcile;
pub mod types;
