//! Identity anchors: the devices bound to an anchor, the flow that adds a
//! new device behind a confirmation code, per-origin accounts, session
//! delegations, and admission to anchor creation.

pub mod accounts;
pub mod admission;
pub mod anchor;
pub mod authentication;
pub mod delegation;
pub mod devices;
pub mod registration;
pub mod search;
pub mod tentative;
pub mod types;
