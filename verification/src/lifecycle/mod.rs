//! The certificate lifecycle of one domain: apply, publish the DNS
//! challenge, poll until the authority is ready, carry the certificate over
//! to the CDN's vendor where that is another account, bind it, clean up.
//!
//! The lifecycle makes no call itself. It is a state machine that is told
//! what came of the last action and answers with the next one; the caller
//! performs the actions, each in its own time.

pub mod laws;
pub mod machine;
pub mod model;

pub use machine::{auto_update_ssl, Action, Event, Lifecycle};
pub use model::{ActionView, Call, EventView, LifecycleView, Phase, Service, Stage};
