//! Session-bound user identity management.
//!
//! An [`Identity`](identity::Identity) is a verified subject reference whose
//! lifetime is tied to an underlying session: the subject id and the optional
//! login / last-visit timestamps are stored as session attributes, and every
//! accessor re-validates against the session, which may have been purged or
//! expired concurrently.

pub mod error;
pub mod identity;
pub mod laws;
pub mod sess;
pub mod state;
pub mod values;
