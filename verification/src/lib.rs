//! A verified core for registering chat-capable language models.
//!
//! The crate covers two pieces of a model runtime:
//!
//! * dispatching a model descriptor plus secret parameters to exactly one
//!   provider-specific adapter plan, enforcing each provider's parameter
//!   contract, and
//! * the decorator policy applied to every chat request and response:
//!   system-prompt injection, default-parameter backfill, forced streaming
//!   usage accounting, and rewriting the reported model identity.
//!
//! The crate validates and plans; performing network or file I/O against a
//! provider is left to unverified callers, which receive plain data from the
//! functions here.

pub mod descriptor;
pub mod dispatch;
pub mod error;
pub mod numeric;
pub mod params;
pub mod providers;
pub mod request;
pub mod response;
pub mod source;
pub mod text;
pub mod values;
pub mod wrapper;
