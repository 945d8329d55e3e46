//! Lifecycle supervision for a locally hosted background agent.
//!
//! A desktop shell hosts an agent process and offers a few host
//! capabilities to its embedded user interface. This crate holds the
//! decisions of that shell: how a session token is minted, where the
//! agent's entry point is looked for, in which order the supervisor
//! probes, locates, spawns and terminates, what is forwarded of a
//! deep-link activation, and how raw host samples become metrics.
//!
//! Nothing here touches the operating system. The caller performs each
//! action the library asks for and reports what happened as a plain value.

pub mod deeplink;
pub mod launch;
pub mod locator;
pub mod metrics;
pub mod supervisor;
pub mod token;
