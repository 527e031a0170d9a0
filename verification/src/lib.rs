//! Sans-I/O core of a build helper for kernel-tracing (BPF) programs.
//!
//! The crate decides; a driver performs.  Every operation that touches the
//! file system, spawns a process or talks to the compiler is described by an
//! [`Action`](protocol::Action) value, and its outcome comes back as a
//! [`Report`](protocol::Report).  What is proved here is the protocol: which
//! action follows which report, and how every run ends.
//!
//! - [`target`]: the programs of a build and the files that belong to each;
//! - [`arch`]: the kernel's names for the architectures of the build tool;
//! - [`headers`]: the run that acquires the kernel type headers;
//! - [`builder`]: the run that builds one program;
//! - [`publish`]: the run that publishes a generated binding under an alias;
//! - [`protocol`]: actions, reports and steps;
//! - [`text`]: the handling of text that the rest needs;
//! - [`laws`]: what holds of every run, proved.

pub mod arch;
pub mod builder;
pub mod headers;
pub mod laws;
pub mod protocol;
pub mod publish;
pub mod target;
pub mod text;
