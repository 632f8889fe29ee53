//! A small backend for a desktop shell: a greeting formatter and the
//! validation and classification logic of a constrained HTTP GET fetcher.
//!
//! The fetcher's decisions live here, verified: URL validation (parse, then a
//! scheme allow-list), classification of a response by its status code, and
//! the exact wording of every error the fetcher can report. The network call
//! itself is I/O and stays with the caller, which feeds its outcome back in.

pub mod decimal;
pub mod fetch;
pub mod greeting;
