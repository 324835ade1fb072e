//! Core of a fetcher for remote markdown documents: declarations are parsed
//! into source descriptors, each descriptor resolves to a fetch URL and a
//! deterministic output path under a per-repository root, and retrieval
//! follows a bounded exponential-backoff retry policy with per-dependency
//! failure isolation.

pub mod config;
pub mod decl;
pub mod dependency;
pub mod fetcher;
pub mod github;
pub mod strutil;
