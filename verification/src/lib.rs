//! Discovery of build-tool projects on disk, aggregation of their dependency,
//! toolchain and license metadata, and supervision of build-tool runs.
//!
//! The library reads no files and starts no processes. A caller hands it what
//! it found on disk or what a process printed, and the library says what
//! follows from it: which projects a directory tree holds and to which
//! workspace each belongs, which dependencies, toolchains and licenses a set
//! of projects uses and where they disagree, and what is to be published
//! while a build tool runs.
//!
//! Every function states what it returns over the views of its arguments.
//! Where a result comes from the standard library's rules for paths or for
//! upper and lower case, or from a parser of TOML or JSON, the contract names
//! that result and says what is made of it.

// Text and sequences.
pub mod text;
pub mod edit;
pub mod split;
pub mod numbers;
pub mod casing;
pub mod seqs;
pub mod sorting;
pub mod groups;
pub mod paths;

// Formats.
pub mod document;
pub mod json;
pub mod xml;
pub mod junit;

// Projects and workspaces.
pub mod manifest;
pub mod discovery;
pub mod discovery_laws;
pub mod workspace;

// Analyses over many projects.
pub mod dependencies;
pub mod toolchains;
pub mod licenses;
pub mod order_laws;

// Runs of the build tool.
pub mod execution;
pub mod tasks;

// What the tools around a project report.
pub mod reports;
pub mod tools;
pub mod git;
pub mod ide;
pub mod homebrew;
pub mod search;
pub mod bloat;
pub mod config;
