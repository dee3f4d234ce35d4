//! Single-invocation command sandbox: request validation, isolation planning,
//! supervised-execution decision logic, capture accounting, and response
//! assembly, with the platform calls kept at the edges.

pub mod capture;
pub mod cgroup;
pub mod cli;
pub mod clock;
pub mod config;
pub mod error;
pub mod fsplan;
pub mod hostprofile;
pub mod ident;
pub mod jsonout;
pub mod monitor;
pub mod namespaces;
pub mod procfs;
pub mod sandbox;
pub mod schema;
pub mod seccomp_policy;
pub mod supervisor;
pub mod textutil;
pub mod validation;
