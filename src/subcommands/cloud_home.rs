//! Commands for an OECloud@Home installation: a Kubernetes cluster backed by flux and a
//! GitOps workflow.

pub mod add;
pub mod init;
