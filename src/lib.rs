//! Disk and virtual machine capacity limits, resolved from a cloud SKU
//! catalog, and the normalisation of sampled disk activity against them.

pub mod capability;
pub mod classify;
pub mod decimal;
pub mod device;
pub mod error;
pub mod imds;
pub mod kube;
pub mod limits;
pub mod metrics;
pub mod oauth;
pub mod resolve;
pub mod resource;
pub mod startup;
pub mod state;
pub mod text;
