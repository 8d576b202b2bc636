//! Reconciliation engine for file-system requests: the resource model, the
//! phase machine that decides the next status, the driver's decisions on
//! persistence and requeueing, and the persisted status document.

pub mod model;
pub mod provider;
pub mod wire;
pub mod reconciler;
pub mod driver;
