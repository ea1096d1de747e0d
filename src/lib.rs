//! Service runtime of a blockchain node: artifact deployment, service
//! instances and transaction dispatch, together with the storage tuning
//! options the node consumes.

pub mod options;
pub mod keyed;
pub mod runtime;
