pub mod decode;
pub mod enrich;
pub mod metrics;
pub mod model;
pub mod store;
pub mod supervisor;
