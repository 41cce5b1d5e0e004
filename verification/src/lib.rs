//! Inventory of the SPN infrastructure: resource models, URNs, datastore
//! key layout and the decisions the inventory service takes on its requests.
pub mod model;
pub mod text;
pub mod urn;
pub mod keys;
pub mod clock;
pub mod records;
pub mod creation;
pub mod store;
pub mod config;
pub mod loading;
