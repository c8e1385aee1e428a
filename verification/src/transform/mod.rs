//! Mappings between SAPIENT messages and the mesh data model.

pub mod alert;
pub mod detection;
pub mod registration;
pub mod status;
pub mod task;
pub mod utm;
