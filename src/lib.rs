//! Error taxonomy and error-response rendering for a geographic-reference
//! service, with the decision logic of its city and route accessors.
pub mod city;
pub mod error;
pub mod ids;
pub mod route;
