//! Reading submitted actions.

pub mod credit;
pub mod credit_laws;
pub mod kinds;
pub mod lists;
pub mod notes;
pub mod notes_laws;
pub mod product;
pub mod product_laws;
pub mod registry;
pub mod registry_laws;
pub mod spelling;
