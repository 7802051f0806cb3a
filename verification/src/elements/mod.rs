//! Elements.

pub mod h_list;
pub mod h_list_laws;
