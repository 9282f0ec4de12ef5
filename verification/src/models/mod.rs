//! Request and response types of the Nordnet API.

pub mod countries;
pub mod instruments;
pub mod login;
pub mod main_search;
pub mod markets;
pub mod orders;
pub mod shared;
pub mod tradables;
