//! A tip jar: one shared record that anyone may pay into and that only its
//! owner may draw from, down to the reserve the custody system keeps.

pub mod key;
pub mod tipjar;
pub mod laws;
