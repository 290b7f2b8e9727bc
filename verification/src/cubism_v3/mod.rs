//! The `moc3` container: a preamble of tables that say where each column of
//! each entity category lies.

pub mod moc3;
