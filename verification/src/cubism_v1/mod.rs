//! The `moc` container: a stream of tagged nodes.

pub mod moc;
