//! The logind operations, their data and their D-Bus form.

pub mod types;
pub mod props;
pub mod call;
pub mod bus;
