//! The replies of systemd's varlink interfaces that the collectors read,
//! as plain data. The transport lives outside the library.
pub mod machine_connector;
pub mod manager;
pub mod metrics;
pub mod network;
pub mod unit;
