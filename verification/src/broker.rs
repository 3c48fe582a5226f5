//! The clients of brokerages.

pub mod charles_schwab;
