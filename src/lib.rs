//! A status bar core: monitors produce text fragments, an aggregator keeps
//! the latest fragment of each monitor and renders them in a fixed order.
pub mod aggregator;
pub mod bar;
pub mod fragments;
pub mod monitor;
pub mod results;
pub mod search_path;
pub mod trigger;
