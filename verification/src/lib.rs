//! A Matter controller's logic for logging sensor values to InfluxDB: which attributes are read,
//! how their values are interpreted, how InfluxDB points are built from them, and how the web
//! dashboard's forms and errors are handled.

pub mod attribute_values;
pub mod config;
pub mod controllers;
pub mod errors;
pub mod influxdb;
pub mod matter;
pub mod text;
pub mod unit;
