//! Client core for the Bluetooth Low Energy Heart Rate Service.

pub mod bdaddr;
pub mod bleuuid;
pub mod controller;
pub mod hrm;
pub mod hrs_device;
pub mod locales;
pub mod text;
