//! Save-memory devices behind the cartridge window.

pub mod eeprom;
