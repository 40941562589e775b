//! Verified core logic of the Ultimate-NAG52 transmission controller:
//! lookup tables and interpolation, TLE8242 SPI message layouts,
//! ISO-TP framing, diagnostic services, storage layouts and the
//! host-side flashing protocol.
pub mod maths;
pub mod int_lookup;
pub mod isotp;
pub mod usb_link;
pub mod defmt_output;
pub mod bitfield;
pub mod tle_commands;
pub mod memory_map;
pub mod section_info;
pub mod panic_info;
pub mod boot;
pub mod kwp;
pub mod flasher;
pub mod flash_image;
pub mod elf_input;
pub mod tle8242;
pub mod solenoids;
pub mod tcc_sol;
pub mod sensors;
pub mod gearbox;
pub mod diag_server;
pub mod eeprom;
pub mod ram_test;
pub mod calibration;
pub mod text;
pub mod candb;
