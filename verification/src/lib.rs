//! Verified core of a terminal system monitor: cursor movement and text
//! effects, box layout, key input decoding, draw buffers, configuration
//! parsing, and the state that the collectors keep.
#![allow(non_snake_case, non_upper_case_globals, dead_code)]

pub mod text;
pub mod scan;
pub mod strmap;
pub mod config;
pub mod settings;
pub mod config_file;
pub mod brshtop_box;
pub mod procbox;
pub mod subbox;
pub mod membox;
pub mod netbox;
pub mod cpubox;
pub mod event;
pub mod key;
pub mod draw;
pub mod mv;
pub mod fx;
pub mod bench;
pub mod stats;
pub mod memcollect;
pub mod cpucollect;
pub mod collector;
pub mod netcollect;
pub mod init;
pub mod gradient;
pub mod nonblocking;
pub mod error;
pub mod laws;
