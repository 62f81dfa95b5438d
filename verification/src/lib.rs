pub mod boot;
pub mod dap_leds;
pub mod flash;
pub mod flash_standalone;
pub mod session;
pub mod swj;
