//! The SDIF controller as a card host device.

pub mod consts;
pub mod sdif_device;
