//! Verified core of the Hylarana screen-casting toolkit: media descriptions,
//! codec selection, frame layout, the LAN discovery registry, device tables,
//! message framing, request routing and configuration defaults.

pub mod platform;
pub mod text;
pub mod media;
pub mod codec;
pub mod frame;
pub mod transport;
pub mod capture;
pub mod sender;
pub mod player;
pub mod keyed;
pub mod net;
pub mod discovery;
pub mod devices;
pub mod manager;
pub mod router;
pub mod status;
pub mod paths;
pub mod desktop_config;
pub mod app_config;
pub mod peers;
pub mod window;
pub mod logger;
pub mod hylarana;
