pub mod onvif;
pub mod ptz;
pub mod text;
pub mod xml;
