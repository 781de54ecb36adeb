//! USB elements view components.

mod config;
mod device;
mod endpoint;
mod interface;

pub use config::USBConfigView;
pub use device::USBDeviceView;
pub use endpoint::USBEndpointView;
pub use interface::USBInterfaceView;
