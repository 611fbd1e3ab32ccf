//! The digital representation of one control unit ("RTU") and its devices.
//!
//! The RTU model is the single source of truth for desired and last-known
//! hardware state.  It is generated once from the configuration file at
//! startup and thereafter lives only in the hub's shared store.  The word
//! "RTU" names both the physical box on the rig and this in-memory state
//! object.

mod device;
mod rtu;
pub mod rtu_error;
pub mod validators;

pub use device::AnyState;
pub use device::BinaryState;
pub use device::Controller;
pub use device::Device;
pub use device::DeviceView;
pub use device::clone_devices;
pub use device::device_views;
pub use device::lemma_device_views_index;
pub use rtu::Ipv4;
pub use rtu::RTU;
pub use rtu::RtuView;
pub use rtu::find_by_id;
pub use rtu::lemma_find_by_id_first;
pub use rtu::lemma_find_by_id_none;
pub use rtu_error::RTUError;
