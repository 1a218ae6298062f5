//! Data-interchange and capability-negotiation layer for a host/plugin
//! audio-plugin interface: a verified event codec over fixed-layout tagged
//! records, a time-ordered event list, and an extension negotiation registry.

pub mod events;
pub mod extensions;
pub mod list;
pub mod log;

pub use events::Event;
pub use events::EventType;
pub use extensions::ExtensionDescriptor;
pub use extensions::HostExtensions;
pub use list::EventList;
pub use log::Log;
pub use log::LogSeverity;
