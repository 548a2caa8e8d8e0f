//! Configuration types for converting SVG drawings into G-Code, together with
//! the versioning rules that keep stored settings compatible across releases.

mod lexicographic;
mod settings;
mod version;

pub use settings::{
    MachineConfig, MachineConfigView, PostprocessConfig, Settings, SettingsView,
    SupportedFunctionality,
};
pub use version::{Version, VersionView};
