//! Discovery and repair planning for installed instances of a toolchain host.
//!
//! The crate models the host's setup objects as plain data records, decodes
//! their tagged-union values and wide strings, classifies installed optional
//! components, selects the best installation candidate under a three-key
//! order and plans the repair of a missing compiler toolset or platform SDK.
//! A driver that speaks the foreign object protocol builds the records and
//! performs the planned actions; every decision in between is verified here.

pub mod arrays;
pub mod defs;
pub mod install;
pub mod select;
pub mod setup;
pub mod text;
pub mod wide;
pub mod workflow;

pub use arrays::SafeArray;
pub use defs::FILETIME;
pub use defs::HResult;
pub use defs::InstanceState;
pub use defs::SAFEARRAYBOUND;
pub use defs::VARIANT;
pub use defs::Variant;
pub use install::Msvc;
pub use install::Product;
pub use install::Sdk;
pub use install::VisualStudio;
pub use setup::EnumSetupInstances;
pub use setup::SetupConfiguration;
pub use setup::SetupInstance;
pub use setup::SetupPackageReference;
pub use setup::SetupProductReference;
pub use setup::SetupPropertyStore;
pub use wide::WideStr;
