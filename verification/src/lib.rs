//! A safety layer in front of a reference-counted, message-passing object
//! runtime. A selector's textual *family* (`new`, `alloc`, `init`, `copy`,
//! `mutableCopy`) determines the retain-count contract of a message send;
//! this crate classifies selectors, dispatches sends with the retain/release
//! bookkeeping the family demands, reports null results with an attributable
//! message, and cross-checks protocol conformance while a class is built.
//!
//! The object store itself is modelled by [`runtime::Runtime`], a
//! deterministic in-process model of reference-counted objects against which
//! every retain-count obligation is stated and proved.

pub mod conformance;
pub mod dispatch;
pub mod encoding;
pub mod family;
pub mod handles;
pub mod module_info;
pub mod multi;
pub mod report;
pub mod runtime;
pub mod sel;

pub use family::in_selector_family;
pub use family::retain_semantics;
pub use sel::alloc_sel;
pub use sel::init_sel;
pub use sel::new_sel;
pub use sel::Sel;
