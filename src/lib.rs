//! Registry-side validation of package manifests and planning of the
//! bundled archive.
pub mod ident;
pub mod license;
pub mod exclude;
pub mod version;
pub mod manifest;
pub mod layout;
