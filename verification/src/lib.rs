//! Updater packaging for a desktop application.
//!
//! The last stage of a bundling pipeline takes the installers and
//! applications that were built and packs each into the archive that the
//! auto-update client downloads: a zip archive for Windows, a
//! gzip-compressed tar archive for macOS and Linux.
//!
//! This library holds the decisions and the encoding, and leaves the
//! filesystem to its caller:
//!
//! - [`plan::bundle_project`] decides, from the settings and the bundles,
//!   which archives to produce from which artifacts, or which installers
//!   have to be built first;
//! - [`locate::find_artifact`] selects the artifact to package;
//! - [`rewrite::rewrite`] says where the archive of a Windows installer
//!   goes;
//! - [`archive::create_zip`] and [`archive::create_tar`] turn the bytes
//!   that the caller read into the bytes of the archive.
//!
//! A path is a [`path::BundlePath`], the sequence of its components.

pub mod archive;
pub mod error;
pub mod locate;
pub mod model;
pub mod path;
pub mod plan;
pub mod rewrite;
pub mod text;
