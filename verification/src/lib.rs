//! Structural layout engine for Windows Metadata (`.winmd`) images.
//!
//! A `.winmd` file is a minimal Portable Executable whose payload is CLI
//! metadata. This crate computes every offset, address and size of such an
//! image and serialises its headers, and proves that the cross-references
//! between them agree.
//!
//! The metadata itself arrives finished: the bytes of the four heaps, the
//! bit-vectors of the tables stream, its row counts and its encoded rows.
//! [`Winmd::new`] checks them, and [`Winmd::to_bytes`] gives the file.
pub mod codec;
pub mod layout;
pub mod dos;
pub mod pe;
pub mod optional_header;
pub mod cli;
pub mod metadata;
pub mod tables;
pub mod imports;
pub mod image;
pub mod winmd;
pub mod consistency;

pub use cli::CLIHeader;
pub use image::{Image, Measure, Sizes, WinmdError};
pub use layout::{
    plan_sections, Layout, LayoutError, PlannedSection, SectionNameError, SectionRequest,
};
pub use metadata::{MetadataRoot, MetadataRootError, StreamHeader};
pub use optional_header::PEOptHeader;
pub use pe::{COFFHeader, DataDirectory, ImageSectionHeader, ImportAddressTable};
pub use tables::{TablesError, TildeStream};
pub use winmd::{Options, Winmd};
