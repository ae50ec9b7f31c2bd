//! Minimal PE/COFF loader for 32-bit Windows XP-era executables.

pub mod header;
pub mod imports;
pub mod loader;


pub use header::{
    DataDirectory, DosHeader, FileHeader, OptionalHeader32, PeError, PeInfo, SectionHeader,
};

pub use imports::{ImportError, ImportedDll, ImportedFunction};
pub use loader::LoadedImage;
