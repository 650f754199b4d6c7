//! The module-info record that 32-bit images of the object runtime carry.
//!
//! The record is four 32-bit words: a fixed version, the record's own size,
//! and the image addresses of the module name and of the symbol table. The
//! addresses are plain words of the image format, not live pointers.

use vstd::prelude::*;

verus! {

/// The record version the loader expects.
const MODULE_INFO_VERSION: u32 = 7;

/// The record's own size in the image: four 32-bit words.
const MODULE_INFO_SIZE: u32 = 16;

/// A module-info record of a 32-bit image.
pub struct ModuleInfo {
    pub version: u32,
    pub size: u32,
    pub name: u32,
    pub symtab: u32,
}

impl ModuleInfo {
    /// A record for the given module-name address, with the fixed version
    /// and size, and no symbol table — no symbols are exposed.
    pub fn new(name: u32) -> (r: ModuleInfo)
        ensures
            r.version == 7,
            r.size == 16,
            r.name == name,
            r.symtab == 0,
    {
        ModuleInfo { version: MODULE_INFO_VERSION, size: MODULE_INFO_SIZE, name, symtab: 0 }
    }
}

} // verus!
