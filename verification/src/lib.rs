//! Surgical linking of 64-bit little-endian ELF executables.
//!
//! A host executable that was linked against a placeholder shared library,
//! which stands for application code that is compiled later, is rewritten so
//! that the application can be embedded into it directly, without running a
//! system linker.
//!
//! There are two passes. Preprocessing (`preprocess`) analyzes the host once:
//! it finds the symbols that host and application share, the stubs of the
//! procedure linkage table and the instructions that call them, makes room
//! for new program headers, and writes everything down in the metadata
//! (`metadata`). Merging (`surgery`) runs for every build of the application:
//! it places the sections of the application behind the host, resolves their
//! relocations and patches every recorded call site.
//!
//! Both passes work on byte buffers. Records of the file format are read and
//! written field by field (`bytes`, `elf`, `table`); addresses that were
//! recorded before room was made are mapped to where they lie afterwards
//! (`shift`). What is read from object files through the `object` crate and
//! decoded by the `iced_x86` crate enters as plain values (`reader`,
//! `object_file`, `preprocess::disasm`).

pub mod align;
pub mod bytes;
pub mod elf;
pub mod error;
pub mod metadata;
pub mod name_map;
pub mod names;
pub mod object_file;
pub mod parser;
pub mod preprocess;
pub mod reader;
pub mod shift;
pub mod surgery;
pub mod symbols;
pub mod table;
pub mod wrap;
