//! A transpiler from a dynamically typed scripting language to a statically
//! typed systems language, over trees: the front end and the printer are
//! outside the library.
//!
//! `ts` holds the source tree and `rs` the destination tree. The passes are
//! `expr`, `stmt` (with `counting` for counting loops), `decl` and `module`;
//! each states in spec functions the first failure of a translation and what
//! a successful one yields. `laws` holds the properties proved of them.
pub mod console;
pub mod counting;
pub mod decl;
pub mod error;
pub mod expr;
pub mod file;
pub mod laws;
pub mod module;
pub mod rs;
pub mod stmt;
pub mod ts;
