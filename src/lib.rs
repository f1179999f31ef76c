//! Parsing of smali class declarations and structural comparison of two
//! parsed classes.

pub mod args;
pub mod class;
pub mod diff;
pub mod diff_vec;
pub mod err;
pub mod field;
pub mod implements;
pub mod method;
pub mod parser;
pub mod smali_class;
pub mod super_p;
pub mod text;
pub mod util;

pub use args::{UbiArgs, UbiIgnore, UbiIgnoreClass};
pub use diff::{ClassDiff, DiffPolicy, MethodDiff, ValueDiff, diff};
pub use err::{ParserError, ParserResult};
pub use parser::{Line, assemble_lines, parse_class, parse_line, parse_smali};
pub use smali_class::{SmaliAccessModifier, SmaliClass, SmaliMethod, SmaliType, SmaliValue};
