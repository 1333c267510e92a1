pub mod entry;
pub mod name_map;
pub mod passes;
pub mod program_symbol_table;
pub mod symbol_table;

pub use self::entry::{Entry, EntryModel};
pub use self::name_map::NameMap;
pub use self::symbol_table::{SymbolTable, TableModel};
pub use self::program_symbol_table::hello;
