pub mod cc_table;
pub mod decode;
pub mod trigger;
