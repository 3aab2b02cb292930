pub mod config_editor;
pub mod file_explorer;
pub mod p2pool_parser;
