//! Engine of a terminal editor for daemon configuration files (`bitcoin.conf`,
//! `p2pool.conf`): the schema of known keys, the parser that merges a file with it,
//! grouping into sections, the text written on save, a file browser model, and the
//! session state machine that ties them to key and pointer input.
pub mod app;
pub mod components;
pub mod config;
pub mod grouping;
pub mod navigation;
pub mod schema;
pub mod sections;
pub mod sorting;
pub mod text;
