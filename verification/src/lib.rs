//! Safe, verified binding layer for a platform-specific native database
//! driver: platform-dependent library file selection, an all-or-nothing
//! symbol registry, call wrappers with a buffer-ownership protocol, a
//! multi-result cursor state machine, and connection lifecycle helpers.
//!
//! The native side is abstracted as a capability interface
//! ([`native::EntryPoints`]); a production implementation backed by a
//! dynamically loaded library lives outside this crate, while the
//! in-memory double ([`mock::MockNative`]) is verified here.

pub mod errors;
pub mod json;
pub mod loader;
pub mod mock;
pub mod native;
pub mod platform;
pub mod session;
pub mod text;
pub mod trace;
pub mod wrappers;

pub use errors::{DriverError, LoadError};
pub use loader::{SymbolRegistry, SymbolScan, required_symbols};
pub use mock::{Fault, FaultPoint, MockNative};
pub use native::{EntryPoints, NativeBuf, ResultSet};
pub use platform::{
    ArchKind, OsKind, arch_kind_of, fips_enabled_from, library_file_name, os_kind_of,
    resolve_suffix,
};
pub use session::{
    commit, create_connection, execute_request, execute_simple_request, fetch_all_results,
    rollback, set_autocommit,
};
pub use trace::{abbreviate_stack_trace, build_metadata_json, escape_json};
pub use wrappers::{
    go_cancel_request_wrapper, go_close_connection_wrapper, go_close_rows_wrapper,
    go_combine_json_wrapper, go_next_result_wrapper, go_parse_params_wrapper,
    rustgo_create_rows_wrapper, rustgo_fetch_row_wrapper, rustgo_result_metadata_wrapper,
};
