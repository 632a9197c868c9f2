//! Diagnostics for programs that guard impossible branches: source positions,
//! a small taxonomy of invariant violations, and the policy of the console and
//! file log sinks that report them.

pub mod decimal;
pub mod diagnostic;
pub mod level;
pub mod position;
pub mod sink;

pub use decimal::u32_text;
pub use diagnostic::{
    bail_diag, diag_err, mark_unimplemented, mark_unreachable, unimplemented_err, unreachable_err,
    DiagConfig, DiagError, DiagKind, Diagnostic,
};
pub use level::{filter_admits, level_text};
pub use position::Position;
pub use sink::{
    color_of, console_filter, console_record, console_target_record, default_log_file,
    diag_file_filter, diagnostics_target, file_record, format_console_line,
    format_console_target_line, format_file_line, is_diagnostics_target, level_label, SinkFilter,
};
