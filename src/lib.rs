//! Restores files hidden by a mobile folder-lock application.
//!
//! The application hides a file by reversing its first bytes and by writing
//! `#` in place of every `.` of its name. This library undoes both steps, keeps
//! a ledger of the files it restored and renders that ledger for export. Reading
//! directories and writing files is left to the caller, which hands the library
//! plain values.
pub mod header;
pub mod name;
pub mod transform;

pub use header::{reverse_header, HEADER_LEN};
pub use name::{is_blank, is_valid_path, is_white_space, restore_name};
pub use transform::{join_path, process_file, restore_file, ProcessedFileInfo, RestoredFile, TransformError};
pub mod export;

pub use export::{
    export_file_path, export_plan, export_timestamp, json_document, ledger_json, ledger_text, ExportError,
    ExportFormat, ExportPlan,
};
pub mod session;

pub use session::{chosen_folder, BatchRun, Session, SetupError};
