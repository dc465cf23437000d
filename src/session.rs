use vstd::prelude::*;
use crate::export::{export_plan, export_plan_spec, ExportError, ExportFormat, ExportPlan};
use crate::name::{is_valid_path, is_valid_path_spec};
use crate::header::{restored_bytes, HEADER_LEN};
use crate::transform::{
    file_name_spec, is_plain_path, process_file, restored_file_spec, transform_error_text,
    ProcessedFileInfo, RestoredFile, TransformError,
};

verus! {

/// Why a batch could not start.
#[derive(Debug, Clone, Copy, PartialEq, Eq, Structural)]
pub enum SetupError {
    /// The input or the output directory is blank or does not exist.
    InvalidDirectories,
}

/// The warning recorded for an entry whose path is not valid text.
pub open spec fn unreadable_path_warning() -> Seq<char> {
    "Invalid file path"@
}

/// The warning recorded for the file at `path` that failed for `reason`.
pub open spec fn failure_warning(path: Seq<char>, reason: Seq<char>) -> Seq<char> {
    "Error processing file "@ + path + ": "@ + reason
}

/// `after` is `before` with the warning `line` added at its end.
pub open spec fn warning_added(before: Seq<String>, after: Seq<String>, line: Seq<char>) -> bool {
    &&& after.len() == before.len() + 1
    &&& after.last()@ == line
    &&& after.drop_last() == before
}

/// The state of the tool between user actions: the three directories that were
/// chosen and the ledger of every file restored so far.
#[derive(Debug, Clone)]
pub struct Session {
    /// The directory whose files are restored.
    pub input_dir: String,
    /// The directory that restored files are written to.
    pub output_dir: String,
    /// The directory that ledger exports are written to.
    pub export_dir: String,
    /// The ledger: one entry per restored file, in the order they were restored.
    pub processed_files: Vec<ProcessedFileInfo>,
}

/// One pass over an input directory: the entries restored so far and the
/// warnings for those that were not.
#[derive(Debug, Clone)]
pub struct BatchRun {
    /// The directory that restored files are written to.
    pub output_dir: String,
    /// The entries restored in this pass, in order.
    pub processed: Vec<ProcessedFileInfo>,
    /// One line for each entry that was skipped or failed, in order.
    pub warnings: Vec<String>,
}

impl Default for Session {
    /// A session whose directory fields hold their prompts and whose ledger is empty.
    fn default() -> (r: Self)
        ensures
            r.input_dir@ == "Input Directory"@,
            r.output_dir@ == "Output Directory"@,
            r.export_dir@ == "Export Directory"@,
            r.processed_files@.len() == 0,
    {
        Session {
            input_dir: String::from_str("Input Directory"),
            output_dir: String::from_str("Output Directory"),
            export_dir: String::from_str("Export Directory"),
            processed_files: Vec::new(),
        }
    }
}

impl Session {
    /// Starts a pass over the input directory, after checking both directories;
    /// the caller reports whether each exists.
    ///
    /// Fails exactly when either directory is blank or does not exist.
    pub fn begin_batch(&self, input_exists: bool, output_exists: bool) -> (r: Result<
        BatchRun,
        SetupError,
    >)
        ensures
            is_valid_path_spec(self.input_dir@, input_exists) && is_valid_path_spec(
                self.output_dir@,
                output_exists,
            ) <==> r is Ok,
            r matches Err(e) ==> e == SetupError::InvalidDirectories,
            r matches Ok(run) ==> {
                &&& run.output_dir@ == self.output_dir@
                &&& run.processed@.len() == 0
                &&& run.warnings@.len() == 0
            },
    {
        if !is_valid_path(self.input_dir.as_str(), input_exists) || !is_valid_path(
            self.output_dir.as_str(),
            output_exists,
        ) {
            return Err(SetupError::InvalidDirectories);
        }
        Ok(
            BatchRun {
                output_dir: self.output_dir.clone(),
                processed: Vec::new(),
                warnings: Vec::new(),
            },
        )
    }

    /// Adds the entries of a finished pass to the ledger, after those already
    /// there, and hands back its warnings.
    pub fn finish_batch(&mut self, run: BatchRun) -> (warnings: Vec<String>)
        ensures
            final(self).processed_files@ == old(self).processed_files@ + run.processed@,
            final(self).input_dir == old(self).input_dir,
            final(self).output_dir == old(self).output_dir,
            final(self).export_dir == old(self).export_dir,
            warnings@ == run.warnings@,
    {
        let BatchRun { output_dir: _, processed, warnings } = run;
        let mut processed = processed;
        self.processed_files.append(&mut processed);
        warnings
    }

    /// Prepares the export of the ledger in `format` into the export directory,
    /// whose existence the caller reports; `timestamp` names the file.
    pub fn prepare_export(&self, export_exists: bool, format: ExportFormat, timestamp: &str) -> (r:
        Result<ExportPlan, ExportError>)
        ensures
            export_plan_spec(
                self.processed_files@,
                self.export_dir@,
                export_exists,
                format,
                timestamp@,
                r,
            ),
    {
        export_plan(&self.processed_files, self.export_dir.as_str(), export_exists, format, timestamp)
    }
}

impl BatchRun {
    /// Restores `contents`, read from the entry at `path`, for writing into the
    /// pass's output directory. Where that fails, the failure is recorded as a
    /// warning and `None` comes back; the entries of the pass never change here.
    pub fn process_entry(&mut self, path: &str, contents: &Vec<u8>) -> (r: Option<RestoredFile>)
        ensures
            final(self).processed == old(self).processed,
            final(self).output_dir == old(self).output_dir,
            r is Some ==> final(self).warnings == old(self).warnings,
            r is None ==> exists|e: TransformError|
                warning_added(
                    old(self).warnings@,
                    final(self).warnings@,
                    #[trigger] failure_warning(path@, transform_error_text(e)),
                ),
            contents@.len() < HEADER_LEN ==> r is None && warning_added(
                old(self).warnings@,
                final(self).warnings@,
                failure_warning(path@, transform_error_text(TransformError::ShortRead)),
            ),
            is_plain_path(path@) && contents@.len() >= HEADER_LEN && file_name_spec(path@) is None
                ==> r is None && warning_added(
                old(self).warnings@,
                final(self).warnings@,
                failure_warning(path@, transform_error_text(TransformError::NoFileName)),
            ),
            is_plain_path(path@) && contents@.len() >= HEADER_LEN ==> (file_name_spec(path@) matches Some(
                name,
            ) ==> (r matches Some(f) && restored_file_spec(
                path@,
                name,
                old(self).output_dir@,
                contents@,
                f,
            ))),
            r matches Some(f) ==> f.info.file_name@ == path@ && f.bytes@ == restored_bytes(contents@),
    {
        match process_file(path, self.output_dir.as_str(), contents) {
            Ok(file) => Some(file),
            Err(e) => {
                let reason = e.message();
                self.record_failure(path, reason.as_str());
                None
            },
        }
    }

    /// Settles a restored file once the caller has tried to write it: its entry
    /// joins the pass only where the write succeeded; otherwise the write's error
    /// is recorded as a warning.
    pub fn finish_entry(&mut self, file: RestoredFile, written: Result<(), String>)
        ensures
            final(self).output_dir == old(self).output_dir,
            written is Ok ==> final(self).processed@ == old(self).processed@.push(file.info)
                && final(self).warnings == old(self).warnings,
            written matches Err(reason) ==> final(self).processed == old(self).processed
                && warning_added(
                old(self).warnings@,
                final(self).warnings@,
                failure_warning(file.info.file_name@, reason@),
            ),
    {
        match written {
            Ok(()) => self.processed.push(file.info),
            Err(reason) => self.record_failure(file.info.file_name.as_str(), reason.as_str()),
        }
    }

    /// Records an entry whose path is not valid text and was skipped.
    pub fn record_unreadable_path(&mut self)
        ensures
            warning_added(old(self).warnings@, final(self).warnings@, unreadable_path_warning()),
            final(self).processed == old(self).processed,
            final(self).output_dir == old(self).output_dir,
    {
        self.warnings.push(String::from_str("Invalid file path"));
        assert(self.warnings@.drop_last() =~= old(self).warnings@);
    }

    /// Records the file at `path` that could not be read, restored or written,
    /// for `reason`.
    pub fn record_failure(&mut self, path: &str, reason: &str)
        ensures
            warning_added(old(self).warnings@, final(self).warnings@, failure_warning(path@, reason@)),
            final(self).processed == old(self).processed,
            final(self).output_dir == old(self).output_dir,
    {
        let mut line = String::from_str("Error processing file ");
        line.append(path);
        line.append(": ");
        line.append(reason);
        self.warnings.push(line);
        assert(self.warnings@.drop_last() =~= old(self).warnings@);
    }
}

/// The directory path that a folder picker's answer stands for: the chosen
/// folder, or the text `null` when the picker was closed without a choice.
pub fn chosen_folder(selection: Option<String>) -> (r: String)
    ensures
        selection matches Some(f) ==> r@ == f@,
        selection is None ==> r@ == "null"@,
{
    match selection {
        Some(folder) => folder,
        None => String::from_str("null"),
    }
}

} // verus!
