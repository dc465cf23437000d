use vstd::prelude::*;
use crate::name::{is_valid_path, is_valid_path_spec};
use crate::transform::{join_path, joined_path, ProcessedFileInfo};

verus! {

/// The two layouts a ledger can be exported in.
#[derive(Debug, Clone, Copy, PartialEq, Eq, Structural)]
pub enum ExportFormat {
    /// One line per entry.
    Text,
    /// A JSON array of objects with the keys `file_name` and `output_path`.
    Json,
}

/// Why an export could not be prepared.
#[derive(Debug, Clone, Copy, PartialEq, Eq, Structural)]
pub enum ExportError {
    /// The export directory is blank or does not exist.
    InvalidDirectory,
}

/// An export, ready to be written: what to write, and where.
#[derive(Debug, Clone)]
pub struct ExportPlan {
    /// The file to create or replace.
    pub path: String,
    /// Its whole content.
    pub contents: String,
}

/// The JSON string literal that stands for `s`, quotes and escapes included.
pub open spec fn json_string_of(s: Seq<char>) -> Seq<char> {
    seq!['"'] + json_escaped(s) + seq!['"']
}

/// The lowercase hexadecimal digit for `n`, where `0 <= n < 16`.
pub open spec fn hex_digit(n: int) -> char {
    seq!['0', '1', '2', '3', '4', '5', '6', '7', '8', '9', 'a', 'b', 'c', 'd', 'e', 'f'][n]
}

/// How `c` stands inside a JSON string: a quote or a backslash after a
/// backslash; the short escapes for backspace, form feed, newline, carriage
/// return and tab; a backslash, `u00` and two lowercase hex digits for the other
/// control characters below U+0020; and any other character as itself.
pub open spec fn json_char_escape(c: char) -> Seq<char> {
    if c == '"' {
        seq!['\\', '"']
    } else if c == '\\' {
        seq!['\\', '\\']
    } else if c == '\u{8}' {
        seq!['\\', 'b']
    } else if c == '\u{c}' {
        seq!['\\', 'f']
    } else if c == '\n' {
        seq!['\\', 'n']
    } else if c == '\r' {
        seq!['\\', 'r']
    } else if c == '\t' {
        seq!['\\', 't']
    } else if (c as u32) < 0x20 {
        seq!['\\', 'u', '0', '0', hex_digit(((c as u32) / 16) as int), hex_digit(((c as u32) % 16) as int)]
    } else {
        seq![c]
    }
}

/// The characters of `s` as they stand inside a JSON string.
pub open spec fn json_escaped(s: Seq<char>) -> Seq<char>
    decreases s.len(),
{
    if s.len() == 0 {
        Seq::empty()
    } else {
        json_escaped(s.drop_last()) + json_char_escape(s.last())
    }
}

/// The line of the text export for one entry.
pub open spec fn entry_line(e: ProcessedFileInfo) -> Seq<char> {
    "Processed: "@ + e.file_name@ + " -> "@ + e.output_path@ + "\n"@
}

/// The text export of a ledger: one line per entry, in ledger order.
pub open spec fn ledger_text_spec(ledger: Seq<ProcessedFileInfo>) -> Seq<char>
    decreases ledger.len(),
{
    if ledger.len() == 0 {
        Seq::empty()
    } else {
        ledger_text_spec(ledger.drop_last()) + entry_line(ledger.last())
    }
}

/// One JSON object of the structured export, from the JSON texts of its two fields.
pub open spec fn json_object(file_name: Seq<char>, output_path: Seq<char>) -> Seq<char> {
    "{\"file_name\":"@ + file_name + ",\"output_path\":"@ + output_path + "}"@
}

/// The objects of the structured export, separated by commas.
pub open spec fn json_items(q: Seq<(Seq<char>, Seq<char>)>) -> Seq<char>
    decreases q.len(),
{
    if q.len() == 0 {
        Seq::empty()
    } else if q.len() == 1 {
        json_object(q[0].0, q[0].1)
    } else {
        json_items(q.drop_last()) + ","@ + json_object(q.last().0, q.last().1)
    }
}

/// The structured export, from the JSON texts of each entry's two fields.
pub open spec fn json_array(q: Seq<(Seq<char>, Seq<char>)>) -> Seq<char> {
    "["@ + json_items(q) + "]"@
}

/// The JSON texts of each entry's two fields.
pub open spec fn quoted_ledger(ledger: Seq<ProcessedFileInfo>) -> Seq<(Seq<char>, Seq<char>)> {
    ledger.map_values(
        |e: ProcessedFileInfo| (json_string_of(e.file_name@), json_string_of(e.output_path@)),
    )
}

/// The pairs of a vector of string pairs, as text.
pub open spec fn pair_views(q: Seq<(String, String)>) -> Seq<(Seq<char>, Seq<char>)> {
    q.map_values(|p: (String, String)| (p.0@, p.1@))
}

/// The file name extension of an export in `format`.
pub open spec fn extension_spec(format: ExportFormat) -> Seq<char> {
    match format {
        ExportFormat::Text => ".txt"@,
        ExportFormat::Json => ".json"@,
    }
}

/// The path of the export made at `timestamp` into `dir`.
pub open spec fn export_path_spec(dir: Seq<char>, timestamp: Seq<char>, format: ExportFormat) -> Seq<
    char,
> {
    joined_path(dir, "export_"@ + timestamp + extension_spec(format))
}

/// What exporting `ledger` in `format` into `dir` at `timestamp` gives: the
/// directory is checked, and a valid one always gives the full document.
pub open spec fn export_plan_spec(
    ledger: Seq<ProcessedFileInfo>,
    dir: Seq<char>,
    dir_exists: bool,
    format: ExportFormat,
    timestamp: Seq<char>,
    r: Result<ExportPlan, ExportError>,
) -> bool {
    if !is_valid_path_spec(dir, dir_exists) {
        r == Err::<ExportPlan, ExportError>(ExportError::InvalidDirectory)
    } else {
        match r {
            Ok(plan) => {
                &&& plan.path@ == export_path_spec(dir, timestamp, format)
                &&& plan.contents@ == match format {
                    ExportFormat::Text => ledger_text_spec(ledger),
                    ExportFormat::Json => json_array(quoted_ledger(ledger)),
                }
            },
            Err(_) => false,
        }
    }
}

/// Relies on `serde_json::to_string` applied to a string slice: the JSON
/// string literal for `s`, as serde_json writes it for a `String` field. Writing
/// a string into serde_json's in-memory buffer has no way to fail.
#[verifier::external_body]
fn json_quote(s: &str) -> (r: Option<String>)
    ensures
        r is Some,
        r matches Some(t) ==> t@ == json_string_of(s@),
{
    serde_json::to_string(s).ok()
}

/// The text that chrono's `format` gives for the UTC instant `unix_seconds`
/// seconds after the Unix epoch, under the strftime pattern `pattern`.
pub uninterp spec fn utc_formatted(unix_seconds: int, pattern: Seq<char>) -> Seq<char>;

/// The strftime pattern of export time stamps: day, month, year, hour, minute
/// and second, zero-padded and joined by `-`.
pub open spec fn timestamp_pattern() -> Seq<char> {
    "%d-%m-%Y-%H-%M-%S"@
}

/// Whether `unix_seconds` after the Unix epoch falls in the years 0 to 9999, UTC.
pub open spec fn in_year_range(unix_seconds: int) -> bool {
    -62_167_219_200 <= unix_seconds <= 253_402_300_799
}

/// Relies on chrono's `DateTime::<Utc>::from_timestamp`, which gives `None` only for
/// an instant out of chrono's range (far wider than the years 0 to 9999), and `DateTime::format` with the export pattern,
/// which is a valid strftime pattern, so that rendering it does not panic.
#[verifier::external_body]
fn format_utc(unix_seconds: i64, pattern: &str) -> (r: Option<String>)
    requires
        pattern@ == timestamp_pattern(),
    ensures
        in_year_range(unix_seconds as int) ==> r is Some,
        r matches Some(t) ==> t@ == utc_formatted(unix_seconds as int, pattern@),
{
    match chrono::DateTime::<chrono::Utc>::from_timestamp(unix_seconds, 0) {
        Some(instant) => Some(instant.format(pattern).to_string()),
        None => None,
    }
}

/// The time stamp that names an export made `unix_seconds` seconds after the
/// Unix epoch: `DD-MM-YYYY-HH-MM-SS` in UTC, or `None` for an instant that chrono
/// cannot represent; every instant of the years 0 to 9999 has one.
pub fn export_timestamp(unix_seconds: i64) -> (r: Option<String>)
    ensures
        in_year_range(unix_seconds as int) ==> r is Some,
        r matches Some(t) ==> t@ == utc_formatted(unix_seconds as int, timestamp_pattern()),
{
    format_utc(unix_seconds, "%d-%m-%Y-%H-%M-%S")
}

/// The text export of `ledger`: `Processed: <file_name> -> <output_path>` and a
/// newline for each entry, in ledger order.
pub fn ledger_text(ledger: &Vec<ProcessedFileInfo>) -> (r: String)
    ensures
        r@ == ledger_text_spec(ledger@),
{
    let mut out = String::new();
    let mut i: usize = 0;
    while i < ledger.len()
        invariant
            i <= ledger@.len(),
            out@ == ledger_text_spec(ledger@.subrange(0, i as int)),
        decreases ledger@.len() - i,
    {
        let e = &ledger[i];
        out.append("Processed: ");
        out.append(e.file_name.as_str());
        out.append(" -> ");
        out.append(e.output_path.as_str());
        out.append("\n");
        assert(ledger@.subrange(0, i + 1).drop_last() =~= ledger@.subrange(0, i as int));
        i = i + 1;
    }
    assert(ledger@.subrange(0, ledger@.len() as int) =~= ledger@);
    out
}

/// The structured export, from the JSON texts of each entry's file name and
/// output path: an array of objects with the keys `file_name` and `output_path`,
/// in that order.
pub fn json_document(quoted: &Vec<(String, String)>) -> (r: String)
    ensures
        r@ == json_array(pair_views(quoted@)),
{
    let mut out = String::new();
    out.append("[");
    let mut i: usize = 0;
    while i < quoted.len()
        invariant
            i <= quoted@.len(),
            out@ == "["@ + json_items(pair_views(quoted@.subrange(0, i as int))),
        decreases quoted@.len() - i,
    {
        let ghost before = out@;
        if i > 0 {
            out.append(",");
        }
        let p = &quoted[i];
        out.append("{\"file_name\":");
        out.append(p.0.as_str());
        out.append(",\"output_path\":");
        out.append(p.1.as_str());
        out.append("}");
        proof {
            let prev = pair_views(quoted@.subrange(0, i as int));
            let next = pair_views(quoted@.subrange(0, i + 1));
            assert(next.drop_last() =~= prev);
            assert(next.last() == (p.0@, p.1@));
            if i == 0 {
                assert(prev.len() == 0);
                assert(json_items(prev) =~= Seq::<char>::empty());
            }
            assert(out@ =~= "["@ + json_items(next));
        }
        i = i + 1;
    }
    out.append("]");
    assert(quoted@.subrange(0, quoted@.len() as int) =~= quoted@);
    out
}

/// The structured export of `ledger`: an array of objects with the keys
/// `file_name` and `output_path`, in ledger order.
pub fn ledger_json(ledger: &Vec<ProcessedFileInfo>) -> (r: String)
    ensures
        r@ == json_array(quoted_ledger(ledger@)),
{
    let mut quoted: Vec<(String, String)> = Vec::new();
    let mut i: usize = 0;
    while i < ledger.len()
        invariant
            i <= ledger@.len(),
            quoted@.len() == i,
            pair_views(quoted@) == quoted_ledger(ledger@.subrange(0, i as int)),
        decreases ledger@.len() - i,
    {
        let e = &ledger[i];
        let f = json_quote(e.file_name.as_str()).unwrap();
        let o = json_quote(e.output_path.as_str()).unwrap();
        let ghost prev = quoted@;
        quoted.push((f, o));
        proof {
            let want = quoted_ledger(ledger@.subrange(0, i + 1));
            assert forall|k: int| 0 <= k < i implies pair_views(quoted@)[k] == want[k] by {
                assert(quoted@[k] == prev[k]);
                assert(pair_views(prev)[k] == quoted_ledger(ledger@.subrange(0, i as int))[k]);
            }
            assert(pair_views(quoted@) =~= want);
        }
        i = i + 1;
    }
    assert(ledger@.subrange(0, ledger@.len() as int) =~= ledger@);
    json_document(&quoted)
}

/// The path of the export made at `timestamp` into `export_dir`:
/// `export_<timestamp>.txt` or `export_<timestamp>.json` inside it.
pub fn export_file_path(export_dir: &str, timestamp: &str, format: ExportFormat) -> (r: String)
    ensures
        r@ == export_path_spec(export_dir@, timestamp@, format),
{
    let mut name = String::from_str("export_");
    name.append(timestamp);
    match format {
        ExportFormat::Text => name.append(".txt"),
        ExportFormat::Json => name.append(".json"),
    }
    join_path(export_dir, name.as_str())
}

/// Prepares the export of `ledger` in `format` into `export_dir`, whose
/// existence the caller reports in `dir_exists`; `timestamp` names the file.
///
/// Fails with `InvalidDirectory` exactly when the directory is blank or does not
/// exist.
pub fn export_plan(
    ledger: &Vec<ProcessedFileInfo>,
    export_dir: &str,
    dir_exists: bool,
    format: ExportFormat,
    timestamp: &str,
) -> (r: Result<ExportPlan, ExportError>)
    ensures
        export_plan_spec(ledger@, export_dir@, dir_exists, format, timestamp@, r),
        is_valid_path_spec(export_dir@, dir_exists) <==> r is Ok,
{
    if !is_valid_path(export_dir, dir_exists) {
        return Err(ExportError::InvalidDirectory);
    }
    let contents = match format {
        ExportFormat::Text => ledger_text(ledger),
        ExportFormat::Json => ledger_json(ledger),
    };
    Ok(ExportPlan { path: export_file_path(export_dir, timestamp, format), contents })
}

} // verus!
