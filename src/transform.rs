use vstd::prelude::*;
use crate::header::{
    header_of, lemma_restore_round_trip, lemma_restored_layout, restored_bytes, reverse_header,
    reversed, tail_of, HEADER_LEN,
};
use crate::name::{lemma_restore_name_idempotent, restore_name, restored_char, restored_name};

verus! {

/// One entry of the ledger: a file that was restored and written out.
#[derive(Debug, Clone)]
pub struct ProcessedFileInfo {
    /// The path of the hidden file, as it was handed to the transform.
    pub file_name: String,
    /// The path that the restored file was written to.
    pub output_path: String,
}

/// Why a file could not be restored.
#[derive(Debug, Clone, Copy, PartialEq, Eq, Structural)]
pub enum TransformError {
    /// The file is shorter than its header block.
    ShortRead,
    /// The path of the file has no final component to take a name from.
    NoFileName,
}

/// A restored file, ready to be written to `info.output_path`.
#[derive(Debug, Clone)]
pub struct RestoredFile {
    /// The ledger entry to record once the file has been written.
    pub info: ProcessedFileInfo,
    /// The restored content.
    pub bytes: Vec<u8>,
}

/// Whether `name` is a non-empty piece of the text of `path`.
pub open spec fn is_piece_of(name: Seq<char>, path: Seq<char>) -> bool {
    &&& name.len() > 0
    &&& exists|i: int| 0 <= i && i + name.len() <= path.len() && #[trigger] path.subrange(i, i + name.len()) == name
}

/// The path of a file called `name` inside `dir`.
pub open spec fn joined_path(dir: Seq<char>, name: Seq<char>) -> Seq<char> {
    dir + seq!['/'] + name
}

/// What restoring the file at `path`, with final component `name`, into
/// `output_dir` gives for `contents`.
pub open spec fn restored_file_spec(
    path: Seq<char>,
    name: Seq<char>,
    output_dir: Seq<char>,
    contents: Seq<u8>,
    r: RestoredFile,
) -> bool {
    &&& r.info.file_name@ == path
    &&& r.info.output_path@ == joined_path(output_dir, restored_name(name))
    &&& r.bytes@ == restored_bytes(contents)
}

/// `p` without its trailing separators and trailing `.` pieces, which path
/// components skip: `a/b/./` becomes `a/b`, and `.` becomes empty.
pub open spec fn without_trailing_pieces(p: Seq<char>) -> Seq<char>
    decreases p.len(),
{
    if p.len() > 0 && p.last() == '/' {
        without_trailing_pieces(p.drop_last())
    } else if p == seq!['.'] {
        Seq::empty()
    } else if p.len() >= 2 && p.last() == '.' && p[p.len() - 2] == '/' {
        without_trailing_pieces(p.drop_last())
    } else {
        p
    }
}

/// The part of `p` after its last `/`, or all of `p` when it holds none.
pub open spec fn after_last_separator(p: Seq<char>) -> Seq<char>
    decreases p.len(),
{
    if p.len() == 0 {
        p
    } else if p.last() == '/' {
        Seq::empty()
    } else {
        after_last_separator(p.drop_last()).push(p.last())
    }
}

/// The file name of the path `p`: its last `/`-separated piece that is neither
/// empty nor `.`, or `None` where there is no such piece or it is `..`.
pub open spec fn file_name_spec(p: Seq<char>) -> Option<Seq<char>> {
    let n = after_last_separator(without_trailing_pieces(p));
    if n.len() == 0 || n == seq!['.', '.'] {
        None
    } else {
        Some(n)
    }
}

/// A path that every platform splits at `/` alone: it holds no backslash, no
/// drive or prefix `:`, and does not start with two separators.
pub open spec fn is_plain_path(p: Seq<char>) -> bool {
    &&& !p.contains('\\')
    &&& !p.contains(':')
    &&& !(p.len() >= 2 && p[0] == '/' && p[1] == '/')
}

/// Relies on `std::path::Path::file_name`: the final component of a path, if
/// it is a normal one, which is a non-empty piece of the path's text; on a path
/// that every platform splits at `/` alone, that is `file_name_spec`.
#[verifier::external_body]
fn final_component(path: &str) -> (r: Option<String>)
    ensures
        r matches Some(name) ==> is_piece_of(name@, path@),
        is_plain_path(path@) ==> (r is Some <==> file_name_spec(path@) is Some),
        is_plain_path(path@) ==> (r matches Some(name) ==> file_name_spec(path@) == Some(name@)),
{
    match std::path::Path::new(path).file_name() {
        Some(name) => Some(name.to_string_lossy().into_owned()),
        None => None,
    }
}

/// The path of a file called `name` inside `dir`, joined by `/`.
pub fn join_path(dir: &str, name: &str) -> (r: String)
    ensures
        r@ == joined_path(dir@, name@),
{
    let mut out = String::from_str(dir);
    out.append("/");
    out.append(name);
    proof {
        reveal_strlit("/");
    }
    out
}

/// Restores `contents`, read from the file at `input_file_path` whose final
/// component is `file_name`, for writing into `output_directory`.
///
/// Fails with `ShortRead` exactly when `contents` is shorter than the header block.
pub fn restore_file(
    input_file_path: &str,
    file_name: &str,
    output_directory: &str,
    contents: &Vec<u8>,
) -> (r: Result<RestoredFile, TransformError>)
    ensures
        contents@.len() < HEADER_LEN <==> r is Err,
        r matches Err(e) ==> e == TransformError::ShortRead,
        r matches Ok(f) ==> restored_file_spec(
            input_file_path@,
            file_name@,
            output_directory@,
            contents@,
            f,
        ),
{
    let bytes = match reverse_header(contents) {
        Some(b) => b,
        None => return Err(TransformError::ShortRead),
    };
    let new_name = restore_name(file_name);
    let output_path = join_path(output_directory, &new_name);
    Ok(RestoredFile {
        info: ProcessedFileInfo { file_name: String::from_str(input_file_path), output_path },
        bytes,
    })
}

/// Restores `contents`, read from the file at `input_file_path`, for writing
/// into `output_directory` under the file's own name with every `#` turned into `.`.
///
/// Fails with `ShortRead` exactly when `contents` is shorter than the header
/// block, and otherwise with `NoFileName` exactly when the path has no file name.
pub fn process_file(input_file_path: &str, output_directory: &str, contents: &Vec<u8>) -> (r: Result<
    RestoredFile,
    TransformError,
>)
    ensures
        contents@.len() < HEADER_LEN <==> r == Err::<RestoredFile, TransformError>(
            TransformError::ShortRead,
        ),
        r == Err::<RestoredFile, TransformError>(TransformError::NoFileName) ==> contents@.len()
            >= HEADER_LEN,
        is_plain_path(input_file_path@) && contents@.len() >= HEADER_LEN ==> (file_name_spec(
            input_file_path@,
        ) is None <==> r == Err::<RestoredFile, TransformError>(TransformError::NoFileName)),
        is_plain_path(input_file_path@) && contents@.len() >= HEADER_LEN ==> (file_name_spec(
            input_file_path@,
        ) matches Some(name) ==> (r matches Ok(f) && restored_file_spec(
            input_file_path@,
            name,
            output_directory@,
            contents@,
            f,
        ))),
        r matches Ok(f) ==> exists|name: Seq<char>|
            is_piece_of(name, input_file_path@) && restored_file_spec(
                input_file_path@,
                name,
                output_directory@,
                contents@,
                f,
            ),
{
    if contents.len() < HEADER_LEN {
        return Err(TransformError::ShortRead);
    }
    match final_component(input_file_path) {
        Some(name) => restore_file(input_file_path, &name, output_directory, contents),
        None => Err(TransformError::NoFileName),
    }
}

/// A restored file is written into the output directory under the source's
/// file name with every `#` turned into `.` and every other character kept in
/// place, so the name it is written under holds no `#`.
pub proof fn lemma_restored_file_name(
    path: Seq<char>,
    name: Seq<char>,
    output_dir: Seq<char>,
    contents: Seq<u8>,
    f: RestoredFile,
)
    requires
        restored_file_spec(path, name, output_dir, contents, f),
    ensures
        f.info.output_path@ == joined_path(output_dir, restored_name(name)),
        restored_name(name).len() == name.len(),
        forall|k: int| 0 <= k < name.len() ==> #[trigger] restored_name(name)[k] == restored_char(name[k]),
        !restored_name(name).contains('#'),
{
    lemma_restore_name_idempotent(name);
}

/// A restored file has the length of the source; its first `HEADER_LEN` bytes
/// are the source's first `HEADER_LEN` bytes reversed, and the rest is the
/// source's, byte for byte.
pub proof fn lemma_restored_file_bytes(
    path: Seq<char>,
    name: Seq<char>,
    output_dir: Seq<char>,
    contents: Seq<u8>,
    f: RestoredFile,
)
    requires
        restored_file_spec(path, name, output_dir, contents, f),
        contents.len() >= HEADER_LEN,
    ensures
        f.bytes@.len() == contents.len(),
        f.bytes@.subrange(0, HEADER_LEN as int) == reversed(header_of(contents)),
        f.bytes@.subrange(HEADER_LEN as int, contents.len() as int) == tail_of(contents),
        forall|k: int| 0 <= k < HEADER_LEN ==> #[trigger] f.bytes@[k] == contents[HEADER_LEN - 1 - k],
        forall|k: int| HEADER_LEN <= k < contents.len() ==> #[trigger] f.bytes@[k] == contents[k],
        contents.len() == HEADER_LEN ==> f.bytes@ == reversed(contents),
{
    lemma_restored_layout(contents);
    if contents.len() == HEADER_LEN {
        assert(header_of(contents) =~= contents);
        assert(f.bytes@ =~= reversed(contents));
    }
}

/// Restoring the bytes of a restored file again, from wherever it was written
/// to and into any directory, gives back the source's bytes exactly.
pub proof fn lemma_restore_twice_gives_source(
    first: RestoredFile,
    second: RestoredFile,
    path: Seq<char>,
    name: Seq<char>,
    output_dir: Seq<char>,
    second_path: Seq<char>,
    second_name: Seq<char>,
    second_output_dir: Seq<char>,
    contents: Seq<u8>,
)
    requires
        restored_file_spec(path, name, output_dir, contents, first),
        restored_file_spec(second_path, second_name, second_output_dir, first.bytes@, second),
        contents.len() >= HEADER_LEN,
    ensures
        second.bytes@ == contents,
{
    lemma_restore_round_trip(contents);
}

/// The line that tells a user why a file was not restored.
pub open spec fn transform_error_text(e: TransformError) -> Seq<char> {
    match e {
        TransformError::ShortRead => "the file is shorter than its header block"@,
        TransformError::NoFileName => "the file path has no file name"@,
    }
}

impl TransformError {
    /// A line that tells a user why the file was not restored.
    pub fn message(&self) -> (r: String)
        ensures
            r@ == transform_error_text(*self),
    {
        match self {
            TransformError::ShortRead => String::from_str("the file is shorter than its header block"),
            TransformError::NoFileName => String::from_str("the file path has no file name"),
        }
    }
}

} // verus!
