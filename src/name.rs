use vstd::prelude::*;

verus! {

/// Whether `c` has the Unicode `White_Space` property, the set of characters
/// that `str::trim` removes.
pub open spec fn is_white_space_spec(c: char) -> bool {
    ('\u{9}' <= c && c <= '\u{d}') || c == ' ' || c == '\u{85}' || c == '\u{a0}'
        || c == '\u{1680}' || ('\u{2000}' <= c && c <= '\u{200a}') || c == '\u{2028}'
        || c == '\u{2029}' || c == '\u{202f}' || c == '\u{205f}' || c == '\u{3000}'
}

/// A path text is blank when it is empty or holds white space alone.
pub open spec fn is_blank_spec(s: Seq<char>) -> bool {
    forall|i: int| 0 <= i < s.len() ==> is_white_space_spec(#[trigger] s[i])
}

/// A directory path is usable when its text is not blank and it names
/// something that exists.
pub open spec fn is_valid_path_spec(path: Seq<char>, exists: bool) -> bool {
    !is_blank_spec(path) && exists
}

/// The character that stands in a restored name for `c`: `#` becomes `.`.
pub open spec fn restored_char(c: char) -> char {
    if c == '#' {
        '.'
    } else {
        c
    }
}

/// The name a hidden file had before it was hidden: every `#` of `name` replaced by `.`.
pub open spec fn restored_name(name: Seq<char>) -> Seq<char> {
    name.map_values(|c: char| restored_char(c))
}

/// Whether `c` has the Unicode `White_Space` property.
pub fn is_white_space(c: char) -> (r: bool)
    ensures
        r == is_white_space_spec(c),
{
    ('\u{9}' <= c && c <= '\u{d}') || c == ' ' || c == '\u{85}' || c == '\u{a0}'
        || c == '\u{1680}' || ('\u{2000}' <= c && c <= '\u{200a}') || c == '\u{2028}'
        || c == '\u{2029}' || c == '\u{202f}' || c == '\u{205f}' || c == '\u{3000}'
}

/// Whether `s` is empty once white space is trimmed from both ends.
pub fn is_blank(s: &str) -> (r: bool)
    ensures
        r == is_blank_spec(s@),
{
    let n = s.unicode_len();
    let mut i: usize = 0;
    while i < n
        invariant
            n == s@.len(),
            i <= n,
            forall|k: int| 0 <= k < i ==> is_white_space_spec(#[trigger] s@[k]),
        decreases n - i,
    {
        if !is_white_space(s.get_char(i)) {
            return false;
        }
        i = i + 1;
    }
    true
}

/// Whether `path` can be used as a directory: its text is not blank and, as
/// `exists` reports from the file system, something stands at it.
pub fn is_valid_path(path: &str, exists: bool) -> (r: bool)
    ensures
        r == is_valid_path_spec(path@, exists),
{
    !is_blank(path) && exists
}

/// The name a hidden file had before it was hidden, with every `#` of `name` turned back into `.`.
pub fn restore_name(name: &str) -> (r: String)
    ensures
        r@ == restored_name(name@),
{
    let n = name.unicode_len();
    let mut out = String::new();
    let mut i: usize = 0;
    while i < n
        invariant
            n == name@.len(),
            i <= n,
            out@ == restored_name(name@.subrange(0, i as int)),
        decreases n - i,
    {
        let c = name.get_char(i);
        if c == '#' {
            out.append(".");
            proof {
                reveal_strlit(".");
            }
        } else {
            let piece = name.substring_char(i, i + 1);
            out.append(piece);
        }
        assert(restored_name(name@.subrange(0, i + 1)) =~= restored_name(
            name@.subrange(0, i as int),
        ).push(restored_char(c)));
        i = i + 1;
    }
    assert(name@.subrange(0, n as int) =~= name@);
    out
}

/// A restored name holds no `#`, so restoring it again leaves it as it is. What
/// restoring cannot do is tell the names apart that it maps together: see the
/// next lemma.
pub proof fn lemma_restore_name_idempotent(name: Seq<char>)
    ensures
        restored_name(restored_name(name)) == restored_name(name),
        !restored_name(name).contains('#'),
{
    assert(restored_name(restored_name(name)) =~= restored_name(name));
}

/// A `.` already in a hidden name cannot be told apart from a `#` that the
/// application wrote for it: the two names restore to the same name, so the
/// name before hiding cannot be recovered from the restored one.
pub proof fn lemma_restore_name_merges_dot_and_hash(name: Seq<char>, i: int)
    requires
        0 <= i < name.len(),
        name[i] == '.',
    ensures
        name.update(i, '#') != name,
        restored_name(name.update(i, '#')) == restored_name(name),
{
    assert(name.update(i, '#')[i] != name[i]);
    assert(restored_name(name.update(i, '#')) =~= restored_name(name));
}

} // verus!
