use vstd::prelude::*;

verus! {

/// Number of bytes at the start of a hidden file that the obfuscation reverses.
pub const HEADER_LEN: usize = 111;

/// `s` in reverse order.
pub open spec fn reversed(s: Seq<u8>) -> Seq<u8> {
    Seq::new(s.len(), |i: int| s[s.len() - 1 - i])
}

/// The header block of `data`: its first `HEADER_LEN` bytes.
pub open spec fn header_of(data: Seq<u8>) -> Seq<u8> {
    data.subrange(0, HEADER_LEN as int)
}

/// Everything of `data` after the header block.
pub open spec fn tail_of(data: Seq<u8>) -> Seq<u8> {
    data.subrange(HEADER_LEN as int, data.len() as int)
}

/// The restored content of a hidden file: the header block reversed, the rest kept.
pub open spec fn restored_bytes(data: Seq<u8>) -> Seq<u8> {
    reversed(header_of(data)) + tail_of(data)
}

/// Undoes the obfuscation of a file's content.
///
/// Returns `None` when `data` is shorter than the header block; otherwise the
/// header block reversed, followed by the rest of `data` unchanged.
pub fn reverse_header(data: &Vec<u8>) -> (r: Option<Vec<u8>>)
    ensures
        data@.len() < HEADER_LEN <==> r is None,
        r matches Some(out) ==> {
            &&& out@ == restored_bytes(data@)
            &&& out@.len() == data@.len()
            &&& out@.subrange(0, HEADER_LEN as int) == reversed(header_of(data@))
            &&& out@.subrange(HEADER_LEN as int, out@.len() as int) == tail_of(data@)
        },
{
    if data.len() < HEADER_LEN {
        return None;
    }
    let mut out: Vec<u8> = Vec::with_capacity(data.len());
    let mut i: usize = 0;
    while i < HEADER_LEN
        invariant
            HEADER_LEN <= data@.len(),
            i <= HEADER_LEN,
            out@.len() == i,
            forall|k: int| 0 <= k < i ==> out@[k] == data@[HEADER_LEN - 1 - k],
        decreases HEADER_LEN - i,
    {
        out.push(data[HEADER_LEN - 1 - i]);
        i = i + 1;
    }
    while i < data.len()
        invariant
            HEADER_LEN <= i <= data@.len(),
            out@.len() == i,
            forall|k: int| 0 <= k < HEADER_LEN ==> out@[k] == data@[HEADER_LEN - 1 - k],
            forall|k: int| HEADER_LEN <= k < i ==> out@[k] == data@[k],
        decreases data@.len() - i,
    {
        out.push(data[i]);
        i = i + 1;
    }
    assert(out@ =~= restored_bytes(data@));
    assert(out@.subrange(0, HEADER_LEN as int) =~= reversed(header_of(data@)));
    assert(out@.subrange(HEADER_LEN as int, out@.len() as int) =~= tail_of(data@));
    Some(out)
}

/// Reversing a header block twice gives back the block: restoring a restored
/// header returns the bytes that were hidden.
pub proof fn lemma_reverse_twice(header: Seq<u8>)
    ensures
        reversed(reversed(header)) == header,
{
    assert(reversed(reversed(header)) =~= header);
}

/// Restoring a file's content twice gives back the content, for every content of at
/// least `HEADER_LEN` bytes.
pub proof fn lemma_restore_round_trip(data: Seq<u8>)
    requires
        data.len() >= HEADER_LEN,
    ensures
        restored_bytes(restored_bytes(data)) == data,
{
    let once = restored_bytes(data);
    assert(header_of(once) =~= reversed(header_of(data)));
    assert(tail_of(once) =~= tail_of(data));
    lemma_reverse_twice(header_of(data));
    assert(restored_bytes(once) =~= data);
}

/// The restored content has the length of the hidden one; its first
/// `HEADER_LEN` bytes are the hidden header reversed and the rest is the hidden
/// tail, byte for byte.
pub proof fn lemma_restored_layout(data: Seq<u8>)
    requires
        data.len() >= HEADER_LEN,
    ensures
        restored_bytes(data).len() == data.len(),
        restored_bytes(data).subrange(0, HEADER_LEN as int) == reversed(header_of(data)),
        restored_bytes(data).subrange(HEADER_LEN as int, data.len() as int) == tail_of(data),
        forall|k: int|
            0 <= k < HEADER_LEN ==> #[trigger] restored_bytes(data)[k] == data[HEADER_LEN - 1 - k],
        forall|k: int| HEADER_LEN <= k < data.len() ==> #[trigger] restored_bytes(data)[k] == data[k],
{
    let out = restored_bytes(data);
    assert(out.subrange(0, HEADER_LEN as int) =~= reversed(header_of(data)));
    assert(out.subrange(HEADER_LEN as int, data.len() as int) =~= tail_of(data));
}

} // verus!
