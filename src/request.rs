//! Extraction of the request target from the bytes of one read, and its
//! resolution to a path under the document root.
use vstd::prelude::*;
use vstd::string::StringExecFns;
use vstd::utf8::{decode_utf8, valid_utf8};

verus! {

/// The most bytes one read of a connection delivers.
pub const BUFFER_SIZE: usize = 1024;

/// The longest request target that is accepted.
pub const TARGET_CAPACITY: usize = 256;

/// The byte `' '`.
pub const SPACE: u8 = 32;

/// The byte `'/'`.
pub const SLASH: u8 = 47;

/// Why a request line was not accepted.
#[derive(Clone, Copy, Debug, PartialEq, Eq, Structural)]
pub enum RequestError {
    /// The target is longer than `TARGET_CAPACITY` bytes.
    TargetTooLong,
}

/// The index of the first space at or after `i`, or `s.len()` if there is none.
pub open spec fn space_from(s: Seq<u8>, i: int) -> int
    decreases s.len() - i,
{
    if i >= s.len() {
        s.len() as int
    } else if s[i] == SPACE {
        i
    } else {
        space_from(s, i + 1)
    }
}

/// The first space at or after `i` lies between `i` and the end of `s`.
proof fn lemma_space_from_bounds(s: Seq<u8>, i: int)
    requires
        0 <= i <= s.len(),
    ensures
        i <= space_from(s, i) <= s.len(),
    decreases s.len() - i,
{
    if i < s.len() && s[i] != SPACE {
        lemma_space_from_bounds(s, i + 1);
    }
}

/// The request target: the bytes after the first space, up to the second
/// space or the end of the buffer; empty where the buffer holds no space.
pub open spec fn target_of(buffer: Seq<u8>) -> Seq<u8> {
    let first = space_from(buffer, 0);
    if first >= buffer.len() {
        Seq::empty()
    } else {
        buffer.subrange(first + 1, space_from(buffer, first + 1))
    }
}

/// The index of the first byte at or after `i` that is not NUL.
pub open spec fn skip_nul(s: Seq<u8>, i: int) -> int
    decreases s.len() - i,
{
    if i < s.len() && s[i] == 0 {
        skip_nul(s, i + 1)
    } else {
        i
    }
}

/// The end of `s` once the NUL bytes before `j`, down to `lo`, are dropped.
pub open spec fn drop_nul(s: Seq<u8>, lo: int, j: int) -> int
    decreases j - lo,
{
    if j > lo && s[j - 1] == 0 {
        drop_nul(s, lo, j - 1)
    } else {
        j
    }
}

/// `s` without its leading and trailing NUL bytes.
pub open spec fn trim_nul(s: Seq<u8>) -> Seq<u8> {
    let lo = skip_nul(s, 0);
    s.subrange(lo, drop_nul(s, lo, s.len() as int))
}

/// Whether `name` ends with `'/'`, that is, names a directory.
pub open spec fn names_directory(name: Seq<u8>) -> bool {
    name.len() > 0 && name.last() == SLASH
}

/// The URI for a trimmed target `name`: its text, followed by `index` where it
/// names a directory; empty where `name` is not valid UTF-8.
pub open spec fn uri_of(name: Seq<u8>, index: Seq<char>) -> Seq<char> {
    if !valid_utf8(name) {
        Seq::empty()
    } else if names_directory(name) {
        decode_utf8(name) + index
    } else {
        decode_utf8(name)
    }
}

/// Whether the request target of `buffer` fits in `TARGET_CAPACITY` bytes.
pub open spec fn target_fits(buffer: Seq<u8>) -> bool {
    target_of(buffer).len() <= TARGET_CAPACITY
}

/// The URI that `buffer` asks for, given the index file name `index`.
pub open spec fn request_uri(buffer: Seq<u8>, index: Seq<char>) -> Seq<char> {
    uri_of(trim_nul(target_of(buffer)), index)
}

/// The index of the first space in `buffer` at or after `start`, or its length.
fn find_space(buffer: &[u8], start: usize) -> (r: usize)
    requires
        start <= buffer@.len(),
    ensures
        r as int == space_from(buffer@, start as int),
{
    let mut i: usize = start;
    while i < buffer.len() && buffer[i] != SPACE
        invariant
            start <= i <= buffer@.len(),
            space_from(buffer@, start as int) == space_from(buffer@, i as int),
        decreases buffer@.len() - i,
    {
        i = i + 1;
    }
    i
}

/// Copies the request target out of `buffer`, holding at most
/// `TARGET_CAPACITY` bytes at any time; a longer target is refused.
pub fn extract_target(buffer: &[u8]) -> (r: Result<Vec<u8>, RequestError>)
    ensures
        r is Ok <==> target_fits(buffer@),
        r matches Ok(t) ==> t@ == target_of(buffer@),
        r matches Err(e) ==> e == RequestError::TargetTooLong,
{
    let first = find_space(buffer, 0);
    let mut target: Vec<u8> = Vec::new();
    if first >= buffer.len() {
        return Ok(target);
    }
    let start = first + 1;
    let ghost end = space_from(buffer@, start as int);
    let mut i: usize = start;
    while i < buffer.len() && buffer[i] != SPACE
        invariant
            start <= i <= buffer@.len(),
            space_from(buffer@, start as int) == space_from(buffer@, i as int),
            target@ == buffer@.subrange(start as int, i as int),
            target@.len() <= TARGET_CAPACITY,
            end == space_from(buffer@, start as int),
            first as int == space_from(buffer@, 0),
            first < buffer@.len(),
            start == first + 1,
        decreases buffer@.len() - i,
    {
        if target.len() == TARGET_CAPACITY {
            proof {
                lemma_space_from_bounds(buffer@, i + 1);
                assert(space_from(buffer@, i as int) == space_from(buffer@, i + 1));
                assert(end > i);
                assert(target_of(buffer@).len() > TARGET_CAPACITY);
            }
            return Err(RequestError::TargetTooLong);
        }
        target.push(buffer[i]);
        i = i + 1;
        proof {
            assert(target@ =~= buffer@.subrange(start as int, i as int));
        }
    }
    proof {
        lemma_space_from_bounds(buffer@, start as int);
    }
    Ok(target)
}

/// Drops the leading and trailing NUL bytes of `bytes`.
pub fn trim_nul_bytes(bytes: &[u8]) -> (r: Vec<u8>)
    ensures
        r@ == trim_nul(bytes@),
{
    let mut lo: usize = 0;
    while lo < bytes.len() && bytes[lo] == 0
        invariant
            lo <= bytes@.len(),
            skip_nul(bytes@, 0) == skip_nul(bytes@, lo as int),
        decreases bytes@.len() - lo,
    {
        lo = lo + 1;
    }
    let mut hi: usize = bytes.len();
    while hi > lo && bytes[hi - 1] == 0
        invariant
            lo <= hi <= bytes@.len(),
            drop_nul(bytes@, lo as int, bytes@.len() as int) == drop_nul(bytes@, lo as int, hi as int),
        decreases hi - lo,
    {
        hi = hi - 1;
    }
    let mut out: Vec<u8> = Vec::new();
    let mut i: usize = lo;
    while i < hi
        invariant
            lo <= i <= hi,
            hi <= bytes@.len(),
            out@ == bytes@.subrange(lo as int, i as int),
        decreases hi - i,
    {
        out.push(bytes[i]);
        i = i + 1;
        proof {
            assert(out@ =~= bytes@.subrange(lo as int, i as int));
        }
    }
    out
}

/// Relies on `String::from_utf8`: it succeeds exactly on valid UTF-8, and the
/// string then holds the decoded characters.
#[verifier::external_body]
fn decode_text(bytes: Vec<u8>) -> (r: Option<String>)
    ensures
        r is Some <==> valid_utf8(bytes@),
        r matches Some(s) ==> s@ == decode_utf8(bytes@),
{
    String::from_utf8(bytes).ok()
}

/// The URI that the request in `buffer` asks for: its target without NUL
/// padding, read as UTF-8 (empty where it is not), with `indexfile` appended
/// where it ends with `'/'`. A target longer than `TARGET_CAPACITY` bytes is
/// refused.
pub fn get_uri(buffer: &[u8], indexfile: &str) -> (r: Result<String, RequestError>)
    ensures
        r is Ok <==> target_fits(buffer@),
        r matches Ok(u) ==> u@ == request_uri(buffer@, indexfile@),
        r matches Err(e) ==> e == RequestError::TargetTooLong,
{
    let target = extract_target(buffer)?;
    let name = trim_nul_bytes(target.as_slice());
    let directory = name.len() > 0 && name[name.len() - 1] == SLASH;
    match decode_text(name) {
        Some(text) => {
            if directory {
                Ok(text.concat(indexfile))
            } else {
                Ok(text)
            }
        },
        None => Ok(String::new()),
    }
}

} // verus!
