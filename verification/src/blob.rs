//! Spillover of oversized tool results into content-addressed blobs, and
//! the per-workdir lockfile name; both hash with BLAKE3.

use vstd::prelude::*;
use vstd::utf8::{valid_utf8, decode_utf8, encode_utf8};
use crate::format::{to_hex, hex_lower};
use crate::lines::collect_chars;
use crate::text::{chars_of, from_str, concat};

verus! {

/// Longest snippet kept inline, in bytes.
pub const SNIPPET_CAP: usize = 8192;

/// A payload ready to be stored as a blob: its hash (lowercase hex), its
/// length, a UTF-8 snippet of its start, and the bytes.
#[derive(Debug, Clone)]
pub struct PreparedBlob {
    pub hash: String,
    pub original_len: u64,
    pub snippet: String,
    pub payload: Vec<u8>,
}

/// A reference to a stored blob.
#[derive(Debug, Clone)]
pub struct BlobRef {
    pub hash: String,
    pub original_len: u64,
}

/// Why a blob could not be read.
#[derive(Debug)]
pub enum BlobError {
    Storage(String),
    NotFound,
}

/// Read access to stored blobs by hash.
pub trait BlobReader {
    fn get(&self, hash: &str) -> Result<Vec<u8>, BlobError>;
}

/// The BLAKE3 hash `blake3::hash` gives for these bytes.
pub uninterp spec fn blake3_of(bytes: Seq<u8>) -> Seq<u8>;

/// Calls `blake3::hash` and takes its 32 bytes. Claims the bytes are a
/// function of the input and that there are 32 of them.
#[verifier::external_body]
fn blake3_digest(bytes: &[u8]) -> (r: Vec<u8>)
    ensures
        r@ == blake3_of(bytes@),
        r@.len() == 32,
{
    blake3::hash(bytes).as_bytes().to_vec()
}

/// Calls `std::str::from_utf8` on `bytes[..end]`. Claims it succeeds exactly
/// on valid UTF-8, and then yields the characters the bytes encode.
#[verifier::external_body]
fn utf8_prefix(bytes: &[u8], end: usize) -> (r: Option<String>)
    requires
        end <= bytes@.len(),
    ensures
        match r {
            Some(s) => valid_utf8(bytes@.take(end as int)) && s@ == decode_utf8(bytes@.take(end as int)),
            None => !valid_utf8(bytes@.take(end as int)),
        },
{
    std::str::from_utf8(&bytes[..end]).ok().map(|s| s.to_owned())
}

/// The end of the longest valid UTF-8 prefix of `bytes` no longer than `i`.
pub open spec fn snippet_end(bytes: Seq<u8>, i: int) -> int
    decreases i,
{
    if i <= 0 {
        0
    } else if valid_utf8(bytes.take(i)) {
        i
    } else {
        snippet_end(bytes, i - 1)
    }
}

/// The snippet cap for a payload of `len` bytes.
pub open spec fn snippet_cap(len: int) -> int {
    if len < SNIPPET_CAP { len } else { SNIPPET_CAP as int }
}

/// Lowercase hex BLAKE3 hash of `bytes`.
pub open spec fn blob_hash(bytes: Seq<u8>) -> Seq<char> {
    hex_lower(blake3_of(bytes))
}

proof fn lemma_empty_is_utf8(bytes: Seq<u8>)
    ensures
        valid_utf8(bytes.take(0)),
{
    assert(bytes.take(0) =~= Seq::<u8>::empty());
}

/// Hash the bytes and cut a snippet of at most `SNIPPET_CAP` bytes that
/// ends on a character boundary.
pub fn prepare_blob(bytes: &[u8]) -> (r: PreparedBlob)
    ensures
        r.hash@ == blob_hash(bytes@),
        r.hash@.len() == 64,
        r.original_len == bytes@.len(),
        r.snippet@ == decode_utf8(bytes@.take(snippet_end(bytes@, snippet_cap(bytes@.len() as int)))),
        r.payload@ == bytes@,
{
    let digest = blake3_digest(bytes);
    let hash = to_hex(digest.as_slice());
    proof {
        lemma_hex_len(digest@);
    }
    let cap = if bytes.len() < SNIPPET_CAP { bytes.len() } else { SNIPPET_CAP };
    let mut end = cap;
    let mut snippet = String::new();
    loop
        invariant
            end <= cap <= bytes@.len(),
            cap == snippet_cap(bytes@.len() as int),
            snippet_end(bytes@, cap as int) == snippet_end(bytes@, end as int),
        ensures
            snippet_end(bytes@, cap as int) == end,
            snippet@ == decode_utf8(bytes@.take(end as int)),
        decreases end,
    {
        proof {
            lemma_empty_is_utf8(bytes@);
        }
        match utf8_prefix(bytes, end) {
            Some(s) => {
                snippet = s;
                break;
            },
            None => {
                end = end - 1;
            },
        }
    }
    PreparedBlob {
        hash,
        original_len: bytes.len() as u64,
        snippet,
        payload: vstd::slice::slice_to_vec(bytes),
    }
}

/// The snippet ends at the longest prefix within the cap that is valid
/// UTF-8: that prefix is valid, and no longer one within the cap is.
pub proof fn lemma_snippet_is_longest_utf8_prefix(bytes: Seq<u8>, cap: int)
    requires
        0 <= cap <= bytes.len(),
    ensures
        0 <= snippet_end(bytes, cap) <= cap,
        valid_utf8(bytes.take(snippet_end(bytes, cap))),
        forall|j: int| snippet_end(bytes, cap) < j <= cap ==> !valid_utf8(#[trigger] bytes.take(j)),
    decreases cap,
{
    if cap <= 0 {
        lemma_empty_is_utf8(bytes);
    } else if !valid_utf8(bytes.take(cap)) {
        lemma_snippet_is_longest_utf8_prefix(bytes, cap - 1);
    }
}

/// The file name a workdir's lock takes: the first 16 hex digits of the
/// BLAKE3 hash of its path, then `.lock`.
pub open spec fn lock_name(workdir: Seq<char>) -> Seq<char> {
    hex_lower(blake3_of(encode_utf8(workdir))).take(16) + ".lock"@
}

/// The lock file name for a workdir path.
pub fn lock_file_name(workdir: &str) -> (r: String)
    ensures
        r@ == lock_name(workdir@),
{
    let digest = blake3_digest(workdir.as_bytes());
    let hex = to_hex(digest.as_slice());
    let v = chars_of(hex.as_str());
    assert(hex_lower(digest@).len() >= 16) by {
        lemma_hex_len(digest@);
    }
    let head = collect_chars(&v, 0, 16);
    assert(v@.subrange(0, 16) =~= hex@.take(16));
    concat(&head, &from_str(".lock"))
}

proof fn lemma_hex_len(bs: Seq<u8>)
    ensures
        hex_lower(bs).len() == 2 * bs.len(),
    decreases bs.len(),
{
    if bs.len() > 0 {
        lemma_hex_len(bs.drop_last());
    }
}

/// Why the lock could not be taken.
#[derive(Debug)]
pub enum LockfileError {
    Io(String),
    AlreadyHeld,
    InvalidPath(String),
}

/// `base` joined with the relative component `comp`, as `PathBuf::push`
/// does on Unix: a separator is added unless `base` is empty or already
/// ends with one.
pub open spec fn path_join(base: Seq<char>, comp: Seq<char>) -> Seq<char> {
    if base.len() == 0 {
        comp
    } else if base.last() == '/' {
        base + comp
    } else {
        base + seq!['/'] + comp
    }
}

fn join(base: &String, comp: &str) -> (r: String)
    ensures
        r@ == path_join(base@, comp@),
{
    let v = chars_of(base.as_str());
    if v.len() == 0 {
        from_str(comp)
    } else if v[v.len() - 1] == '/' {
        concat(base, &from_str(comp))
    } else {
        let with_sep = concat(base, &from_str("/"));
        proof {
            reveal_strlit("/");
        }
        concat(&with_sep, &from_str(comp))
    }
}

/// Where lock files live: `.nephila/locks` under the home directory.
pub open spec fn spec_lock_dir(home: Seq<char>) -> Seq<char> {
    path_join(path_join(home, ".nephila"@), "locks"@)
}

/// The lock directory under `home` (the value of `$HOME`), or an error when
/// it is unset.
pub fn lock_dir(home: Option<String>) -> (r: Result<String, LockfileError>)
    ensures
        match home {
            Some(h) => r matches Ok(d) && d@ == spec_lock_dir(h@),
            None => r matches Err(LockfileError::InvalidPath(m)) && m@ == "$HOME unset"@,
        },
{
    match home {
        Some(h) => {
            let nephila = join(&h, ".nephila");
            Ok(join(&nephila, "locks"))
        },
        None => Err(LockfileError::InvalidPath(from_str("$HOME unset"))),
    }
}

} // verus!
