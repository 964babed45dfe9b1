//! Windowed file reads: a file no larger than the window is served whole;
//! a larger file, or an explicit nonzero offset, is served from a start
//! offset to end of file. A window start that lands inside a multi-byte
//! UTF-8 character is corrected by advancing one byte at a time, a bounded
//! number of times.
//!
//! An explicit offset deliberately reads to end of file, however much
//! remains: that is what the "load more from here" pagination promises,
//! and a client choosing a small offset on a huge file pays for it.

use vstd::prelude::*;
use vstd::utf8::*;

verus! {

/// The largest number of bytes a default read returns (512 kB).
pub const MAX_FILE_LEN: u64 = 512000;

/// How many one-byte advances are tried when a window start lands inside
/// a multi-byte character.
pub const DECODE_RETRIES: u8 = 3;

/// Content that was not valid UTF-8, even after the bounded boundary
/// correction.
#[derive(Clone, Copy, Debug, PartialEq, Eq, Structural)]
pub struct DecodeError;

/// How a read request is to be served.
#[derive(Clone, Copy, Debug, PartialEq, Eq, Structural)]
pub enum ReadPlan {
    /// Read the whole file and decode it, with no retry.
    Full,
    /// Seek to `start` and read to end of file.
    Tail { start: u64 },
}

/// The policy choosing between a full read and a tail window: a file
/// larger than the window, or any explicit nonzero offset, is read from
/// an offset; everything else is read whole.
pub open spec fn read_plan_spec(file_len: u64, start_seek: u64) -> ReadPlan {
    if file_len > MAX_FILE_LEN || start_seek > 0 {
        if start_seek > 0 {
            ReadPlan::Tail { start: start_seek }
        } else {
            ReadPlan::Tail { start: (file_len - MAX_FILE_LEN) as u64 }
        }
    } else {
        ReadPlan::Full
    }
}

/// How many bytes a read following `plan` hands back for a file of
/// `file_len` bytes: a seek at or past end of file reads nothing.
pub open spec fn window_len_spec(file_len: u64, plan: ReadPlan) -> int {
    match plan {
        ReadPlan::Full => file_len as int,
        ReadPlan::Tail { start } => if start <= file_len {
            file_len - start
        } else {
            0
        },
    }
}

/// Chooses how to serve a read of a `file_len`-byte file asked for at
/// offset `start_seek`.
pub fn plan_read(file_len: u64, start_seek: u64) -> (plan: ReadPlan)
    ensures
        plan == read_plan_spec(file_len, start_seek),
{
    if file_len > MAX_FILE_LEN || start_seek > 0 {
        if start_seek > 0 {
            ReadPlan::Tail { start: start_seek }
        } else {
            ReadPlan::Tail { start: file_len - MAX_FILE_LEN }
        }
    } else {
        ReadPlan::Full
    }
}

/// Relies on str::from_utf8: it succeeds exactly on valid UTF-8 input and
/// yields the characters the bytes encode.
#[verifier::external_body]
fn decode_bytes(bytes: &[u8]) -> (r: Option<String>)
    ensures
        r is Some <==> valid_utf8(bytes@),
        r matches Some(s) ==> s@ == decode_utf8(bytes@),
{
    match std::str::from_utf8(bytes) {
        Ok(s) => Some(s.to_owned()),
        Err(_) => None,
    }
}

/// The bytes of `bytes` from index `k` on; empty when `k` is out of
/// range (a seek past end of file reads nothing).
pub open spec fn suffix_from(bytes: Seq<u8>, k: int) -> Seq<u8> {
    if 0 <= k <= bytes.len() {
        bytes.subrange(k, bytes.len() as int)
    } else {
        Seq::empty()
    }
}

/// The smallest advance in `k ..= tries` whose suffix of `bytes` is valid
/// UTF-8, if any.
pub open spec fn first_decodable(bytes: Seq<u8>, k: int, tries: int) -> Option<int>
    decreases tries - k + 1,
{
    if k > tries {
        None
    } else if valid_utf8(suffix_from(bytes, k)) {
        Some(k)
    } else {
        first_decodable(bytes, k + 1, tries)
    }
}

/// Decodes the window that was read starting at byte offset `seek` of the
/// file, advancing the start one byte at a time, up to `times` extra
/// attempts, when the offset split a multi-byte character. Returns the
/// decoded text and the offset actually used.
pub fn attempt_to_read(bytes: &[u8], seek: u64, times: u8) -> (r: Result<(String, u64), DecodeError>)
    requires
        seek + times <= u64::MAX,
    ensures
        match r {
            Ok(p) => {
                &&& seek <= p.1 <= seek + times
                &&& first_decodable(bytes@, 0, times as int) == Some(p.1 - seek)
                &&& p.0@ == decode_utf8(suffix_from(bytes@, p.1 - seek))
            },
            Err(_) => first_decodable(bytes@, 0, times as int) is None,
        },
{
    let mut k: u8 = 0;
    loop
        invariant
            k <= times,
            seek + times <= u64::MAX,
            first_decodable(bytes@, 0, times as int) == first_decodable(
                bytes@,
                k as int,
                times as int,
            ),
        decreases times - k,
    {
        let idx: usize = if (k as usize) < bytes.len() {
            k as usize
        } else {
            bytes.len()
        };
        let sub = &bytes[idx..bytes.len()];
        proof {
            assert(sub@ =~= suffix_from(bytes@, k as int));
        }
        match decode_bytes(sub) {
            Some(s) => {
                proof {
                    assert(first_decodable(bytes@, k as int, times as int) == Some(k as int));
                }
                return Ok((s, seek + k as u64));
            },
            None => {
                if k == times {
                    proof {
                        assert(first_decodable(bytes@, k + 1 as int, times as int) is None);
                    }
                    return Err(DecodeError);
                }
                k = k + 1;
            },
        }
    }
}

/// What a read hands back: the decoded window, the full length of the
/// file (so a client can ask for more), and the path shown for it.
pub struct DetailRender {
    pub content: String,
    pub seek: u64,
    pub file_path: String,
    pub write: bool,
}

impl DetailRender {
    pub fn new(content: String, file_path: String, seek: u64) -> (r: DetailRender)
        ensures
            r.content == content,
            r.file_path == file_path,
            r.seek == seek,
            r.write == false,
    {
        DetailRender { content, seek, file_path, write: false }
    }

    pub fn set_write(&mut self, write: bool)
        ensures
            final(self).content == old(self).content,
            final(self).seek == old(self).seek,
            final(self).file_path == old(self).file_path,
            final(self).write == write,
    {
        self.write = write;
    }
}

/// Builds the read result from the bytes the caller read following
/// `read_plan_spec(file_len, start_seek)`: a full read is decoded with no
/// retry; a tail window gets the bounded boundary correction. `seek` in
/// the result is always the true file length, and the decoded content
/// never re-encodes to more bytes than were read.
pub fn get_detail_render(
    bytes: &[u8],
    file_len: u64,
    start_seek: u64,
    file_path: String,
) -> (r: Result<DetailRender, DecodeError>)
    requires
        start_seek <= u64::MAX - DECODE_RETRIES,
        bytes@.len() == window_len_spec(file_len, read_plan_spec(file_len, start_seek)),
    ensures
        match r {
            Ok(d) => {
                &&& d.seek == file_len
                &&& d.file_path == file_path
                &&& d.write == false
                &&& encode_utf8(d.content@).len() <= bytes@.len()
                &&& match read_plan_spec(file_len, start_seek) {
                    ReadPlan::Full => valid_utf8(bytes@) && d.content@ == decode_utf8(bytes@),
                    ReadPlan::Tail { start } => first_decodable(
                        bytes@,
                        0,
                        DECODE_RETRIES as int,
                    ) matches Some(k) && d.content@ == decode_utf8(suffix_from(bytes@, k)),
                }
            },
            Err(_) => match read_plan_spec(file_len, start_seek) {
                ReadPlan::Full => !valid_utf8(bytes@),
                ReadPlan::Tail { start } => first_decodable(
                    bytes@,
                    0,
                    DECODE_RETRIES as int,
                ) is None,
            },
        },
{
    let plan = plan_read(file_len, start_seek);
    match plan {
        ReadPlan::Full => {
            match decode_bytes(bytes) {
                Some(s) => {
                    proof {
                        decode_utf8_encode_utf8(bytes@);
                    }
                    Ok(DetailRender::new(s, file_path, file_len))
                },
                None => Err(DecodeError),
            }
        },
        ReadPlan::Tail { start } => {
            match attempt_to_read(bytes, start, DECODE_RETRIES) {
                Ok(p) => {
                    proof {
                        let k = p.1 - start;
                        if first_decodable(bytes@, 0, DECODE_RETRIES as int) == Some(k) {
                            lemma_first_decodable_valid(bytes@, 0, DECODE_RETRIES as int);
                            decode_utf8_encode_utf8(suffix_from(bytes@, k));
                        }
                    }
                    Ok(DetailRender::new(p.0, file_path, file_len))
                },
                Err(e) => Err(e),
            }
        },
    }
}

/// A found advance really is decodable and lies in range.
pub proof fn lemma_first_decodable_valid(bytes: Seq<u8>, k: int, tries: int)
    requires
        first_decodable(bytes, k, tries) is Some,
    ensures
        first_decodable(bytes, k, tries) matches Some(j) ==> k <= j <= tries && valid_utf8(
            suffix_from(bytes, j),
        ),
    decreases tries - k + 1,
{
    if k > tries {
    } else if valid_utf8(suffix_from(bytes, k)) {
    } else {
        lemma_first_decodable_valid(bytes, k + 1, tries);
    }
}

/// Law: a read asked for at offset zero of a file no larger than the
/// window is planned as a full read of exactly the whole file.
pub proof fn lemma_small_file_read_full(file_len: u64)
    requires
        file_len <= MAX_FILE_LEN,
    ensures
        read_plan_spec(file_len, 0) is Full,
        window_len_spec(file_len, read_plan_spec(file_len, 0)) == file_len,
{
}

/// Law: a read asked for at offset zero of a file larger than the window
/// is planned as a tail window of exactly the window size, ending at end
/// of file.
pub proof fn lemma_large_file_tail_window(file_len: u64)
    requires
        file_len > MAX_FILE_LEN,
    ensures
        read_plan_spec(file_len, 0) == (ReadPlan::Tail { start: (file_len - MAX_FILE_LEN) as u64 }),
        window_len_spec(file_len, read_plan_spec(file_len, 0)) == MAX_FILE_LEN,
{
}

/// Law: whatever suffix of the tail window decodes, the decoded content
/// re-encodes to exactly the last bytes of the window: it ends at end of
/// file and is no longer than the window that was read.
pub proof fn lemma_tail_window_bounded(bytes: Seq<u8>, k: int)
    requires
        0 <= k <= bytes.len(),
        valid_utf8(suffix_from(bytes, k)),
    ensures
        encode_utf8(decode_utf8(suffix_from(bytes, k))) == bytes.subrange(k, bytes.len() as int),
        encode_utf8(decode_utf8(suffix_from(bytes, k))).len() <= bytes.len(),
{
    decode_utf8_encode_utf8(suffix_from(bytes, k));
}

} // verus!
