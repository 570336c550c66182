//! Serving audio files: the byte range a request asks for and the response
//! it gets.

use vstd::prelude::*;

use crate::text::{
    append_chars, chars_of, contains_char, dec_nat, fmt_u64, parse_u64, parse_u64_spec,
    slice_of, split_once, split_once_lit, starts_with, starts_with_lit, string_of,
};

verus! {

/// An inclusive byte range of a file.
#[derive(Debug, Clone, Copy, PartialEq, Eq, Structural)]
pub struct ByteRange {
    pub start: u64,
    pub end: u64,
}

/// The range a `Range` header names within a file of `size` bytes:
/// `bytes=a-b`, `bytes=a-` (to the end) or `bytes=-n` (the last `n`
/// bytes); a single range only. The end is clamped to the file; a start
/// past the end of the file, an empty file and anything else are refused.
pub open spec fn bytes_range_spec(header: Seq<char>, size: u64) -> Option<(u64, u64)> {
    if size == 0 || !starts_with(header, "bytes="@) {
        None
    } else {
        let spec = header.skip(6);
        if spec.contains(',') {
            None
        } else {
            match split_once(spec, "-"@) {
                None => None,
                Some((a, b)) => {
                    let last = (size - 1) as u64;
                    if a.len() == 0 {
                        match parse_u64_spec(b) {
                            Some(n) => if n == 0 {
                                None
                            } else {
                                Some((if n >= size { 0u64 } else { (size - n) as u64 }, last))
                            },
                            None => None,
                        }
                    } else if b.len() == 0 {
                        match parse_u64_spec(a) {
                            Some(s) => if s > last {
                                None
                            } else {
                                Some((s, last))
                            },
                            None => None,
                        }
                    } else {
                        match (parse_u64_spec(a), parse_u64_spec(b)) {
                            (Some(s), Some(e)) => if s > e || s > last {
                                None
                            } else {
                                Some((s, if e < last { e } else { last }))
                            },
                            _ => None,
                        }
                    }
                },
            }
        }
    }
}

pub fn parse_bytes_range(header: &str, file_size: u64) -> (r: Result<ByteRange, ()>)
    ensures
        match bytes_range_spec(header@, file_size) {
            Some((s, e)) => r == Ok::<ByteRange, ()>(ByteRange { start: s, end: e }),
            None => r is Err,
        },
        r matches Ok(b) ==> b.start <= b.end < file_size,
{
    if file_size == 0 {
        return Err(());
    }
    let h = chars_of(header);
    if !starts_with_lit(h.as_slice(), "bytes=") {
        return Err(());
    }
    proof {
        reveal_strlit("bytes=");
    }
    let spec = slice_of(h.as_slice(), 6, h.len());
    assert(spec@ =~= h@.skip(6));
    if contains_char(spec.as_slice(), ',') {
        return Err(());
    }
    let (a, b) = match split_once_lit(spec.as_slice(), "-") {
        Some(p) => p,
        None => {
            return Err(());
        },
    };
    let last = file_size - 1;
    if a.len() == 0 {
        let n = match parse_u64(b.as_slice()) {
            Some(n) => n,
            None => {
                return Err(());
            },
        };
        if n == 0 {
            return Err(());
        }
        let start = if n >= file_size {
            0
        } else {
            file_size - n
        };
        Ok(ByteRange { start, end: last })
    } else if b.len() == 0 {
        let s = match parse_u64(a.as_slice()) {
            Some(s) => s,
            None => {
                return Err(());
            },
        };
        if s > last {
            return Err(());
        }
        Ok(ByteRange { start: s, end: last })
    } else {
        let s = match parse_u64(a.as_slice()) {
            Some(s) => s,
            None => {
                return Err(());
            },
        };
        let e = match parse_u64(b.as_slice()) {
            Some(e) => e,
            None => {
                return Err(());
            },
        };
        if s > e || s > last {
            return Err(());
        }
        Ok(ByteRange { start: s, end: if e < last { e } else { last } })
    }
}

/// How an audio file request is answered: the whole file, a part of it, or
/// a refusal of the range.
#[derive(Debug, Clone)]
pub enum AudioResponsePlan {
    /// `200 OK` with the whole file.
    Full { length: u64 },
    /// `206 Partial Content`: `length` bytes from `start`, described by
    /// `content_range`.
    Partial { start: u64, length: u64, content_range: String },
    /// `416 Range Not Satisfiable`, with `bytes */size`.
    Unsatisfiable { content_range: String },
}

/// The answer to a request for a file of `file_size` bytes with an
/// optional `Range` header (`audio_file_response` once the size is known).
pub fn audio_response_plan(range_header: Option<&str>, file_size: u64) -> (r: AudioResponsePlan)
    ensures
        match range_header {
            None => r == AudioResponsePlan::Full { length: file_size },
            Some(h) => match bytes_range_spec(h@, file_size) {
                Some((s, e)) => r matches AudioResponsePlan::Partial { start, length, content_range }
                    && start == s && length == e - s + 1 && content_range@ == "bytes "@ + dec_nat(
                    s as nat,
                ) + "-"@ + dec_nat(e as nat) + "/"@ + dec_nat(file_size as nat),
                None => r matches AudioResponsePlan::Unsatisfiable { content_range }
                    && content_range@ == "bytes */"@ + dec_nat(file_size as nat),
            },
        },
        r matches AudioResponsePlan::Partial { start, length, .. } ==> 1 <= length && start + length
            <= file_size,
{
    match range_header {
        None => AudioResponsePlan::Full { length: file_size },
        Some(h) => match parse_bytes_range(h, file_size) {
            Ok(r) => {
                let mut t = chars_of("bytes ");
                let d = fmt_u64(r.start);
                append_chars(&mut t, d.as_slice());
                let dash = chars_of("-");
                append_chars(&mut t, dash.as_slice());
                let d = fmt_u64(r.end);
                append_chars(&mut t, d.as_slice());
                let slash = chars_of("/");
                append_chars(&mut t, slash.as_slice());
                let d = fmt_u64(file_size);
                append_chars(&mut t, d.as_slice());
                AudioResponsePlan::Partial {
                    start: r.start,
                    length: r.end - r.start + 1,
                    content_range: string_of(t.as_slice()),
                }
            },
            Err(()) => {
                let mut t = chars_of("bytes */");
                let d = fmt_u64(file_size);
                append_chars(&mut t, d.as_slice());
                AudioResponsePlan::Unsatisfiable { content_range: string_of(t.as_slice()) }
            },
        },
    }
}


/// A number's decimal text is nonempty digits that parse back to it.
proof fn lemma_dec_u64(n: u64)
    ensures
        dec_nat(n as nat).len() > 0,
        forall|i: int| 0 <= i < dec_nat(n as nat).len() ==> crate::text::is_digit(#[trigger] dec_nat(n as nat)[i]),
        parse_u64_spec(dec_nat(n as nat)) == Some(n),
{
    crate::library::tag_io::lemma_dec_digits(n as nat);
    let d = dec_nat(n as nat);
    assert(crate::text::is_digit(d[0]));
    assert(crate::text::unsigned_body(d) == Some(d));
}

/// Text without `-`, a `-`, then more text splits at that `-`.
proof fn lemma_split_dash(x: Seq<char>, y: Seq<char>)
    requires
        forall|i: int| 0 <= i < x.len() ==> x[i] != '-',
    ensures
        split_once(x + "-"@ + y, "-"@) == Some((x, y)),
{
    reveal_strlit("-");
    let p = "-"@;
    let n = x + p + y;
    let k = x.len() as int;
    assert(n.subrange(k, k + 1) =~= p);
    assert(crate::text::match_at(n, p, k));
    assert forall|j: int| 0 <= j < k implies !crate::text::match_at(n, p, j) by {
        if crate::text::match_at(n, p, j) {
            assert(n.subrange(j, j + 1)[0] == n[j]);
            assert(n[j] == x[j]);
        }
    }
    crate::text::lemma_find_from_bounds(n, p, 0);
    assert(crate::text::find(n, p) == Some(k));
    assert(n.subrange(0, k) =~= x);
    assert(n.subrange(k + 1, n.len() as int) =~= y);
}

/// The range part of a header made of digits and one `-` holds no comma.
proof fn lemma_header_parts(x: Seq<char>, y: Seq<char>)
    requires
        forall|i: int| 0 <= i < x.len() ==> crate::text::is_digit(#[trigger] x[i]),
        forall|i: int| 0 <= i < y.len() ==> crate::text::is_digit(#[trigger] y[i]),
    ensures
        ("bytes="@ + x + "-"@ + y).skip(6) == x + "-"@ + y,
        starts_with("bytes="@ + x + "-"@ + y, "bytes="@),
        !(x + "-"@ + y).contains(','),
        split_once(x + "-"@ + y, "-"@) == Some((x, y)),
{
    reveal_strlit("bytes=");
    reveal_strlit("-");
    let h = "bytes="@ + x + "-"@ + y;
    assert(h.subrange(0, 6) =~= "bytes="@);
    assert(h.skip(6) =~= x + "-"@ + y);
    let sp = x + "-"@ + y;
    assert forall|i: int| 0 <= i < sp.len() implies sp[i] != ',' by {
        if i < x.len() {
            assert(sp[i] == x[i]);
        } else if i > x.len() {
            assert(sp[i] == y[i - x.len() - 1]);
        }
    }
    assert forall|i: int| 0 <= i < x.len() implies x[i] != '-' by {
        assert(crate::text::is_digit(x[i]));
    }
    lemma_split_dash(x, y);
}

/// `bytes=a-b` names the bytes from `a` to `b` (the end clamped to the
/// file's last byte), and is refused exactly when `a` is past `b`, `a` is
/// past the end of the file, or the file is empty.
pub proof fn lemma_closed_range(a: u64, b: u64, size: u64)
    ensures
        bytes_range_spec("bytes="@ + dec_nat(a as nat) + "-"@ + dec_nat(b as nat), size) == if size > 0 && a
            <= b && a < size {
            Some((a, if b < size { b } else { (size - 1) as u64 }))
        } else {
            None
        },
{
    lemma_dec_u64(a);
    lemma_dec_u64(b);
    lemma_header_parts(dec_nat(a as nat), dec_nat(b as nat));
}

/// `bytes=a-` names the bytes from `a` to the end of the file, and is
/// refused exactly when `a` is past the end of the file.
pub proof fn lemma_open_range(a: u64, size: u64)
    ensures
        bytes_range_spec("bytes="@ + dec_nat(a as nat) + "-"@, size) == if size > 0 && a < size {
            Some((a, (size - 1) as u64))
        } else {
            None
        },
{
    lemma_dec_u64(a);
    let e = Seq::<char>::empty();
    assert(dec_nat(a as nat) + "-"@ + e =~= dec_nat(a as nat) + "-"@);
    assert("bytes="@ + dec_nat(a as nat) + "-"@ + e =~= "bytes="@ + dec_nat(a as nat) + "-"@);
    lemma_header_parts(dec_nat(a as nat), e);
}

/// `bytes=-n` names the last `n` bytes of the file (all of it when `n`
/// reaches its size), and is refused for `n` of zero or an empty file.
pub proof fn lemma_suffix_range(n: u64, size: u64)
    ensures
        ({
            let r = bytes_range_spec("bytes=-"@ + dec_nat(n as nat), size);
            &&& (size > 0 && n > 0) ==> (r matches Some((s, e)) && e == size - 1 && e - s + 1 == (if n < size {
                n
            } else {
                size
            }))
            &&& (size == 0 || n == 0) ==> r is None
        }),
{
    reveal_strlit("bytes=-");
    reveal_strlit("bytes=");
    reveal_strlit("-");
    lemma_dec_u64(n);
    let e = Seq::<char>::empty();
    assert("bytes=-"@ =~= "bytes="@ + e + "-"@);
    assert("bytes=-"@ + dec_nat(n as nat) =~= "bytes="@ + e + "-"@ + dec_nat(n as nat));
    lemma_header_parts(e, dec_nat(n as nat));
}


/// A range is refused for an empty file, for a header that does not start
/// with `bytes=`, and for more than one range.
pub proof fn lemma_range_refusals(header: Seq<char>, size: u64)
    ensures
        size == 0 ==> bytes_range_spec(header, size) is None,
        !starts_with(header, "bytes="@) ==> bytes_range_spec(header, size) is None,
        header.skip(6).contains(',') ==> bytes_range_spec(header, size) is None,
{
}

} // verus!
