//! Lists of texts in SQLite's binary JSON, as the local catalog hands the
//! artists of a track over: a check of the framing, and the decoding itself.

use vstd::prelude::*;

verus! {

/// The number of bytes, after the first, that hold an element's payload
/// size: none where the upper half of the first byte is the size itself.
pub open spec fn size_field(first: u8) -> int {
    let code = first / 16;
    if code <= 11 {
        0
    } else if code == 12 {
        1
    } else if code == 13 {
        2
    } else if code == 14 {
        4
    } else {
        8
    }
}

/// The type code of an element: the lower half of its first byte. The
/// codes from seven to ten mark texts.
pub open spec fn element_type(first: u8) -> int {
    (first % 16) as int
}

/// The number that `s` writes, most significant byte first.
pub open spec fn big_endian(s: Seq<u8>) -> nat
    decreases s.len(),
{
    if s.len() == 0 {
        0
    } else {
        big_endian(s.drop_last()) * 256 + s.last() as nat
    }
}

/// The payload size that the header at `pos` declares.
pub open spec fn payload_size(bytes: Seq<u8>, pos: int) -> nat {
    if size_field(bytes[pos]) == 0 {
        (bytes[pos] / 16) as nat
    } else {
        big_endian(bytes.subrange(pos + 1, pos + 1 + size_field(bytes[pos])))
    }
}

/// Where a payload of `size` bytes that starts at `start` ends, when
/// nothing can be read past `end`.
pub open spec fn payload_end(start: int, size: nat, end: int) -> int {
    if size > end - start {
        end
    } else {
        start + size
    }
}

/// Whether the elements that lie in `bytes[pos..end]`, read one after the
/// other, are framed: no plain text among them (type codes seven and ten)
/// declares more bytes than are left before `end`. A text with JSON escapes
/// (type code eight) is read as far as the bytes go. Reading stops, without
/// harm, at a header that is cut short and at any other element.
pub open spec fn framed_from(bytes: Seq<u8>, pos: int, end: int) -> bool
    decreases end - pos,
{
    if pos < 0 || pos >= end || end > bytes.len() {
        true
    } else {
        let start = pos + 1 + size_field(bytes[pos]);
        let size = payload_size(bytes, pos);
        if start > end {
            true
        } else if element_type(bytes[pos]) == 7 || element_type(bytes[pos]) == 10 {
            size <= end - start && framed_from(bytes, start + size, end)
        } else if element_type(bytes[pos]) == 8 {
            framed_from(bytes, payload_end(start, size, end), end)
        } else {
            true
        }
    }
}

/// Whether `bytes`, read as a list, is framed: the list's elements are
/// those that lie in its payload, as far as the bytes go.
pub open spec fn well_framed(bytes: Seq<u8>) -> bool {
    if bytes.len() == 0 {
        true
    } else {
        let start = 1 + size_field(bytes[0]);
        if start > bytes.len() {
            true
        } else {
            framed_from(
                bytes,
                start,
                payload_end(start, payload_size(bytes, 0), bytes.len() as int),
            )
        }
    }
}

/// The texts that `bytes` holds as a list in SQLite's binary JSON; nothing
/// where `bytes` is no such list.
pub uninterp spec fn jsonb_strings(bytes: Seq<u8>) -> Option<Seq<Seq<char>>>;

/// The texts that can be had from `bytes`: those it holds, if it is framed.
pub open spec fn strings_in(bytes: Seq<u8>) -> Option<Seq<Seq<char>>> {
    if well_framed(bytes) {
        jsonb_strings(bytes)
    } else {
        None
    }
}

/// 256 to the power `i`, for the sizes of a size field.
spec fn limit(i: int) -> int {
    if i <= 0 {
        1
    } else if i == 1 {
        0x100
    } else if i == 2 {
        0x1_0000
    } else if i == 3 {
        0x100_0000
    } else if i == 4 {
        0x1_0000_0000
    } else if i == 5 {
        0x100_0000_0000
    } else if i == 6 {
        0x1_0000_0000_0000
    } else if i == 7 {
        0x100_0000_0000_0000
    } else {
        0x1_0000_0000_0000_0000
    }
}

/// Reads the header at `pos`: the element's type code, its payload size and
/// where its payload starts. Nothing where the header does not end before
/// `end`.
fn read_header(bytes: &[u8], pos: usize, end: usize) -> (header: Option<(u8, u64, usize)>)
    requires
        pos < end <= bytes.len(),
    ensures
        header is None <==> pos + 1 + size_field(bytes@[pos as int]) > end,
        header matches Some((k, size, start)) ==> {
            &&& k == element_type(bytes@[pos as int])
            &&& size == payload_size(bytes@, pos as int)
            &&& start == pos + 1 + size_field(bytes@[pos as int])
        },
{
    let first = bytes[pos];
    let code = first / 16;
    let width: usize = if code <= 11 {
        0
    } else if code == 12 {
        1
    } else if code == 13 {
        2
    } else if code == 14 {
        4
    } else {
        8
    };
    if width > end - pos - 1 {
        return None;
    }
    let start = pos + 1 + width;
    if width == 0 {
        return Some((first % 16, code as u64, start));
    }
    let mut size: u64 = 0;
    let mut i: usize = 0;
    while i < width
        invariant
            i <= width <= 8,
            start == pos + 1 + width,
            start <= end <= bytes.len(),
            size == big_endian(bytes@.subrange(pos + 1, pos + 1 + i)),
            size < limit(i as int),
        decreases width - i,
    {
        let b = bytes[pos + 1 + i];
        assert(bytes@.subrange(pos + 1, pos + 1 + i + 1).drop_last() =~= bytes@.subrange(
            pos + 1,
            pos + 1 + i,
        ));
        size = size * 256 + b as u64;
        i += 1;
    }
    Some((first % 16, size, start))
}

/// Whether the elements in `bytes[from..end]` are framed.
fn check_from(bytes: &[u8], from: usize, end: usize) -> (ok: bool)
    requires
        from <= end <= bytes.len(),
    ensures
        ok == framed_from(bytes@, from as int, end as int),
{
    let mut pos = from;
    while pos < end
        invariant
            from <= pos <= end <= bytes.len(),
            framed_from(bytes@, from as int, end as int) == framed_from(
                bytes@,
                pos as int,
                end as int,
            ),
        decreases end - pos,
    {
        match read_header(bytes, pos, end) {
            None => {
                return true;
            },
            Some((k, size, start)) => {
                let room = (end - start) as u64;
                if k == 7 || k == 10 {
                    if size > room {
                        return false;
                    }
                    pos = start + size as usize;
                } else if k == 8 {
                    pos = if size > room {
                        end
                    } else {
                        start + size as usize
                    };
                } else {
                    return true;
                }
            },
        }
    }
    true
}

/// Whether `bytes`, read as a list, is framed.
pub fn is_framed(bytes: &[u8]) -> (ok: bool)
    ensures
        ok == well_framed(bytes@),
{
    let n = bytes.len();
    if n == 0 {
        return true;
    }
    match read_header(bytes, 0, n) {
        None => true,
        Some((_, size, start)) => {
            let end = if size > (n - start) as u64 {
                n
            } else {
                start + size as usize
            };
            check_from(bytes, start, end)
        },
    }
}

/// `serde_sqlite_jsonb::from_slice`, asked for a list of texts: the texts
/// that `bytes` holds, or nothing where it reports an error. On a plain
/// text that declares more bytes than follow, it stops the program; such
/// input is left out.
#[verifier::external_body]
fn decode_strings(bytes: &[u8]) -> (out: Option<Vec<String>>)
    requires
        well_framed(bytes@),
    ensures
        out.deep_view() == jsonb_strings(bytes@),
{
    serde_sqlite_jsonb::from_slice::<Vec<String>>(bytes).ok()
}

/// Decodes the list of texts that `bytes` holds. Gives nothing where
/// `bytes` is not framed or cannot be decoded.
pub fn read_strings(bytes: &[u8]) -> (out: Option<Vec<String>>)
    ensures
        out.deep_view() == strings_in(bytes@),
{
    if is_framed(bytes) {
        decode_strings(bytes)
    } else {
        None
    }
}

} // verus!
