//! How a guest and its host hand bytes to each other.
//!
//! A guest passes an argument as a place in its memory: a pointer and a length. For an answer it
//! passes a place too, with the room that is there. The host answers with the number of bytes that
//! it wrote, or with a negative code, and keeps a text that says more.
use vstd::prelude::*;
use vstd::utf8::{decode_utf8, encode_utf8, valid_utf8};

use crate::bytes::{overwrite, overwritten, slice_of, text_from_utf8};
use crate::error::{AfterburnerError, ErrorView};
use crate::text::{chars_occur, chars_of, decimal, lower, lower_chars, occurs_in, push_i64, push_u64};

verus! {

/// A capability was withheld.
pub const E_PERMISSION: i32 = -1;

/// What was asked for does not exist.
pub const E_NOT_FOUND: i32 = -2;

/// Anything else went wrong.
pub const E_OTHER: i32 = -3;

/// The room for the answer is too small.
pub const E_BUF_TOO_SMALL: i32 = -4;

/// Whether a memory of `size` bytes has the `len` bytes from `ptr` on.
pub open spec fn has_place(size: int, ptr: int, len: int) -> bool {
    0 <= ptr && 0 <= len && ptr + len <= i32::MAX && ptr + len <= size
}

/// The bytes at a place in `mem`.
pub open spec fn bytes_at(mem: Seq<u8>, ptr: int, len: int) -> Option<Seq<u8>> {
    if has_place(mem.len() as int, ptr, len) {
        Some(mem.subrange(ptr, ptr + len))
    } else {
        None
    }
}

/// The text at a place in `mem`.
pub open spec fn text_at(mem: Seq<u8>, ptr: int, len: int) -> Option<Seq<char>> {
    match bytes_at(mem, ptr, len) {
        Some(b) => if valid_utf8(b) {
            Some(decode_utf8(b))
        } else {
            None
        },
        None => None,
    }
}

/// The bytes at a place in the guest's memory; `None` where it has no such place.
pub fn read_bytes(mem: &[u8], ptr: i64, len: i64) -> (r: Option<Vec<u8>>)
    ensures
        match r {
            Some(b) => bytes_at(mem@, ptr as int, len as int) == Some(b@),
            None => bytes_at(mem@, ptr as int, len as int) is None,
        },
{
    if ptr < 0 || len < 0 || ptr > 0x7fff_ffff || len > 0x7fff_ffff - ptr {
        return None;
    }
    let size: usize = mem.len();
    if (ptr + len) as u64 > size as u64 {
        return None;
    }
    Some(slice_of(mem, ptr as usize, (ptr + len) as usize))
}

/// The text at a place in the guest's memory; `None` where it has no such place, or no UTF-8 there.
pub fn read_str(mem: &[u8], ptr: i64, len: i64) -> (r: Option<String>)
    ensures
        match r {
            Some(s) => text_at(mem@, ptr as int, len as int) == Some(s@),
            None => text_at(mem@, ptr as int, len as int) is None,
        },
{
    match read_bytes(mem, ptr, len) {
        Some(b) => match text_from_utf8(&b) {
            Ok(s) => Some(s),
            Err(_) => None,
        },
        None => None,
    }
}

/// What is said of an answer that does not fit.
pub open spec fn no_room_text(len: int, cap: int) -> Seq<char> {
    "output "@ + decimal(len) + " > cap "@ + decimal(cap)
}

/// Whether `len` bytes are more than the room `cap`; a room below zero is no bound.
pub open spec fn lacks_room(len: int, cap: int) -> bool {
    0 <= cap < len
}

/// What comes of writing `len` bytes to a place with room `cap` in a memory of `size` bytes.
pub open spec fn write_code(size: int, ptr: int, cap: int, len: int) -> i32 {
    if lacks_room(len, cap) {
        E_BUF_TOO_SMALL
    } else if 0 <= ptr && ptr + len <= size {
        len as i32
    } else {
        E_OTHER
    }
}

/// Whether `len` bytes are written to a place with room `cap` in a memory of `size` bytes.
pub open spec fn fits(size: int, ptr: int, cap: int, len: int) -> bool {
    !lacks_room(len, cap) && 0 <= ptr && ptr + len <= size
}

fn low_word(n: usize) -> (r: i32)
    ensures
        r == n as i32,
{
    #[verifier::truncate]
    (n as i32)
}

/// Writes an answer to the place that the guest gave for it: the number of bytes, or a code.
pub fn write_out(mem: &mut [u8], last_error: &mut String, ptr: i64, cap: i64, data: &[u8]) -> (r: i32)
    ensures
        r == write_code(old(mem)@.len() as int, ptr as int, cap as int, data@.len() as int),
        final(mem)@ == (if fits(old(mem)@.len() as int, ptr as int, cap as int, data@.len() as int) {
            overwritten(old(mem)@, ptr as int, data@)
        } else {
            old(mem)@
        }),
        final(last_error)@ == (if lacks_room(data@.len() as int, cap as int) {
            no_room_text(data@.len() as int, cap as int)
        } else {
            old(last_error)@
        }),
{
    let len: usize = data.len();
    if cap >= 0 && len as u64 > cap as u64 {
        let mut m = "output ".to_owned();
        push_u64(&mut m, len as u64);
        m.append(" > cap ");
        push_i64(&mut m, cap);
        *last_error = m;
        return E_BUF_TOO_SMALL;
    }
    let size: usize = mem.len();
    if ptr < 0 || ptr as u64 > size as u64 || len > size - ptr as usize {
        return E_OTHER;
    }
    let start: usize = ptr as usize;
    overwrite(mem, start, data);
    low_word(len)
}

/// The code for an error of a service: what was withheld, what does not exist, or anything else.
pub open spec fn error_code(e: ErrorView) -> i32 {
    match e {
        ErrorView::PermissionDenied(_) => E_PERMISSION,
        ErrorView::Host(text) => if occurs_in("not found"@, lower(text)) {
            E_NOT_FOUND
        } else {
            E_OTHER
        },
        _ => E_OTHER,
    }
}

/// The code for an error of a service, which prints as `text`; the text is kept for the guest.
pub fn map_err(last_error: &mut String, err: &AfterburnerError, text: &str) -> (r: i32)
    ensures
        r == error_code(err@),
        final(last_error)@ == text@,
{
    *last_error = text.to_owned();
    match err {
        AfterburnerError::PermissionDenied(_) => E_PERMISSION,
        AfterburnerError::Host(msg) => {
            let chars = lower_chars(msg);
            let needle = chars_of("not found");
            if chars_occur(&needle, &chars) {
                E_NOT_FOUND
            } else {
                E_OTHER
            }
        },
        _ => E_OTHER,
    }
}

/// Keeps what a coordinator says of a call, if it says anything.
pub fn adopt_error(last_error: &mut String, said: String)
    ensures
        final(last_error)@ == (if said@.len() > 0 {
            said@
        } else {
            old(last_error)@
        }),
{
    if !said.as_str().is_empty() {
        *last_error = said;
    }
}

/// An answer that was written is what the guest finds at that place, and the rest of its memory is
/// as it was.
pub proof fn answers_are_read_back(mem: Seq<u8>, ptr: int, cap: int, data: Seq<u8>)
    requires
        fits(mem.len() as int, ptr, cap, data.len() as int),
        ptr + data.len() <= i32::MAX,
    ensures
        write_code(mem.len() as int, ptr, cap, data.len() as int) == data.len(),
        bytes_at(overwritten(mem, ptr, data), ptr, data.len() as int) == Some(data),
        overwritten(mem, ptr, data).len() == mem.len(),
        forall|i: int|
            0 <= i < mem.len() && !(ptr <= i < ptr + data.len()) ==> #[trigger] overwritten(
                mem,
                ptr,
                data,
            )[i] == mem[i],
{
    assert(overwritten(mem, ptr, data).subrange(ptr, ptr + data.len()) =~= data);
}

/// A place of the guest's memory is read as what lies there: its bytes, and its text where they are
/// UTF-8. What does not lie in the memory, or not below two gigabytes, is no place.
pub proof fn places_hold_what_lies_there(mem: Seq<u8>, ptr: int, len: int)
    ensures
        0 <= ptr && 0 <= len && ptr + len <= mem.len() && ptr + len <= 0x7fff_ffff ==> {
            &&& bytes_at(mem, ptr, len) == Some(mem.subrange(ptr, ptr + len))
            &&& valid_utf8(mem.subrange(ptr, ptr + len)) ==> text_at(mem, ptr, len) == Some(
                decode_utf8(mem.subrange(ptr, ptr + len)),
            )
            &&& !valid_utf8(mem.subrange(ptr, ptr + len)) ==> text_at(mem, ptr, len) is None
        },
        ptr < 0 || len < 0 || ptr + len > mem.len() || ptr + len > 0x7fff_ffff ==> bytes_at(
            mem,
            ptr,
            len,
        ) is None && text_at(mem, ptr, len) is None,
{
}

/// A text that lies in the guest's memory in UTF-8 is read as that text.
pub proof fn texts_are_read(mem: Seq<u8>, ptr: int, text: Seq<char>)
    requires
        0 <= ptr,
        ptr + encode_utf8(text).len() <= mem.len(),
        ptr + encode_utf8(text).len() <= 0x7fff_ffff,
        mem.subrange(ptr, ptr + encode_utf8(text).len()) == encode_utf8(text),
    ensures
        text_at(mem, ptr, encode_utf8(text).len() as int) == Some(text),
{
    vstd::utf8::encode_utf8_valid_utf8(text);
    vstd::utf8::encode_utf8_decode_utf8(text);
}

/// An answer is written where it fits into the room that the guest gave and into its memory, and its
/// length is the answer; minus four where there is too little room, minus three where the place
/// does not lie in the memory.
pub proof fn answers_are_written_where_they_fit(size: int, ptr: int, cap: int, len: int)
    requires
        0 <= len <= 0x7fff_ffff,
        0 <= cap,
    ensures
        fits(size, ptr, cap, len) <==> len <= cap && 0 <= ptr && ptr + len <= size,
        len <= cap && 0 <= ptr && ptr + len <= size ==> write_code(size, ptr, cap, len) == len,
        len > cap ==> write_code(size, ptr, cap, len) == -4,
        len <= cap && (ptr < 0 || ptr + len > size) ==> write_code(size, ptr, cap, len) == -3,
{
}

/// An error is minus one where permission was denied, minus two where the host says that something
/// was not found, and minus three otherwise.
pub proof fn errors_have_their_codes(e: ErrorView)
    ensures
        e is PermissionDenied ==> error_code(e) == -1,
        e matches ErrorView::Host(text) ==> (occurs_in("not found"@, lower(text)) ==> error_code(e)
            == -2),
        e matches ErrorView::Host(text) ==> (!occurs_in("not found"@, lower(text)) ==> error_code(e)
            == -3),
        !(e is PermissionDenied) && !(e is Host) ==> error_code(e) == -3,
{
}

} // verus!
