use crate::platform::{get_pid, line_end, pid_of, PidError};
use crate::text::{
    ascii, find, find_byte, first_byte, first_occurrence, last_byte, last_occurrence,
    number_u64, parse_number, push_text, rfind, rfind_byte, LINE_FEED,
};
use vstd::prelude::*;
use vstd::slice::slice_subrange;

verus! {

/// The process id of the compositor.
#[derive(Clone, Copy, Debug, PartialEq, Eq, Structural)]
pub struct KWinPid(pub i32);

/// The name the compositor runs under.
pub open spec fn compositor() -> Seq<u8> {
    ascii("kwin_wayland"@)
}

/// The compositor's process id as a process listing gives it.
pub open spec fn compositor_pid(listing: Seq<u8>) -> Result<KWinPid, PidError> {
    match pid_of(listing, compositor()) {
        Ok(pid) => if pid <= i32::MAX {
            Ok(KWinPid(pid as i32))
        } else {
            Err(PidError::NotANumber)
        },
        Err(error) => Err(error),
    }
}

impl KWinPid {
    /// Takes `pid` for the compositor's process id.
    pub fn from(pid: i32) -> (out: KWinPid)
        ensures
            out == KWinPid(pid),
    {
        KWinPid(pid)
    }

    /// Reads the compositor's process id from the output of a process
    /// listing: the id on the first line that holds `/kwin_wayland `.
    pub fn search(listing: &[u8]) -> (out: Result<KWinPid, PidError>)
        ensures
            out == compositor_pid(listing@),
    {
        proof {
            reveal_strlit("kwin_wayland");
        }
        let mut name: Vec<u8> = Vec::new();
        push_text(&mut name, "kwin_wayland");
        assert(name@ =~= compositor());
        match get_pid(listing, name.as_slice()) {
            Ok(pid) => if pid <= i32::MAX as usize {
                Ok(KWinPid(pid as i32))
            } else {
                Err(PidError::NotANumber)
            },
            Err(error) => Err(error),
        }
    }
}

/// Why a memory map gives no address for the compositor's library.
#[derive(Clone, Copy, Debug, PartialEq, Eq, Structural)]
pub enum BaseError {
    /// The map does not name the library.
    NoLibrary,
    /// The library is named on the first line: no line feed stands before it.
    NoLineBefore,
    /// No line feed stands after the last line that names the library.
    NoLineEnd,
    /// The line does not begin with twelve hexadecimal digits that fit.
    NoAddress,
}

/// The name by which a memory map knows the compositor's library.
pub open spec fn library() -> Seq<u8> {
    ascii("libkwin.so"@)
}

/// The address at which the compositor's library is mapped: the number in
/// the first twelve bytes of the first line of the map that names the
/// library.
pub open spec fn base_address(maps: Seq<u8>) -> Result<usize, BaseError> {
    match (first_occurrence(maps, library()), last_occurrence(maps, library())) {
        (Some(first), Some(last)) => match last_byte(maps.subrange(0, first), LINE_FEED) {
            None => Err(BaseError::NoLineBefore),
            Some(feed) => if first_byte(maps.subrange(last, maps.len() as int), LINE_FEED) is None {
                Err(BaseError::NoLineEnd)
            } else if line_end(maps, feed + 1) - (feed + 1) < 12 {
                Err(BaseError::NoAddress)
            } else {
                match number_u64(maps.subrange(feed + 1, feed + 13), 16) {
                    Some(address) => if address <= usize::MAX {
                        Ok(address as usize)
                    } else {
                        Err(BaseError::NoAddress)
                    },
                    None => Err(BaseError::NoAddress),
                }
            },
        },
        _ => Err(BaseError::NoLibrary),
    }
}

/// Reads from a process's memory map the address at which the compositor's
/// library is mapped.
pub fn libkwin_base_address(maps: &[u8]) -> (out: Result<usize, BaseError>)
    ensures
        out == base_address(maps@),
{
    proof {
        reveal_strlit("libkwin.so");
    }
    let total: usize = maps.len();
    let mut name: Vec<u8> = Vec::new();
    push_text(&mut name, "libkwin.so");
    assert(name@ =~= library());
    let first: usize = match find(maps, name.as_slice()) {
        Some(first) => first,
        None => {
            return Err(BaseError::NoLibrary);
        },
    };
    let last: usize = match rfind(maps, name.as_slice()) {
        Some(last) => last,
        None => {
            return Err(BaseError::NoLibrary);
        },
    };
    let feed: usize = match rfind_byte(slice_subrange(maps, 0, first), LINE_FEED) {
        Some(feed) => feed,
        None => {
            return Err(BaseError::NoLineBefore);
        },
    };
    if find_byte(slice_subrange(maps, last, total), LINE_FEED).is_none() {
        return Err(BaseError::NoLineEnd);
    }
    let begin: usize = feed + 1;
    let end: usize = match find_byte(slice_subrange(maps, begin, total), LINE_FEED) {
        Some(at) => begin + at,
        None => total,
    };
    if end - begin < 12 {
        return Err(BaseError::NoAddress);
    }
    match parse_number(slice_subrange(maps, begin, begin + 12), 16) {
        Some(address) => if address <= usize::MAX as u64 {
            Ok(address as usize)
        } else {
            Err(BaseError::NoAddress)
        },
        None => Err(BaseError::NoAddress),
    }
}

/// A read from the compositor's memory: so many bytes from an address.
#[derive(Clone, Copy, Debug, PartialEq, Eq, Structural)]
pub struct ReadRequest {
    pub address: u64,
    pub len: usize,
}

/// Why the place of the mouse could not be followed up.
#[derive(Clone, Copy, Debug, PartialEq, Eq, Structural)]
pub enum ReadError {
    /// The read failed; the system's error number says why.
    Failed,
    /// The read gave another number of bytes than asked for.
    Length { got: isize },
    /// The pointer read is null.
    Null,
    /// The address to read next does not fit.
    Overflow,
}

/// Which pointer on the way to the mouse's place was read.
#[derive(Clone, Copy, Debug, PartialEq, Eq, Structural)]
pub enum Hop {
    /// The pointer to the compositor's cursors, 8 bytes at the library's
    /// base plus the symbol's offset.
    Cursors,
    /// The pointer to the cursor in use, 8 bytes at 16 past the cursors.
    Cursor,
    /// The cursor's place, 16 bytes at 32 past the cursor.
    Position,
}

impl Hop {
    /// How many bytes the read of this hop asks for.
    pub open spec fn len(self) -> usize {
        match self {
            Hop::Cursors => 8,
            Hop::Cursor => 8,
            Hop::Position => 16,
        }
    }

    /// How far past the pointer just read the next read begins.
    pub open spec fn stride(self) -> int {
        match self {
            Hop::Cursors => 16,
            Hop::Cursor => 32,
            Hop::Position => 0,
        }
    }
}

/// What the status of a read of `wanted` bytes says: the number of bytes
/// read is success, -1 a failure, anything else a read of the wrong length.
pub open spec fn judged(status: isize, wanted: usize) -> Result<(), ReadError> {
    if status == wanted {
        Ok(())
    } else if status == -1 {
        Err(ReadError::Failed)
    } else {
        Err(ReadError::Length { got: status })
    }
}

/// The read that follows the read of `hop`, which came back with `status`
/// and, as its bytes, the pointer `pointer`: none after the last hop.
pub open spec fn followed(hop: Hop, status: isize, pointer: u64) -> Result<
    Option<ReadRequest>,
    ReadError,
> {
    match judged(status, hop.len()) {
        Err(error) => Err(error),
        Ok(_) => match hop {
            Hop::Position => Ok(None),
            _ => if pointer == 0 {
                Err(ReadError::Null)
            } else if pointer + hop.stride() > u64::MAX {
                Err(ReadError::Overflow)
            } else {
                Ok(
                    Some(
                        (ReadRequest {
                            address: (pointer + hop.stride()) as u64,
                            len: if hop == Hop::Cursors {
                                8
                            } else {
                                16
                            },
                        }),
                    ),
                )
            },
        },
    }
}

/// Judges the status that a read of `wanted` bytes came back with.
pub fn judge_read(status: isize, wanted: usize) -> (out: Result<(), ReadError>)
    ensures
        out == judged(status, wanted),
{
    if status >= 0 && status as usize == wanted {
        Ok(())
    } else if status == -1 {
        Err(ReadError::Failed)
    } else {
        Err(ReadError::Length { got: status })
    }
}

/// The first read on the way to the mouse's place: the pointer to the
/// compositor's cursors, at the library's base plus the symbol's offset.
pub fn first_read(base: u64, offset: u64) -> (out: Result<ReadRequest, ReadError>)
    ensures
        out == if base + offset > u64::MAX {
            Err::<ReadRequest, ReadError>(ReadError::Overflow)
        } else {
            Ok((ReadRequest { address: (base + offset) as u64, len: 8 }))
        },
{
    match base.checked_add(offset) {
        Some(address) => Ok(ReadRequest { address, len: 8 }),
        None => Err(ReadError::Overflow),
    }
}

/// Says what to read after the read of `hop`, from its status and from the
/// pointer that it read; after the last hop nothing is left to read.
pub fn next_read(hop: Hop, status: isize, pointer: u64) -> (out: Result<
    Option<ReadRequest>,
    ReadError,
>)
    ensures
        out == followed(hop, status, pointer),
{
    let (wanted, stride, len): (usize, u64, usize) = match hop {
        Hop::Cursors => (8, 16, 8),
        Hop::Cursor => (8, 32, 16),
        Hop::Position => (16, 0, 0),
    };
    match judge_read(status, wanted) {
        Err(error) => {
            return Err(error);
        },
        Ok(_) => {},
    }
    if matches!(hop, Hop::Position) {
        return Ok(None);
    }
    if pointer == 0 {
        return Err(ReadError::Null);
    }
    match pointer.checked_add(stride) {
        Some(address) => Ok(Some(ReadRequest { address, len })),
        None => Err(ReadError::Overflow),
    }
}

} // verus!
