use crate::text::{
    find, find_byte, first_byte, first_occurrence, last_byte, number_u64, parse_number,
    push_bytes, rfind_byte, trim, trimmed, COLON, LINE_FEED, SLASH, SPACE,
};
use vstd::prelude::*;
use vstd::slice::slice_subrange;

verus! {

/// Why no process id could be read from a process listing.
#[derive(Clone, Copy, Debug, PartialEq, Eq, Structural)]
pub enum PidError {
    /// No line of the listing names the process.
    NoProcess,
    /// The line that names the process has no space after its first field.
    NoField,
    /// The first field of the line is no number that fits.
    NotANumber,
}

/// What a line of a process listing holds for the process `name`: a slash,
/// the name without the white space around it, and a space.
pub open spec fn process_pattern(name: Seq<u8>) -> Seq<u8> {
    seq![SLASH] + trimmed(name) + seq![SPACE]
}

/// Where the line that holds index `at` of `text` begins.
pub open spec fn line_start(text: Seq<u8>, at: int) -> int {
    match last_byte(text.subrange(0, at), LINE_FEED) {
        Some(feed) => feed + 1,
        None => 0,
    }
}

/// Where the line that holds index `at` of `text` ends: at its line feed, or
/// at the end of the text.
pub open spec fn line_end(text: Seq<u8>, at: int) -> int {
    match first_byte(text.subrange(at, text.len() as int), LINE_FEED) {
        Some(feed) => at + feed,
        None => text.len() as int,
    }
}

/// The process id that a listing gives for the process `name`: the first
/// field of the first line that holds the name's pattern.
pub open spec fn pid_of(listing: Seq<u8>, name: Seq<u8>) -> Result<usize, PidError> {
    let pattern = process_pattern(name);
    if first_byte(pattern, LINE_FEED) is Some {
        Err(PidError::NoProcess)
    } else {
        match first_occurrence(listing, pattern) {
            None => Err(PidError::NoProcess),
            Some(at) => {
                let line = trimmed(
                    listing.subrange(line_start(listing, at), line_end(listing, at)),
                );
                match first_byte(line, SPACE) {
                    None => Err(PidError::NoField),
                    Some(space) => match number_u64(line.subrange(0, space), 10) {
                        Some(pid) => if pid <= usize::MAX {
                            Ok(pid as usize)
                        } else {
                            Err(PidError::NotANumber)
                        },
                        None => Err(PidError::NotANumber),
                    },
                }
            },
        }
    }
}

/// Reads the id of the process `name` from the output of a process listing
/// (one process per line, the id first, the command after it): the number
/// that begins the first line holding `/name `. The listing is taken byte
/// by byte, and white space is ASCII white space.
pub fn get_pid(listing: &[u8], name: &[u8]) -> (out: Result<usize, PidError>)
    ensures
        out == pid_of(listing@, name@),
{
    let name: &[u8] = trim(name);
    let mut pattern: Vec<u8> = Vec::new();
    pattern.push(SLASH);
    push_bytes(&mut pattern, name);
    pattern.push(SPACE);
    assert(pattern@ =~= seq![SLASH] + name@ + seq![SPACE]);
    if find_byte(pattern.as_slice(), LINE_FEED).is_some() {
        return Err(PidError::NoProcess);
    }
    let at: usize = match find(listing, pattern.as_slice()) {
        Some(at) => at,
        None => {
            return Err(PidError::NoProcess);
        },
    };
    let start: usize = match rfind_byte(slice_subrange(listing, 0, at), LINE_FEED) {
        Some(feed) => feed + 1,
        None => 0,
    };
    let end: usize = match find_byte(slice_subrange(listing, at, listing.len()), LINE_FEED) {
        Some(feed) => at + feed,
        None => listing.len(),
    };
    let line: &[u8] = trim(slice_subrange(listing, start, end));
    let space: usize = match find_byte(line, SPACE) {
        Some(space) => space,
        None => {
            return Err(PidError::NoField);
        },
    };
    match parse_number(slice_subrange(line, 0, space), 10) {
        Some(pid) => if pid <= usize::MAX as u64 {
            Ok(pid as usize)
        } else {
            Err(PidError::NotANumber)
        },
        None => Err(PidError::NotANumber),
    }
}

/// Why no offset could be read from a symbol table.
#[derive(Clone, Copy, Debug, PartialEq, Eq, Structural)]
pub enum ElfError {
    /// The table does not hold the symbol.
    NoSymbol,
    /// No line feed stands before the symbol.
    NoLine,
    /// The symbol's line has no colon before the symbol.
    NoColon,
    /// No space ends the field after the colon.
    NoSpace,
    /// The field is no hexadecimal number that fits.
    NotHex,
}

/// The offset that a symbol table gives for `symbol`: on the line of the
/// symbol's first occurrence, the field after the first colon.
pub open spec fn offset_of(table: Seq<u8>, symbol: Seq<u8>) -> Result<usize, ElfError> {
    match first_occurrence(table, symbol) {
        None => Err(ElfError::NoSymbol),
        Some(at) => {
            let before = table.subrange(0, at);
            match last_byte(before, LINE_FEED) {
                None => Err(ElfError::NoLine),
                Some(feed) => {
                    let line = before.subrange(feed + 1, before.len() as int);
                    match first_byte(line, COLON) {
                        None => Err(ElfError::NoColon),
                        Some(colon) => {
                            let rest = trimmed(line.subrange(colon + 1, line.len() as int));
                            match first_byte(rest, SPACE) {
                                None => Err(ElfError::NoSpace),
                                Some(space) => match number_u64(rest.subrange(0, space), 16) {
                                    Some(offset) => if offset <= usize::MAX {
                                        Ok(offset as usize)
                                    } else {
                                        Err(ElfError::NotHex)
                                    },
                                    None => Err(ElfError::NotHex),
                                },
                            }
                        },
                    }
                },
            }
        },
    }
}

/// Reads the offset of `symbol` from a symbol table as `readelf -WCs` prints
/// it (`Num: Value Size ...` on each line): the hexadecimal value on the line
/// where the symbol first occurs. The table is taken byte by byte.
pub fn elf_offset(table: &[u8], symbol: &[u8]) -> (out: Result<usize, ElfError>)
    ensures
        out == offset_of(table@, symbol@),
{
    let at: usize = match find(table, symbol) {
        Some(at) => at,
        None => {
            return Err(ElfError::NoSymbol);
        },
    };
    let before: &[u8] = slice_subrange(table, 0, at);
    let feed: usize = match rfind_byte(before, LINE_FEED) {
        Some(feed) => feed,
        None => {
            return Err(ElfError::NoLine);
        },
    };
    let line: &[u8] = slice_subrange(before, feed + 1, before.len());
    let colon: usize = match find_byte(line, COLON) {
        Some(colon) => colon,
        None => {
            return Err(ElfError::NoColon);
        },
    };
    let rest: &[u8] = trim(slice_subrange(line, colon + 1, line.len()));
    let space: usize = match find_byte(rest, SPACE) {
        Some(space) => space,
        None => {
            return Err(ElfError::NoSpace);
        },
    };
    match parse_number(slice_subrange(rest, 0, space), 16) {
        Some(offset) => if offset <= usize::MAX as u64 {
            Ok(offset as usize)
        } else {
            Err(ElfError::NotHex)
        },
        None => Err(ElfError::NotHex),
    }
}

/// What to do about the process's user id.
#[derive(Clone, Copy, Debug, PartialEq, Eq, Structural)]
pub enum RootStep {
    /// Set the user id to `uid`; `needless` where the process is root already.
    SetUid { uid: u32, needless: bool },
    /// The process runs under its own user already: nothing to give back.
    Nothing,
}

/// Why root could not be given back.
#[derive(Clone, Copy, Debug, PartialEq, Eq, Structural)]
pub enum RootError {
    /// The process runs under a user that is neither root nor the one kept.
    Mismatch { current: u32 },
    /// The system refused the change, with this status.
    Refused { status: i32 },
}

/// The user a process ran under before it claimed root.
#[derive(Clone, Copy, Debug, PartialEq, Eq, Structural)]
pub struct Root(pub u32);

impl Root {
    /// Keeps the user id the process runs under.
    pub fn new(uid: u32) -> (out: Root)
        ensures
            out == Root(uid),
    {
        Root(uid)
    }

    /// Claims root: the user id is to be set to 0, whoever the process runs
    /// as; the user kept stays.
    pub fn claim(&mut self, current: u32) -> (out: RootStep)
        ensures
            out == (RootStep::SetUid { uid: 0, needless: current == 0 }),
            *final(self) == *old(self),
    {
        RootStep::SetUid { uid: 0, needless: current == 0 }
    }

    /// Gives root back: as root, the user id is to be set to the one kept; as
    /// that user, nothing is to be done; as anyone else, that is an error.
    pub fn release(&mut self, current: u32) -> (out: Result<RootStep, RootError>)
        ensures
            out == if current == 0 {
                Ok::<RootStep, RootError>(RootStep::SetUid { uid: old(self).0, needless: false })
            } else if current == old(self).0 {
                Ok(RootStep::Nothing)
            } else {
                Err(RootError::Mismatch { current })
            },
            *final(self) == *old(self),
    {
        if current == 0 {
            Ok(RootStep::SetUid { uid: self.0, needless: false })
        } else if current == self.0 {
            Ok(RootStep::Nothing)
        } else {
            Err(RootError::Mismatch { current })
        }
    }

    /// Judges the status that setting the user id came back with: zero is
    /// success, anything else a refusal.
    pub fn confirm(status: i32) -> (out: Result<(), RootError>)
        ensures
            out == if status == 0 {
                Ok::<(), RootError>(())
            } else {
                Err(RootError::Refused { status })
            },
    {
        if status == 0 {
            Ok(())
        } else {
            Err(RootError::Refused { status })
        }
    }
}

/// An operating system this program knows.
#[derive(Clone, Copy, Debug, PartialEq, Eq, Structural)]
pub enum Platform {
    LINUX,
    WINDOWS,
}

impl Platform {
    /// The platform's name as text.
    pub open spec fn name_text(self) -> Seq<char> {
        match self {
            Platform::LINUX => "Linux"@,
            Platform::WINDOWS => "Windows"@,
        }
    }

    /// The platform's name.
    pub fn name(&self) -> (out: &'static str)
        ensures
            out@ == self.name_text(),
    {
        match self {
            Platform::LINUX => "Linux",
            Platform::WINDOWS => "Windows",
        }
    }
}

/// The complaint about a function made for `platform` that was called in a
/// build for `build`.
pub open spec fn mismatch_text(platform: Platform, build: Platform) -> Seq<char> {
    platform.name_text() + "-specific functionality missing on "@ + build.name_text()
        + "-build!"@
}

/// Words the complaint about a function that is made for `platform` and was
/// called in a build for `build`.
pub fn platform_mismatch(platform: Platform, build: Platform) -> (out: String)
    ensures
        out@ == mismatch_text(platform, build),
{
    let mut out: String = String::from_str(platform.name());
    out.append("-specific functionality missing on ");
    out.append(build.name());
    out.append("-build!");
    out
}

} // verus!
