use crate::text::{
    ascii, find_byte, first_byte, is_text, last_occurrence, number_u64, parse_number, push_bytes,
    push_text, ranges_of, rfind, split, split_ranges, COLON, HYPHEN, LINE_FEED, SPACE,
};
use vstd::prelude::*;
use vstd::slice::{slice_subrange, slice_to_vec};

verus! {

/// A mapping that is private to its process: no bit at all.
pub const PRIVATE: u8 = 0;

/// A mapping that is shared.
pub const SHARED: u8 = 1;

/// A mapping that may be read.
pub const READ: u8 = 2;

/// A mapping that may be written.
pub const WRITE: u8 = 4;

/// A mapping that may be executed.
pub const EXECUTE: u8 = 8;

/// Every bit that has a meaning.
pub const ALL: u8 = 15;

/// What a process may do with a mapping, as a set of bits.
#[derive(Clone, Copy, Debug, PartialEq, Eq, Structural)]
pub struct Permissions(u8);

/// The four characters that stand for the permission bits: `r`, `w` and `x`
/// where set and `-` where not, then `s` for shared or `p` for private.
pub open spec fn serialized(bits: u8) -> Seq<char> {
    seq![
        if bits & READ == READ {
            'r'
        } else {
            '-'
        },
        if bits & WRITE == WRITE {
            'w'
        } else {
            '-'
        },
        if bits & EXECUTE == EXECUTE {
            'x'
        } else {
            '-'
        },
        if bits & SHARED == SHARED {
            's'
        } else {
            'p'
        },
    ]
}

/// The bits that four characters stand for: each bit is set where its
/// character is the one that marks it.
pub open spec fn deserialized(text: Seq<char>) -> u8 {
    (if text[0] == 'r' {
        READ
    } else {
        0
    }) | (if text[1] == 'w' {
        WRITE
    } else {
        0
    }) | (if text[2] == 'x' {
        EXECUTE
    } else {
        0
    }) | (if text[3] == 's' {
        SHARED
    } else {
        0
    })
}

impl Permissions {
    /// The bits held.
    pub closed spec fn bits_of(self) -> u8 {
        self.0
    }

    /// No permission at all.
    pub fn empty() -> (out: Permissions)
        ensures
            out.bits_of() == 0,
    {
        Permissions(0)
    }

    /// The permissions with exactly the known bits of `bits`.
    pub fn from_bits_truncate(bits: u8) -> (out: Permissions)
        ensures
            out.bits_of() == bits & ALL,
    {
        Permissions(bits & ALL)
    }

    /// The bits held.
    pub fn bits(&self) -> (out: u8)
        ensures
            out == self.bits_of(),
    {
        self.0
    }

    /// Whether every bit of `flags` is held.
    pub fn contains(&self, flags: u8) -> (out: bool)
        ensures
            out == (self.bits_of() & flags == flags),
    {
        self.0 & flags == flags
    }

    /// Writes the permissions as the four characters of a memory map.
    pub fn serialize(&self) -> (out: String)
        ensures
            out@ == serialized(self.bits_of()),
    {
        proof {
            reveal_strlit("r");
            reveal_strlit("w");
            reveal_strlit("x");
            reveal_strlit("s");
            reveal_strlit("p");
            reveal_strlit("-");
        }
        let mut out: String = String::new();
        out.append(
            if self.contains(READ) {
                "r"
            } else {
                "-"
            },
        );
        out.append(
            if self.contains(WRITE) {
                "w"
            } else {
                "-"
            },
        );
        out.append(
            if self.contains(EXECUTE) {
                "x"
            } else {
                "-"
            },
        );
        out.append(
            if self.contains(SHARED) {
                "s"
            } else {
                "p"
            },
        );
        assert(out@ =~= serialized(self.bits_of()));
        out
    }

    /// Reads permissions from the first four characters of `string`: a bit
    /// is set where its place holds the character that marks it, whatever
    /// stands there otherwise.
    pub fn deserialize(string: &str) -> (out: Permissions)
        requires
            string@.len() >= 4,
        ensures
            out.bits_of() == deserialized(string@),
    {
        let read: u8 = if string.get_char(0) == 'r' {
            READ
        } else {
            0
        };
        let write: u8 = if string.get_char(1) == 'w' {
            WRITE
        } else {
            0
        };
        let execute: u8 = if string.get_char(2) == 'x' {
            EXECUTE
        } else {
            0
        };
        let shared: u8 = if string.get_char(3) == 's' {
            SHARED
        } else {
            0
        };
        let bits: u8 = read | write | execute | shared;
        Permissions(bits)
    }
}

/// Reading back what was written gives the known bits again.
pub proof fn lemma_deserialize_serialized(bits: u8)
    ensures
        deserialized(serialized(bits)) == bits & ALL,
{
    let read: u8 = if bits & 2 == 2 {
        2
    } else {
        0
    };
    let write: u8 = if bits & 4 == 4 {
        4
    } else {
        0
    };
    let execute: u8 = if bits & 8 == 8 {
        8
    } else {
        0
    };
    let shared: u8 = if bits & 1 == 1 {
        1
    } else {
        0
    };
    assert(read | write | execute | shared == bits & 15) by (bit_vector)
        requires
            read == if bits & 2 == 2 {
                2u8
            } else {
                0u8
            },
            write == if bits & 4 == 4 {
                4u8
            } else {
                0u8
            },
            execute == if bits & 8 == 8 {
                8u8
            } else {
                0u8
            },
            shared == if bits & 1 == 1 {
                1u8
            } else {
                0u8
            },
    ;
}

/// Writing what was read gives the same four characters again, where each
/// is one of the two that may stand in its place.
pub proof fn lemma_serialize_deserialized(text: Seq<char>)
    requires
        text.len() == 4,
        text[0] == 'r' || text[0] == '-',
        text[1] == 'w' || text[1] == '-',
        text[2] == 'x' || text[2] == '-',
        text[3] == 's' || text[3] == 'p',
    ensures
        serialized(deserialized(text)) == text,
{
    let bits = deserialized(text);
    let r: u8 = if text[0] == 'r' {
        2
    } else {
        0
    };
    let w: u8 = if text[1] == 'w' {
        4
    } else {
        0
    };
    let x: u8 = if text[2] == 'x' {
        8
    } else {
        0
    };
    let s: u8 = if text[3] == 's' {
        1
    } else {
        0
    };
    assert({
        let sum = r | w | x | s;
        &&& (sum & 2 == 2) == (r == 2)
        &&& (sum & 4 == 4) == (w == 4)
        &&& (sum & 8 == 8) == (x == 8)
        &&& (sum & 1 == 1) == (s == 1)
    }) by (bit_vector)
        requires
            r == 0 || r == 2,
            w == 0 || w == 4,
            x == 0 || x == 8,
            s == 0 || s == 1,
    ;
    assert(serialized(bits) =~= text);
}

/// What a mapping maps.
#[allow(non_camel_case_types)]
#[derive(Debug, PartialEq, Eq)]
pub enum VmPath {
    /// A file, by its path.
    PATH(Vec<u8>),
    /// Nothing that has a name.
    UNKNOWN,
    /// A file that was deleted since, by the path it had.
    DELETED(Vec<u8>),
    STACK,
    VDSO,
    HEAP,
    /// Memory without a file, with the name it was given.
    ANON(Vec<u8>),
    /// Shared memory without a file, with the name it was given.
    ANON_SHMEM(Vec<u8>),
    /// An inode without a file, with its name.
    ANON_INODE(Vec<u8>),
    VVAR,
    VVAR_VCLOCK,
    VSYSCALL,
}

/// The mathematical content of a [`VmPath`].
#[allow(non_camel_case_types)]
pub enum Mapped {
    PATH(Seq<u8>),
    UNKNOWN,
    DELETED(Seq<u8>),
    STACK,
    VDSO,
    HEAP,
    ANON(Seq<u8>),
    ANON_SHMEM(Seq<u8>),
    ANON_INODE(Seq<u8>),
    VVAR,
    VVAR_VCLOCK,
    VSYSCALL,
}

impl View for VmPath {
    type V = Mapped;

    open spec fn view(&self) -> Mapped {
        match self {
            VmPath::PATH(path) => Mapped::PATH(path@),
            VmPath::UNKNOWN => Mapped::UNKNOWN,
            VmPath::DELETED(path) => Mapped::DELETED(path@),
            VmPath::STACK => Mapped::STACK,
            VmPath::VDSO => Mapped::VDSO,
            VmPath::HEAP => Mapped::HEAP,
            VmPath::ANON(name) => Mapped::ANON(name@),
            VmPath::ANON_SHMEM(name) => Mapped::ANON_SHMEM(name@),
            VmPath::ANON_INODE(name) => Mapped::ANON_INODE(name@),
            VmPath::VVAR => Mapped::VVAR,
            VmPath::VVAR_VCLOCK => Mapped::VVAR_VCLOCK,
            VmPath::VSYSCALL => Mapped::VSYSCALL,
        }
    }
}

impl Mapped {
    /// How the last field of a memory map's line names what is mapped.
    pub open spec fn text(self) -> Seq<u8> {
        match self {
            Mapped::UNKNOWN => Seq::empty(),
            Mapped::PATH(path) => path,
            Mapped::ANON(name) => ascii("anon:"@) + name,
            Mapped::ANON_SHMEM(name) => ascii("anon_shmem:"@) + name,
            Mapped::HEAP => ascii("[heap]"@),
            Mapped::STACK => ascii("[stack]"@),
            Mapped::VDSO => ascii("[vdso]"@),
            Mapped::DELETED(path) => path + ascii(" (deleted)"@),
            Mapped::ANON_INODE(name) => ascii("anon_inode:"@) + name,
            Mapped::VVAR => ascii("[vvar]"@),
            Mapped::VVAR_VCLOCK => ascii("[vvar_vclock]"@),
            Mapped::VSYSCALL => ascii("[vsyscall]"@),
        }
    }
}

/// What the last field `raw` of a memory map's line names. With a colon in
/// it, the field names memory without a file: `anon` where the colon is the
/// fifth byte, else shared memory or an inode by the five bytes from the
/// sixth on, and nothing where those say neither. Without a colon it is one
/// of the kernel's own names in brackets, or empty, or a path, deleted
/// where `(deleted)` stands in it.
pub open spec fn parsed_path(raw: Seq<u8>) -> Option<Mapped> {
    match first_byte(raw, COLON) {
        Some(colon) => {
            let name = raw.subrange(colon + 1, raw.len() as int);
            if colon == 4 {
                Some(Mapped::ANON(name))
            } else if raw.len() < 10 {
                None
            } else if raw.subrange(5, 10) == ascii("shmem"@) {
                Some(Mapped::ANON_SHMEM(name))
            } else if raw.subrange(5, 10) == ascii("inode"@) {
                Some(Mapped::ANON_INODE(name))
            } else {
                None
            }
        },
        None => {
            if raw == ascii("[vvar]"@) {
                Some(Mapped::VVAR)
            } else if raw == ascii("[vvar_vclock]"@) {
                Some(Mapped::VVAR_VCLOCK)
            } else if raw == ascii("[vsyscall]"@) {
                Some(Mapped::VSYSCALL)
            } else if raw == ascii("[stack]"@) {
                Some(Mapped::STACK)
            } else if raw == ascii("[vdso]"@) {
                Some(Mapped::VDSO)
            } else if raw == ascii("[heap]"@) {
                Some(Mapped::HEAP)
            } else if raw.len() == 0 {
                Some(Mapped::UNKNOWN)
            } else {
                match last_occurrence(raw, ascii("(deleted)"@)) {
                    Some(at) => Some(
                        Mapped::DELETED(
                            raw.subrange(
                                0,
                                if at == 0 {
                                    0
                                } else {
                                    at - 1
                                },
                            ),
                        ),
                    ),
                    None => Some(Mapped::PATH(raw)),
                }
            }
        },
    }
}

impl VmPath {
    /// Writes the name as the last field of a memory map's line has it.
    pub fn text(&self) -> (out: Vec<u8>)
        ensures
            out@ == self@.text(),
    {
        proof {
            reveal_strlit("anon:");
            reveal_strlit("anon_shmem:");
            reveal_strlit("anon_inode:");
            reveal_strlit(" (deleted)");
            reveal_strlit("[heap]");
            reveal_strlit("[stack]");
            reveal_strlit("[vdso]");
            reveal_strlit("[vvar]");
            reveal_strlit("[vvar_vclock]");
            reveal_strlit("[vsyscall]");
        }
        let mut out: Vec<u8> = Vec::new();
        match self {
            VmPath::UNKNOWN => {},
            VmPath::PATH(path) => {
                push_bytes(&mut out, path.as_slice());
            },
            VmPath::ANON(name) => {
                push_text(&mut out, "anon:");
                push_bytes(&mut out, name.as_slice());
            },
            VmPath::ANON_SHMEM(name) => {
                push_text(&mut out, "anon_shmem:");
                push_bytes(&mut out, name.as_slice());
            },
            VmPath::HEAP => {
                push_text(&mut out, "[heap]");
            },
            VmPath::STACK => {
                push_text(&mut out, "[stack]");
            },
            VmPath::VDSO => {
                push_text(&mut out, "[vdso]");
            },
            VmPath::DELETED(path) => {
                push_bytes(&mut out, path.as_slice());
                push_text(&mut out, " (deleted)");
            },
            VmPath::ANON_INODE(name) => {
                push_text(&mut out, "anon_inode:");
                push_bytes(&mut out, name.as_slice());
            },
            VmPath::VVAR => {
                push_text(&mut out, "[vvar]");
            },
            VmPath::VVAR_VCLOCK => {
                push_text(&mut out, "[vvar_vclock]");
            },
            VmPath::VSYSCALL => {
                push_text(&mut out, "[vsyscall]");
            },
        }
        assert(out@ =~= self@.text());
        out
    }

    /// Reads what the last field of a memory map's line names.
    pub fn parse(raw: &[u8]) -> (out: Option<VmPath>)
        ensures
            match out {
                Some(path) => parsed_path(raw@) == Some(path@),
                None => parsed_path(raw@) is None,
            },
    {
        proof {
            reveal_strlit("shmem");
            reveal_strlit("inode");
            reveal_strlit("(deleted)");
            reveal_strlit("[heap]");
            reveal_strlit("[stack]");
            reveal_strlit("[vdso]");
            reveal_strlit("[vvar]");
            reveal_strlit("[vvar_vclock]");
            reveal_strlit("[vsyscall]");
        }
        let total: usize = raw.len();
        match find_byte(raw, COLON) {
            Some(colon) => {
                let name: Vec<u8> = slice_to_vec(slice_subrange(raw, colon + 1, total));
                if colon == 4 {
                    Some(VmPath::ANON(name))
                } else if raw.len() < 10 {
                    None
                } else if is_text(slice_subrange(raw, 5, 10), "shmem") {
                    Some(VmPath::ANON_SHMEM(name))
                } else if is_text(slice_subrange(raw, 5, 10), "inode") {
                    Some(VmPath::ANON_INODE(name))
                } else {
                    None
                }
            },
            None => {
                if is_text(raw, "[vvar]") {
                    Some(VmPath::VVAR)
                } else if is_text(raw, "[vvar_vclock]") {
                    Some(VmPath::VVAR_VCLOCK)
                } else if is_text(raw, "[vsyscall]") {
                    Some(VmPath::VSYSCALL)
                } else if is_text(raw, "[stack]") {
                    Some(VmPath::STACK)
                } else if is_text(raw, "[vdso]") {
                    Some(VmPath::VDSO)
                } else if is_text(raw, "[heap]") {
                    Some(VmPath::HEAP)
                } else if raw.len() == 0 {
                    Some(VmPath::UNKNOWN)
                } else {
                    let marker: Vec<u8> = {
                        let mut marker: Vec<u8> = Vec::new();
                        push_text(&mut marker, "(deleted)");
                        marker
                    };
                    assert(marker@ =~= ascii("(deleted)"@));
                    match rfind(raw, marker.as_slice()) {
                        Some(at) => {
                            let end: usize = if at == 0 {
                                0
                            } else {
                                at - 1
                            };
                            Some(VmPath::DELETED(slice_to_vec(slice_subrange(raw, 0, end))))
                        },
                        None => Some(VmPath::PATH(slice_to_vec(raw))),
                    }
                }
            },
        }
    }
}

/// Which field of a memory map's line is missing or cannot be read.
#[derive(Clone, Copy, Debug, PartialEq, Eq, Structural)]
pub enum MapError {
    Address,
    Permissions,
    Offset,
    Device,
    Inode,
    Path,
}

/// One mapping of a process's memory.
#[derive(Debug, PartialEq, Eq)]
pub struct VmMapEntry {
    /// Where the mapping begins and where it ends.
    pub address: (usize, usize),
    pub permissions: Permissions,
    pub offset: u64,
    /// The device's major and minor number.
    pub device: (u16, u16),
    pub inode: u32,
    pub pathname: VmPath,
}

/// The mathematical content of a [`VmMapEntry`].
pub struct Entry {
    pub address: (usize, usize),
    /// The permission bits.
    pub permissions: u8,
    pub offset: u64,
    pub device: (u16, u16),
    pub inode: u32,
    pub pathname: Mapped,
}

impl View for VmMapEntry {
    type V = Entry;

    open spec fn view(&self) -> Entry {
        Entry {
            address: self.address,
            permissions: self.permissions.bits_of(),
            offset: self.offset,
            device: self.device,
            inode: self.inode,
            pathname: self.pathname@,
        }
    }
}

/// The number that `s` spells in base `radix`, where it is at most `max`.
pub open spec fn number_up_to(s: Seq<u8>, radix: nat, max: u64) -> Option<u64> {
    match number_u64(s, radix) {
        Some(value) => if value <= max {
            Some(value)
        } else {
            None
        },
        None => None,
    }
}

/// The two hexadecimal numbers that stand in `field` on either side of its
/// first `separator`, each at most `max`.
pub open spec fn hex_pair(field: Seq<u8>, separator: u8, max: u64) -> Option<(u64, u64)> {
    match first_byte(field, separator) {
        Some(at) => match (
            number_up_to(field.subrange(0, at), 16, max),
            number_up_to(field.subrange(at + 1, field.len() as int), 16, max),
        ) {
            (Some(left), Some(right)) => Some((left, right)),
            _ => None,
        },
        None => None,
    }
}

/// The first four bytes of `field` as characters.
pub open spec fn four_chars(field: Seq<u8>) -> Seq<char> {
    seq![field[0] as char, field[1] as char, field[2] as char, field[3] as char]
}

/// What one line of a memory map says. Its fields stand between single
/// spaces: the address range, the permissions, the offset, the device, the
/// inode, and last, after any number of spaces, what is mapped. The first
/// field that is missing or cannot be read is the error.
pub open spec fn parsed_entry(line: Seq<u8>) -> Result<Entry, MapError> {
    let fields = split(line, SPACE);
    let address = hex_pair(fields[0], HYPHEN, usize::MAX as u64);
    if address is None {
        Err(MapError::Address)
    } else if fields.len() < 2 || fields[1].len() < 4 {
        Err(MapError::Permissions)
    } else if fields.len() < 3 || number_u64(fields[2], 16) is None {
        Err(MapError::Offset)
    } else if fields.len() < 4 || hex_pair(fields[3], COLON, u16::MAX as u64) is None {
        Err(MapError::Device)
    } else if fields.len() < 5 || number_up_to(fields[4], 10, u32::MAX as u64) is None {
        Err(MapError::Inode)
    } else if fields.len() < 6 || parsed_path(fields.last()) is None {
        Err(MapError::Path)
    } else {
        Ok(
            Entry {
                address: (address.unwrap().0 as usize, address.unwrap().1 as usize),
                permissions: deserialized(four_chars(fields[1])),
                offset: number_u64(fields[2], 16)->0,
                device: (
                    hex_pair(fields[3], COLON, u16::MAX as u64).unwrap().0 as u16,
                    hex_pair(fields[3], COLON, u16::MAX as u64).unwrap().1 as u16,
                ),
                inode: number_up_to(fields[4], 10, u32::MAX as u64)->0 as u32,
                pathname: parsed_path(fields.last())->0,
            },
        )
    }
}

fn parse_up_to(s: &[u8], radix: u32, max: u64) -> (out: Option<u64>)
    requires
        2 <= radix <= 36,
    ensures
        out == number_up_to(s@, radix as nat, max),
{
    match parse_number(s, radix) {
        Some(value) => if value <= max {
            Some(value)
        } else {
            None
        },
        None => None,
    }
}

fn parse_hex_pair(field: &[u8], separator: u8, max: u64) -> (out: Option<(u64, u64)>)
    ensures
        out == hex_pair(field@, separator, max),
{
    let total: usize = field.len();
    let at: usize = match find_byte(field, separator) {
        Some(at) => at,
        None => {
            return None;
        },
    };
    let left: Option<u64> = parse_up_to(slice_subrange(field, 0, at), 16, max);
    let right: Option<u64> = parse_up_to(slice_subrange(field, at + 1, total), 16, max);
    match (left, right) {
        (Some(left), Some(right)) => Some((left, right)),
        _ => None,
    }
}

impl Permissions {
    /// Reads permissions from the first four bytes of a field, as
    /// `deserialize` reads them from characters; none where the field is
    /// shorter.
    pub fn from_field(field: &[u8]) -> (out: Option<Permissions>)
        ensures
            match out {
                Some(permissions) => field@.len() >= 4 && permissions.bits_of() == deserialized(
                    four_chars(field@),
                ),
                None => field@.len() < 4,
            },
    {
        if field.len() < 4 {
            return None;
        }
        // the bytes of `r`, `w`, `x` and `s`
        let read: u8 = if field[0] == 0x72 {
            READ
        } else {
            0
        };
        let write: u8 = if field[1] == 0x77 {
            WRITE
        } else {
            0
        };
        let execute: u8 = if field[2] == 0x78 {
            EXECUTE
        } else {
            0
        };
        let shared: u8 = if field[3] == 0x73 {
            SHARED
        } else {
            0
        };
        Some(Permissions(read | write | execute | shared))
    }
}

impl VmMapEntry {
    /// Reads one line of a memory map.
    pub fn parse(line: &[u8]) -> (out: Result<VmMapEntry, MapError>)
        ensures
            match out {
                Ok(entry) => parsed_entry(line@) == Ok::<Entry, MapError>(entry@),
                Err(error) => parsed_entry(line@) == Err::<Entry, MapError>(error),
            },
    {
        let ranges: Vec<(usize, usize)> = split_ranges(line, SPACE);
        let count: usize = ranges.len();
        let ghost fields = split(line@, SPACE);
        let address: (u64, u64) = match parse_hex_pair(
            slice_subrange(line, ranges[0].0, ranges[0].1),
            HYPHEN,
            usize::MAX as u64,
        ) {
            Some(address) => address,
            None => {
                return Err(MapError::Address);
            },
        };
        if count < 2 {
            return Err(MapError::Permissions);
        }
        let permissions: Permissions = match Permissions::from_field(
            slice_subrange(line, ranges[1].0, ranges[1].1),
        ) {
            Some(permissions) => permissions,
            None => {
                return Err(MapError::Permissions);
            },
        };
        if count < 3 {
            return Err(MapError::Offset);
        }
        let offset: u64 = match parse_number(slice_subrange(line, ranges[2].0, ranges[2].1), 16) {
            Some(offset) => offset,
            None => {
                return Err(MapError::Offset);
            },
        };
        if count < 4 {
            return Err(MapError::Device);
        }
        let device: (u64, u64) = match parse_hex_pair(
            slice_subrange(line, ranges[3].0, ranges[3].1),
            COLON,
            u16::MAX as u64,
        ) {
            Some(device) => device,
            None => {
                return Err(MapError::Device);
            },
        };
        if count < 5 {
            return Err(MapError::Inode);
        }
        let inode: u64 = match parse_up_to(
            slice_subrange(line, ranges[4].0, ranges[4].1),
            10,
            u32::MAX as u64,
        ) {
            Some(inode) => inode,
            None => {
                return Err(MapError::Inode);
            },
        };
        if count < 6 {
            return Err(MapError::Path);
        }
        let pathname: VmPath = match VmPath::parse(
            slice_subrange(line, ranges[count - 1].0, ranges[count - 1].1),
        ) {
            Some(pathname) => pathname,
            None => {
                return Err(MapError::Path);
            },
        };
        Ok(
            VmMapEntry {
                address: (address.0 as usize, address.1 as usize),
                permissions,
                offset,
                device: (device.0 as u16, device.1 as u16),
                inode: inode as u32,
                pathname,
            },
        )
    }
}

/// The lines of a text: its pieces between line feeds, without the empty
/// piece after a last line feed.
pub open spec fn lines(text: Seq<u8>) -> Seq<Seq<u8>> {
    let pieces = split(text, LINE_FEED);
    if pieces.last().len() == 0 {
        pieces.drop_last()
    } else {
        pieces
    }
}

/// What the lines of a memory map say: every line's entry in order, or the
/// number of the first line that cannot be read, from 0, with its error.
pub open spec fn parsed_lines(lines: Seq<Seq<u8>>) -> Result<Seq<Entry>, (usize, MapError)>
    decreases lines.len(),
{
    if lines.len() == 0 {
        Ok(Seq::empty())
    } else {
        match parsed_lines(lines.drop_last()) {
            Err(error) => Err(error),
            Ok(entries) => match parsed_entry(lines.last()) {
                Ok(entry) => Ok(entries.push(entry)),
                Err(error) => Err(((lines.len() - 1) as usize, error)),
            },
        }
    }
}

/// The mappings of a process's memory.
#[derive(Debug, PartialEq, Eq)]
pub struct VmMapping {
    inner: Vec<VmMapEntry>,
}

impl View for VmMapping {
    type V = Seq<Entry>;

    closed spec fn view(&self) -> Seq<Entry> {
        self.inner@.map_values(|entry: VmMapEntry| entry@)
    }
}

impl VmMapping {
    /// Reads a memory map as the kernel writes it, one mapping on each line.
    pub fn parse(maps: &[u8]) -> (out: Result<VmMapping, (usize, MapError)>)
        ensures
            match out {
                Ok(mapping) => parsed_lines(lines(maps@)) == Ok::<Seq<Entry>, (usize, MapError)>(
                    mapping@,
                ),
                Err(error) => parsed_lines(lines(maps@)) == Err::<Seq<Entry>, (usize, MapError)>(
                    error,
                ),
            },
    {
        let ranges: Vec<(usize, usize)> = split_ranges(maps, LINE_FEED);
        let last: (usize, usize) = ranges[ranges.len() - 1];
        let count: usize = if last.0 == last.1 {
            ranges.len() - 1
        } else {
            ranges.len()
        };
        let ghost all = lines(maps@);
        assert(all.len() == count);
        let mut inner: Vec<VmMapEntry> = Vec::new();
        let mut i: usize = 0;
        assert(all.take(0) =~= Seq::<Seq<u8>>::empty());
        assert(inner@.map_values(|entry: VmMapEntry| entry@) =~= Seq::<Entry>::empty());
        while i < count
            invariant
                i <= count <= ranges@.len(),
                all.len() == count,
                all == lines(maps@),
                ranges_of(maps@, split(maps@, LINE_FEED), ranges@),
                forall|k: int| 0 <= k < count ==> all[k] == split(maps@, LINE_FEED)[k],
                parsed_lines(all.take(i as int)) == Ok::<Seq<Entry>, (usize, MapError)>(
                    inner@.map_values(|entry: VmMapEntry| entry@),
                ),
            decreases count - i,
        {
            let ghost before = inner@.map_values(|entry: VmMapEntry| entry@);
            assert(all.take(i + 1).drop_last() =~= all.take(i as int));
            assert(all.take(i + 1).last() == all[i as int]);
            let range: (usize, usize) = ranges[i];
            match VmMapEntry::parse(slice_subrange(maps, range.0, range.1)) {
                Ok(entry) => {
                    let ghost read = entry@;
                    inner.push(entry);
                    assert(inner@.map_values(|entry: VmMapEntry| entry@) =~= before.push(read));
                },
                Err(error) => {
                    proof {
                        lemma_error_stays(all, i + 1);
                    }
                    return Err((i, error));
                },
            }
            i += 1;
        }
        assert(all.take(i as int) =~= all);
        Ok(VmMapping { inner })
    }

    /// The mappings, in the order of the map.
    pub fn entries(&self) -> (out: &Vec<VmMapEntry>)
        ensures
            out@.map_values(|entry: VmMapEntry| entry@) == self@,
    {
        &self.inner
    }
}

/// A line that cannot be read stays the error, whatever follows it.
proof fn lemma_error_stays(lines: Seq<Seq<u8>>, k: int)
    requires
        0 <= k <= lines.len(),
        parsed_lines(lines.take(k)) is Err,
    ensures
        parsed_lines(lines) == parsed_lines(lines.take(k)),
    decreases lines.len() - k,
{
    if k == lines.len() {
        assert(lines.take(k) =~= lines);
    } else {
        assert(lines.drop_last().take(k) =~= lines.take(k));
        lemma_error_stays(lines.drop_last(), k);
    }
}

} // verus!
