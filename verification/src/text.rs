use vstd::prelude::*;
use vstd::slice::slice_subrange;
use vstd::string::is_ascii_spec_bytes;

verus! {

/// The byte of a line feed.
pub const LINE_FEED: u8 = 0x0a;

/// The byte of a space.
pub const SPACE: u8 = 0x20;

/// The byte of a colon.
pub const COLON: u8 = 0x3a;

/// The byte of a hyphen.
pub const HYPHEN: u8 = 0x2d;

/// The byte of a slash.
pub const SLASH: u8 = 0x2f;

/// The byte of a plus sign.
pub const PLUS: u8 = 0x2b;

/// Whether `needle` stands in `hay` at index `at`.
pub open spec fn occurs_at(hay: Seq<u8>, needle: Seq<u8>, at: int) -> bool {
    &&& 0 <= at
    &&& at + needle.len() <= hay.len()
    &&& hay.subrange(at, at + needle.len()) == needle
}

/// Whether `at` is the first index at which `needle` stands in `hay`.
pub open spec fn first_occurs_at(hay: Seq<u8>, needle: Seq<u8>, at: int) -> bool {
    &&& occurs_at(hay, needle, at)
    &&& forall|j: int| occurs_at(hay, needle, j) ==> at <= j
}

/// The first index at which `needle` stands in `hay`.
pub open spec fn first_occurrence(hay: Seq<u8>, needle: Seq<u8>) -> Option<int> {
    if exists|i: int| first_occurs_at(hay, needle, i) {
        Some(choose|i: int| first_occurs_at(hay, needle, i))
    } else {
        None
    }
}

/// Whether `at` is the first index of `hay` that holds `byte`.
pub open spec fn first_is_at(hay: Seq<u8>, byte: u8, at: int) -> bool {
    &&& 0 <= at < hay.len()
    &&& hay[at] == byte
    &&& forall|j: int| 0 <= j < at ==> hay[j] != byte
}

/// The first index of `hay` that holds `byte`.
pub open spec fn first_byte(hay: Seq<u8>, byte: u8) -> Option<int> {
    if exists|i: int| first_is_at(hay, byte, i) {
        Some(choose|i: int| first_is_at(hay, byte, i))
    } else {
        None
    }
}

/// Whether `at` is the last index of `hay` that holds `byte`.
pub open spec fn last_is_at(hay: Seq<u8>, byte: u8, at: int) -> bool {
    &&& 0 <= at < hay.len()
    &&& hay[at] == byte
    &&& forall|j: int| at < j < hay.len() ==> hay[j] != byte
}

/// The last index of `hay` that holds `byte`.
pub open spec fn last_byte(hay: Seq<u8>, byte: u8) -> Option<int> {
    if exists|i: int| last_is_at(hay, byte, i) {
        Some(choose|i: int| last_is_at(hay, byte, i))
    } else {
        None
    }
}

/// ASCII white space: space, tab, line feed, vertical tab, form feed and
/// carriage return.
pub open spec fn is_space(byte: u8) -> bool {
    byte == SPACE || (0x09 <= byte <= 0x0d)
}

/// `s` without the white space it starts with.
pub open spec fn trim_start(s: Seq<u8>) -> Seq<u8>
    decreases s.len(),
{
    if s.len() > 0 && is_space(s[0]) {
        trim_start(s.drop_first())
    } else {
        s
    }
}

/// `s` without the white space it ends with.
pub open spec fn trim_end(s: Seq<u8>) -> Seq<u8>
    decreases s.len(),
{
    if s.len() > 0 && is_space(s.last()) {
        trim_end(s.drop_last())
    } else {
        s
    }
}

/// `s` without the white space at both ends.
pub open spec fn trimmed(s: Seq<u8>) -> Seq<u8> {
    trim_end(trim_start(s))
}

/// The value of `byte` as a digit in base `radix`, which is at most 36.
pub open spec fn digit(byte: u8, radix: nat) -> Option<nat> {
    let value: int = if 0x30 <= byte <= 0x39 {
        byte - 0x30
    } else if 0x61 <= byte <= 0x7a {
        byte - 0x61 + 10
    } else if 0x41 <= byte <= 0x5a {
        byte - 0x41 + 10
    } else {
        36
    };
    if value < radix {
        Some(value as nat)
    } else {
        None
    }
}

/// The number that the digits `s` spell in base `radix`, if all are digits.
pub open spec fn digits_value(s: Seq<u8>, radix: nat) -> Option<nat>
    decreases s.len(),
{
    if s.len() == 0 {
        Some(0)
    } else {
        match (digits_value(s.drop_last(), radix), digit(s.last(), radix)) {
            (Some(value), Some(last)) => Some(value * radix + last),
            _ => None,
        }
    }
}

/// The number that `s` spells in base `radix`: at least one digit, with a
/// plus sign before them or none.
pub open spec fn number(s: Seq<u8>, radix: nat) -> Option<nat> {
    let digits = if s.len() > 0 && s[0] == PLUS {
        s.drop_first()
    } else {
        s
    };
    if digits.len() == 0 {
        None
    } else {
        digits_value(digits, radix)
    }
}

/// The number that `s` spells, where it fits 64 bits.
pub open spec fn number_u64(s: Seq<u8>, radix: nat) -> Option<u64> {
    match number(s, radix) {
        Some(value) => if value <= u64::MAX {
            Some(value as u64)
        } else {
            None
        },
        None => None,
    }
}

proof fn lemma_some_occurrence_is_first(hay: Seq<u8>, needle: Seq<u8>, at: int)
    requires
        occurs_at(hay, needle, at),
    ensures
        exists|i: int| first_occurs_at(hay, needle, i),
    decreases at,
{
    if exists|j: int| occurs_at(hay, needle, j) && j < at {
        let j = choose|j: int| occurs_at(hay, needle, j) && j < at;
        lemma_some_occurrence_is_first(hay, needle, j);
    } else {
        assert(first_occurs_at(hay, needle, at));
    }
}

/// The first occurrence is an occurrence with none before it, and there is
/// one wherever `needle` stands in `hay` at all.
pub proof fn lemma_first_occurrence(hay: Seq<u8>, needle: Seq<u8>)
    ensures
        match first_occurrence(hay, needle) {
            Some(at) => first_occurs_at(hay, needle, at),
            None => forall|j: int| !occurs_at(hay, needle, j),
        },
{
    if first_occurrence(hay, needle) is None {
        assert forall|j: int| !occurs_at(hay, needle, j) by {
            if occurs_at(hay, needle, j) {
                lemma_some_occurrence_is_first(hay, needle, j);
            }
        }
    }
}

proof fn lemma_some_occurrence_is_last(hay: Seq<u8>, needle: Seq<u8>, at: int)
    requires
        occurs_at(hay, needle, at),
    ensures
        exists|i: int| last_occurs_at(hay, needle, i),
    decreases hay.len() - at,
{
    if exists|j: int| occurs_at(hay, needle, j) && j > at {
        let j = choose|j: int| occurs_at(hay, needle, j) && j > at;
        lemma_some_occurrence_is_last(hay, needle, j);
    } else {
        assert(last_occurs_at(hay, needle, at));
    }
}

/// The last occurrence is an occurrence with none after it, and there is
/// one wherever `needle` stands in `hay` at all.
pub proof fn lemma_last_occurrence(hay: Seq<u8>, needle: Seq<u8>)
    ensures
        match last_occurrence(hay, needle) {
            Some(at) => last_occurs_at(hay, needle, at),
            None => forall|j: int| !occurs_at(hay, needle, j),
        },
{
    if last_occurrence(hay, needle) is None {
        assert forall|j: int| !occurs_at(hay, needle, j) by {
            if occurs_at(hay, needle, j) {
                lemma_some_occurrence_is_last(hay, needle, j);
            }
        }
    }
}

proof fn lemma_some_byte_is_first(hay: Seq<u8>, byte: u8, at: int)
    requires
        0 <= at < hay.len(),
        hay[at] == byte,
    ensures
        exists|i: int| first_is_at(hay, byte, i),
    decreases at,
{
    if exists|j: int| 0 <= j < at && hay[j] == byte {
        let j = choose|j: int| 0 <= j < at && hay[j] == byte;
        lemma_some_byte_is_first(hay, byte, j);
    } else {
        assert(first_is_at(hay, byte, at));
    }
}

proof fn lemma_some_byte_is_last(hay: Seq<u8>, byte: u8, at: int)
    requires
        0 <= at < hay.len(),
        hay[at] == byte,
    ensures
        exists|i: int| last_is_at(hay, byte, i),
    decreases hay.len() - at,
{
    if exists|j: int| at < j < hay.len() && hay[j] == byte {
        let j = choose|j: int| at < j < hay.len() && hay[j] == byte;
        lemma_some_byte_is_last(hay, byte, j);
    } else {
        assert(last_is_at(hay, byte, at));
    }
}

/// The first and the last index of a byte are what their names say, and
/// there are both wherever the byte stands in `hay` at all.
pub proof fn lemma_first_and_last_byte(hay: Seq<u8>, byte: u8)
    ensures
        match first_byte(hay, byte) {
            Some(at) => first_is_at(hay, byte, at),
            None => !hay.contains(byte),
        },
        match last_byte(hay, byte) {
            Some(at) => last_is_at(hay, byte, at),
            None => !hay.contains(byte),
        },
{
    if hay.contains(byte) {
        let at = choose|i: int| 0 <= i < hay.len() && hay[i] == byte;
        lemma_some_byte_is_first(hay, byte, at);
        lemma_some_byte_is_last(hay, byte, at);
    }
}

fn matches_at(hay: &[u8], needle: &[u8], at: usize) -> (out: bool)
    requires
        at + needle@.len() <= hay@.len(),
    ensures
        out == occurs_at(hay@, needle@, at as int),
{
    let total: usize = hay.len();
    let mut k: usize = 0;
    while k < needle.len()
        invariant
            k <= needle@.len(),
            at + needle@.len() <= hay@.len(),
            total == hay@.len(),
            forall|m: int| 0 <= m < k ==> hay@[at + m] == needle@[m],
        decreases needle.len() - k,
    {
        if hay[at + k] != needle[k] {
            assert(hay@.subrange(at as int, at + needle@.len())[k as int] != needle@[k as int]);
            return false;
        }
        k += 1;
    }
    assert(hay@.subrange(at as int, at + needle@.len()) =~= needle@);
    true
}

/// Finds the first place where `needle` stands in `hay`.
pub fn find(hay: &[u8], needle: &[u8]) -> (out: Option<usize>)
    ensures
        match out {
            Some(at) => first_occurrence(hay@, needle@) == Some(at as int),
            None => first_occurrence(hay@, needle@) is None,
        },
        out matches Some(at) ==> at + needle@.len() <= hay@.len(),
        out is None ==> forall|j: int| !occurs_at(hay@, needle@, j),
{
    if needle.len() > hay.len() {
        return None;
    }
    let last: usize = hay.len() - needle.len();
    let mut at: usize = 0;
    loop
        invariant
            at <= last,
            last == hay@.len() - needle@.len(),
            forall|j: int| 0 <= j < at ==> !occurs_at(hay@, needle@, j),
        decreases last - at,
    {
        if matches_at(hay, needle, at) {
            assert(first_occurs_at(hay@, needle@, at as int));
            return Some(at);
        }
        if at == last {
            return None;
        }
        at += 1;
    }
}

/// Finds the first `byte` in `hay`.
pub fn find_byte(hay: &[u8], byte: u8) -> (out: Option<usize>)
    ensures
        match out {
            Some(at) => first_byte(hay@, byte) == Some(at as int) && at < hay@.len(),
            None => first_byte(hay@, byte) is None,
        },
{
    let mut at: usize = 0;
    while at < hay.len()
        invariant
            at <= hay@.len(),
            forall|j: int| 0 <= j < at ==> hay@[j] != byte,
        decreases hay.len() - at,
    {
        if hay[at] == byte {
            assert(first_is_at(hay@, byte, at as int));
            return Some(at);
        }
        at += 1;
    }
    None
}

/// Finds the last `byte` in `hay`.
pub fn rfind_byte(hay: &[u8], byte: u8) -> (out: Option<usize>)
    ensures
        match out {
            Some(at) => last_byte(hay@, byte) == Some(at as int) && at < hay@.len(),
            None => last_byte(hay@, byte) is None,
        },
{
    let mut at: usize = hay.len();
    while at > 0
        invariant
            at <= hay@.len(),
            forall|j: int| at <= j < hay@.len() ==> hay@[j] != byte,
        decreases at,
    {
        at -= 1;
        if hay[at] == byte {
            assert(last_is_at(hay@, byte, at as int));
            return Some(at);
        }
    }
    None
}

fn space(byte: u8) -> (out: bool)
    ensures
        out == is_space(byte),
{
    byte == SPACE || (0x09 <= byte && byte <= 0x0d)
}

/// Cuts the ASCII white space off both ends of `s`.
pub fn trim(s: &[u8]) -> (out: &[u8])
    ensures
        out@ == trimmed(s@),
{
    let mut start: usize = 0;
    assert(s@.subrange(0, s@.len() as int) =~= s@);
    while start < s.len() && space(s[start])
        invariant
            start <= s@.len(),
            trim_start(s@) == trim_start(s@.subrange(start as int, s@.len() as int)),
        decreases s.len() - start,
    {
        assert(s@.subrange(start as int, s@.len() as int).drop_first() =~= s@.subrange(
            start + 1,
            s@.len() as int,
        ));
        start += 1;
    }
    let ghost rest = s@.subrange(start as int, s@.len() as int);
    assert(trim_start(s@) == rest);
    let mut end: usize = s.len();
    while end > start && space(s[end - 1])
        invariant
            start <= end <= s@.len(),
            rest == s@.subrange(start as int, s@.len() as int),
            trim_end(rest) == trim_end(s@.subrange(start as int, end as int)),
        decreases end,
    {
        assert(s@.subrange(start as int, end as int).drop_last() =~= s@.subrange(
            start as int,
            end - 1,
        ));
        end -= 1;
    }
    slice_subrange(s, start, end)
}

fn digit_of(byte: u8, radix: u32) -> (out: Option<u32>)
    requires
        radix <= 36,
    ensures
        match out {
            Some(value) => digit(byte, radix as nat) == Some(value as nat),
            None => digit(byte, radix as nat) is None,
        },
{
    let value: u32 = if 0x30 <= byte && byte <= 0x39 {
        (byte - 0x30) as u32
    } else if 0x61 <= byte && byte <= 0x7a {
        (byte - 0x61) as u32 + 10
    } else if 0x41 <= byte && byte <= 0x5a {
        (byte - 0x41) as u32 + 10
    } else {
        36
    };
    if value < radix {
        Some(value)
    } else {
        None
    }
}

/// Where all of `s` are digits, the number they spell is no less than what
/// the first `k` of them spell.
proof fn lemma_value_grows(s: Seq<u8>, radix: nat, k: int)
    requires
        0 <= k <= s.len(),
        radix >= 1,
        digits_value(s, radix) is Some,
    ensures
        digits_value(s.take(k), radix) is Some,
        digits_value(s.take(k), radix)->0 <= digits_value(s, radix)->0,
    decreases s.len() - k,
{
    if k == s.len() {
        assert(s.take(k) =~= s);
    } else {
        lemma_value_grows(s.drop_last(), radix, k);
        assert(s.drop_last().take(k) =~= s.take(k));
        let value = digits_value(s.drop_last(), radix)->0;
        assert(value * radix >= value) by (nonlinear_arith)
            requires
                radix >= 1,
                value >= 0,
        ;
    }
}

/// Reads the number that `s` spells in base `radix`: digits, with a plus
/// sign before them or none. There is none where `s` holds no digit or
/// anything but digits, or where the number does not fit 64 bits.
pub fn parse_number(s: &[u8], radix: u32) -> (out: Option<u64>)
    requires
        2 <= radix <= 36,
    ensures
        out == number_u64(s@, radix as nat),
{
    let start: usize = if s.len() > 0 && s[0] == PLUS {
        1
    } else {
        0
    };
    let ghost digits = s@.subrange(start as int, s@.len() as int);
    assert(start == 1 ==> digits =~= s@.drop_first());
    assert(start == 0 ==> digits =~= s@);
    if start == s.len() {
        return None;
    }
    assert(number(s@, radix as nat) == digits_value(digits, radix as nat));
    let mut value: u64 = 0;
    let mut at: usize = start;
    while at < s.len()
        invariant
            start <= at <= s@.len(),
            2 <= radix <= 36,
            number(s@, radix as nat) == digits_value(digits, radix as nat),
            digits == s@.subrange(start as int, s@.len() as int),
            digits_value(digits.take(at - start), radix as nat) == Some(value as nat),
        decreases s.len() - at,
    {
        let ghost prefix = digits.take(at - start);
        let ghost longer = digits.take(at - start + 1);
        assert(longer.drop_last() =~= prefix);
        assert(longer.last() == s@[at as int]);
        let step: u32 = match digit_of(s[at], radix) {
            Some(step) => step,
            None => {
                proof {
                    assert(digits_value(longer, radix as nat) is None);
                    if digits_value(digits, radix as nat) is Some {
                        lemma_value_grows(digits, radix as nat, at - start + 1);
                    }
                    assert(digits_value(digits, radix as nat) is None);
                }
                return None;
            },
        };
        let next: Option<u64> = match value.checked_mul(radix as u64) {
            Some(scaled) => scaled.checked_add(step as u64),
            None => None,
        };
        match next {
            Some(next) => {
                value = next;
            },
            None => {
                proof {
                    assert(digits_value(longer, radix as nat) == Some(
                        value as nat * radix as nat + step as nat,
                    ));
                    if digits_value(digits, radix as nat) is Some {
                        lemma_value_grows(digits, radix as nat, at - start + 1);
                    }
                }
                return None;
            },
        }
        at += 1;
    }
    assert(digits.take(at - start) =~= digits);
    Some(value)
}

/// Whether `at` is the last index at which `needle` stands in `hay`.
pub open spec fn last_occurs_at(hay: Seq<u8>, needle: Seq<u8>, at: int) -> bool {
    &&& occurs_at(hay, needle, at)
    &&& forall|j: int| occurs_at(hay, needle, j) ==> j <= at
}

/// The last index at which `needle` stands in `hay`.
pub open spec fn last_occurrence(hay: Seq<u8>, needle: Seq<u8>) -> Option<int> {
    if exists|i: int| last_occurs_at(hay, needle, i) {
        Some(choose|i: int| last_occurs_at(hay, needle, i))
    } else {
        None
    }
}

/// Finds the last place where `needle` stands in `hay`.
pub fn rfind(hay: &[u8], needle: &[u8]) -> (out: Option<usize>)
    ensures
        match out {
            Some(at) => last_occurrence(hay@, needle@) == Some(at as int),
            None => last_occurrence(hay@, needle@) is None,
        },
        out matches Some(at) ==> at + needle@.len() <= hay@.len(),
{
    if needle.len() > hay.len() {
        return None;
    }
    let last: usize = hay.len() - needle.len();
    let mut at: usize = last;
    loop
        invariant
            at <= last,
            last == hay@.len() - needle@.len(),
            forall|j: int| at < j ==> !occurs_at(hay@, needle@, j),
        decreases at,
    {
        if matches_at(hay, needle, at) {
            assert(last_occurs_at(hay@, needle@, at as int));
            return Some(at);
        }
        if at == 0 {
            return None;
        }
        at -= 1;
    }
}

/// The bytes of a text of ASCII characters.
pub open spec fn ascii(text: Seq<char>) -> Seq<u8> {
    Seq::new(text.len(), |i: int| text[i] as u8)
}

/// Whether two rows of bytes are the same.
pub fn same_bytes(left: &[u8], right: &[u8]) -> (out: bool)
    ensures
        out == (left@ == right@),
{
    if left.len() != right.len() {
        return false;
    }
    let mut i: usize = 0;
    while i < left.len()
        invariant
            i <= left@.len(),
            left@.len() == right@.len(),
            forall|j: int| 0 <= j < i ==> left@[j] == right@[j],
        decreases left.len() - i,
    {
        if left[i] != right[i] {
            return false;
        }
        i += 1;
    }
    assert(left@ =~= right@);
    true
}

/// Whether `raw` holds the ASCII text `text` and nothing else.
pub fn is_text(raw: &[u8], text: &str) -> (out: bool)
    requires
        text.is_ascii(),
    ensures
        out == (raw@ == ascii(text@)),
{
    broadcast use is_ascii_spec_bytes;

    same_bytes(raw, text.as_bytes())
}

/// Adds the bytes of `more` to the end of `out`.
pub fn push_bytes(out: &mut Vec<u8>, more: &[u8])
    ensures
        final(out)@ == old(out)@ + more@,
{
    let mut i: usize = 0;
    while i < more.len()
        invariant
            i <= more@.len(),
            out@ == old(out)@ + more@.take(i as int),
        decreases more.len() - i,
    {
        out.push(more[i]);
        i += 1;
    }
    assert(more@.take(i as int) == more@);
}

/// Adds the bytes of the ASCII text `text` to the end of `out`.
pub fn push_text(out: &mut Vec<u8>, text: &str)
    requires
        text.is_ascii(),
    ensures
        final(out)@ == old(out)@ + ascii(text@),
{
    broadcast use is_ascii_spec_bytes;

    push_bytes(out, text.as_bytes());
}

/// The pieces of `s` between one `separator` and the next: one more piece
/// than there are separators, some of them empty where separators meet.
pub open spec fn split(s: Seq<u8>, separator: u8) -> Seq<Seq<u8>>
    decreases s.len(),
{
    if s.len() == 0 {
        seq![Seq::empty()]
    } else {
        let head = split(s.drop_last(), separator);
        if s.last() == separator {
            head.push(Seq::empty())
        } else {
            head.drop_last().push(head.last().push(s.last()))
        }
    }
}

/// Whether `ranges` are the places of the pieces of `s`, in order: the
/// first begins the text, each next one begins one byte after the end of
/// the one before, where the separator stands, and the last ends the text.
pub open spec fn ranges_of(s: Seq<u8>, pieces: Seq<Seq<u8>>, ranges: Seq<(usize, usize)>) -> bool {
    &&& ranges.len() == pieces.len()
    &&& ranges.len() >= 1
    &&& ranges[0].0 == 0
    &&& ranges.last().1 == s.len()
    &&& forall|k: int|
        0 <= k < ranges.len() ==> {
            &&& (#[trigger] ranges[k]).0 <= ranges[k].1 <= s.len()
            &&& s.subrange(ranges[k].0 as int, ranges[k].1 as int) == pieces[k]
        }
    &&& forall|k: int| 0 <= k < ranges.len() - 1 ==> (#[trigger] ranges[k]).1 + 1 == ranges[k + 1].0
}

/// Finds the pieces of `s` between its separators; each comes as the index
/// of its first byte and the index after its last.
pub fn split_ranges(s: &[u8], separator: u8) -> (out: Vec<(usize, usize)>)
    ensures
        ranges_of(s@, split(s@, separator), out@),
{
    let mut out: Vec<(usize, usize)> = Vec::new();
    let mut start: usize = 0;
    let mut at: usize = 0;
    assert(s@.take(0) =~= Seq::<u8>::empty());
    assert(s@.subrange(0, 0) =~= Seq::<u8>::empty());
    assert(split(s@.take(0), separator) =~= out@.map_values(
        |r: (usize, usize)| s@.subrange(r.0 as int, r.1 as int),
    ).push(s@.subrange(0, 0)));
    while at < s.len()
        invariant
            start <= at <= s@.len(),
            split(s@.take(at as int), separator) == out@.map_values(
                |r: (usize, usize)| s@.subrange(r.0 as int, r.1 as int),
            ).push(s@.subrange(start as int, at as int)),
            forall|k: int| 0 <= k < out@.len() ==> (#[trigger] out@[k]).0 <= out@[k].1 <= s@.len(),
            forall|k: int| 0 <= k < out@.len() - 1 ==> (#[trigger] out@[k]).1 + 1 == out@[k + 1].0,
            out@.len() == 0 ==> start == 0,
            out@.len() > 0 ==> out@[0].0 == 0 && out@.last().1 + 1 == start,
        decreases s.len() - at,
    {
        let ghost before = out@.map_values(
            |r: (usize, usize)| s@.subrange(r.0 as int, r.1 as int),
        );
        let ghost piece = s@.subrange(start as int, at as int);
        assert(s@.take(at + 1).drop_last() =~= s@.take(at as int));
        assert(s@.take(at + 1).last() == s@[at as int]);
        if s[at] == separator {
            out.push((start, at));
            start = at + 1;
            assert(s@.subrange(start as int, start as int) =~= Seq::<u8>::empty());
            assert(out@.map_values(|r: (usize, usize)| s@.subrange(r.0 as int, r.1 as int))
                =~= before.push(piece));
        } else {
            assert(before.push(piece).drop_last() =~= before);
            assert(piece.push(s@[at as int]) =~= s@.subrange(start as int, at + 1));
        }
        at += 1;
    }
    assert(s@.take(at as int) =~= s@);
    let ghost before = out@.map_values(|r: (usize, usize)| s@.subrange(r.0 as int, r.1 as int));
    out.push((start, at));
    assert(out@.map_values(|r: (usize, usize)| s@.subrange(r.0 as int, r.1 as int))
        =~= before.push(s@.subrange(start as int, at as int)));
    assert forall|k: int| 0 <= k < out@.len() implies s@.subrange(
        (#[trigger] out@[k]).0 as int,
        out@[k].1 as int,
    ) == split(s@, separator)[k] by {
        assert(out@.map_values(|r: (usize, usize)| s@.subrange(r.0 as int, r.1 as int))[k]
            == s@.subrange(out@[k].0 as int, out@[k].1 as int));
    }
    out
}

} // verus!
