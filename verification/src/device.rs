use vstd::prelude::*;

verus! {

/// What kind of hardware a device is, the kinds in the order of preference.
#[derive(Clone, Copy, Debug, PartialEq, Eq, Structural)]
pub enum DeviceKind {
    Discrete,
    Integrated,
    Virtual,
    Cpu,
    Other,
}

impl DeviceKind {
    /// The place of the kind in the order of preference, from 1.
    pub open spec fn rank(self) -> int {
        match self {
            DeviceKind::Discrete => 1,
            DeviceKind::Integrated => 2,
            DeviceKind::Virtual => 3,
            DeviceKind::Cpu => 4,
            DeviceKind::Other => 5,
        }
    }

    fn place(self) -> (out: u8)
        ensures
            out == self.rank(),
    {
        match self {
            DeviceKind::Discrete => 1,
            DeviceKind::Integrated => 2,
            DeviceKind::Virtual => 3,
            DeviceKind::Cpu => 4,
            DeviceKind::Other => 5,
        }
    }
}

/// A device that has every extension that is required.
#[derive(Clone, Copy, Debug, PartialEq, Eq, Structural)]
pub struct Candidate {
    /// How many of the optional extensions the device lacks.
    pub rating: u32,
    pub kind: DeviceKind,
}

/// How many entries of `present` are false.
pub open spec fn missing(present: Seq<bool>) -> nat
    decreases present.len(),
{
    if present.len() == 0 {
        0
    } else {
        missing(present.drop_last()) + if present.last() {
            0nat
        } else {
            1nat
        }
    }
}

/// The rating of a device: the number of optional extensions that it
/// lacks, and none where it lacks a required one.
pub open spec fn rated(required: Seq<bool>, optional: Seq<bool>) -> Option<nat> {
    if missing(required) > 0 {
        None
    } else {
        Some(missing(optional))
    }
}

/// Rates a device by the extensions it has: `required[i]` and `optional[i]`
/// say whether the device has the extension of that number. A device that
/// lacks a required extension gets no rating; else each optional extension
/// that it lacks counts one, and less is better.
pub fn rate(required: &Vec<bool>, optional: &Vec<bool>) -> (out: Option<u32>)
    requires
        optional@.len() <= u32::MAX,
    ensures
        match out {
            Some(rating) => rated(required@, optional@) == Some(rating as nat),
            None => rated(required@, optional@) is None,
        },
{
    let mut i: usize = 0;
    while i < required.len()
        invariant
            i <= required@.len(),
            missing(required@.take(i as int)) == 0,
        decreases required.len() - i,
    {
        assert(required@.take(i + 1).drop_last() =~= required@.take(i as int));
        if !required[i] {
            proof {
                lemma_missing_grows(required@, i + 1);
            }
            return None;
        }
        i += 1;
    }
    assert(required@.take(i as int) =~= required@);
    let mut rating: u32 = 0;
    let mut j: usize = 0;
    while j < optional.len()
        invariant
            j <= optional@.len() <= u32::MAX,
            rating == missing(optional@.take(j as int)),
            rating <= j,
        decreases optional.len() - j,
    {
        assert(optional@.take(j + 1).drop_last() =~= optional@.take(j as int));
        if !optional[j] {
            rating += 1;
        }
        j += 1;
    }
    assert(optional@.take(j as int) =~= optional@);
    Some(rating)
}

/// What is missing among the first `k` is missing among all.
proof fn lemma_missing_grows(present: Seq<bool>, k: int)
    requires
        0 <= k <= present.len(),
    ensures
        missing(present.take(k)) <= missing(present),
    decreases present.len() - k,
{
    if k == present.len() {
        assert(present.take(k) =~= present);
    } else {
        assert(present.drop_last().take(k) =~= present.take(k));
        lemma_missing_grows(present.drop_last(), k);
    }
}

/// Whether `a` is to be preferred to `b`: by the lower rating, and among
/// equal ratings by the kind.
pub open spec fn better(a: Candidate, b: Candidate) -> bool {
    a.rating < b.rating || (a.rating == b.rating && a.kind.rank() < b.kind.rank())
}

/// Whether candidate `at` is the one to take: none is better, and each one
/// before it is worse.
pub open spec fn is_choice(candidates: Seq<Candidate>, at: int) -> bool {
    &&& 0 <= at < candidates.len()
    &&& forall|j: int| 0 <= j < candidates.len() ==> !better(#[trigger] candidates[j], candidates[at])
    &&& forall|j: int| 0 <= j < at ==> better(candidates[at], #[trigger] candidates[j])
}

/// At most one candidate is the one to take.
pub proof fn lemma_choice_is_unique(candidates: Seq<Candidate>, a: int, b: int)
    requires
        is_choice(candidates, a),
        is_choice(candidates, b),
    ensures
        a == b,
{
    if a < b {
        assert(better(candidates[b], candidates[a]));
    } else if b < a {
        assert(better(candidates[a], candidates[b]));
    }
}

fn prefer(a: Candidate, b: Candidate) -> (out: bool)
    ensures
        out == better(a, b),
{
    a.rating < b.rating || (a.rating == b.rating && a.kind.place() < b.kind.place())
}

/// Picks the device to use: one with the lowest rating, among those one of
/// the most preferred kind, and among those the first.
pub fn select_device(candidates: &Vec<Candidate>) -> (out: Option<usize>)
    ensures
        match out {
            Some(at) => is_choice(candidates@, at as int),
            None => candidates@.len() == 0,
        },
{
    if candidates.len() == 0 {
        return None;
    }
    let mut best: usize = 0;
    let mut i: usize = 1;
    while i < candidates.len()
        invariant
            1 <= i <= candidates@.len(),
            is_choice(candidates@.take(i as int), best as int),
        decreases candidates.len() - i,
    {
        let ghost seen = candidates@.take(i as int);
        let ghost more = candidates@.take(i + 1);
        assert(forall|j: int| 0 <= j < i ==> more[j] == seen[j]);
        if prefer(candidates[i], candidates[best]) {
            assert forall|j: int| 0 <= j < more.len() implies !better(
                #[trigger] more[j],
                more[i as int],
            ) by {
                if j < i {
                    assert(!better(seen[j], seen[best as int]));
                }
            }
            assert forall|j: int| 0 <= j < i implies better(more[i as int], #[trigger] more[j]) by {
                assert(!better(seen[j], seen[best as int]));
            }
            best = i;
        } else {
            assert forall|j: int| 0 <= j < more.len() implies !better(
                #[trigger] more[j],
                more[best as int],
            ) by {
                if j < i {
                    assert(!better(seen[j], seen[best as int]));
                }
            }
            assert forall|j: int| 0 <= j < best implies better(
                more[best as int],
                #[trigger] more[j],
            ) by {
                assert(better(seen[best as int], seen[j]));
            }
        }
        i += 1;
    }
    assert(candidates@.take(i as int) =~= candidates@);
    Some(best)
}

/// The bit that marks a queue family as one for graphics.
pub const QUEUE_GRAPHICS: u32 = 1;

/// Whether family `at` is the first whose flags hold the graphics bit.
pub open spec fn is_first_graphics(flags: Seq<u32>, at: int) -> bool {
    &&& 0 <= at < flags.len()
    &&& flags[at] & QUEUE_GRAPHICS == QUEUE_GRAPHICS
    &&& forall|j: int| 0 <= j < at ==> (#[trigger] flags[j]) & QUEUE_GRAPHICS != QUEUE_GRAPHICS
}

/// Finds the first queue family that does graphics.
pub fn graphics_queue_family(flags: &Vec<u32>) -> (out: Option<usize>)
    ensures
        match out {
            Some(at) => is_first_graphics(flags@, at as int),
            None => forall|j: int|
                0 <= j < flags@.len() ==> (#[trigger] flags@[j]) & QUEUE_GRAPHICS != QUEUE_GRAPHICS,
        },
{
    let mut i: usize = 0;
    while i < flags.len()
        invariant
            i <= flags@.len(),
            forall|j: int| 0 <= j < i ==> (#[trigger] flags@[j]) & QUEUE_GRAPHICS != QUEUE_GRAPHICS,
        decreases flags.len() - i,
    {
        if flags[i] & QUEUE_GRAPHICS == QUEUE_GRAPHICS {
            return Some(i);
        }
        i += 1;
    }
    None
}

/// Whether memory type `at` will do: it is one of the first 32, its bit is
/// set in `type_bits`, and it has every property of `wanted`.
pub open spec fn memory_fits(type_bits: u32, properties: Seq<u32>, wanted: u32, at: int) -> bool {
    &&& 0 <= at < properties.len()
    &&& at < 32
    &&& type_bits & (1u32 << (at as u32)) != 0
    &&& properties[at] & wanted == wanted
}

/// Finds the first memory type that a resource may use (`type_bits` has the
/// bit of its number) and that has every property of `wanted`.
pub fn find_memory_type(type_bits: u32, properties: &Vec<u32>, wanted: u32) -> (out: Option<usize>)
    ensures
        match out {
            Some(at) => memory_fits(type_bits, properties@, wanted, at as int) && forall|j: int|
                0 <= j < at ==> !memory_fits(type_bits, properties@, wanted, j),
            None => forall|j: int| !memory_fits(type_bits, properties@, wanted, j),
        },
{
    let mut i: usize = 0;
    while i < properties.len() && i < 32
        invariant
            i <= properties@.len(),
            i <= 32,
            forall|j: int| 0 <= j < i ==> !memory_fits(type_bits, properties@, wanted, j),
        decreases properties.len() - i,
    {
        let bit: u32 = 1u32 << (i as u32);
        if type_bits & bit != 0 && properties[i] & wanted == wanted {
            return Some(i);
        }
        i += 1;
    }
    None
}

} // verus!
