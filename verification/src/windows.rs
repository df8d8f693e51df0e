use vstd::prelude::*;

verus! {

/// The number by which the accent policy is known among the attributes of
/// window composition.
pub const WCA_ACCENT_POLICY_ID: u32 = 19;

/// An attribute of window composition, with its value.
#[allow(non_camel_case_types)]
#[derive(Clone, Copy, Debug, PartialEq, Eq, Structural)]
pub enum WCAttribute {
    WCA_ACCENT_POLICY { state: u32, flags: u32, gradient: u32, animation: u32 },
}

/// The accent policy that blurs what lies behind a window.
pub open spec fn blur_policy() -> WCAttribute {
    WCAttribute::WCA_ACCENT_POLICY { state: 3, flags: 480, gradient: 0, animation: 0 }
}

impl WCAttribute {
    /// The number by which the attribute is known.
    pub open spec fn id_of(self) -> u32 {
        match self {
            WCAttribute::WCA_ACCENT_POLICY { .. } => WCA_ACCENT_POLICY_ID,
        }
    }

    /// How many bytes the attribute's value takes: four for each of its
    /// 32-bit fields.
    pub open spec fn value_size(self) -> usize {
        match self {
            WCAttribute::WCA_ACCENT_POLICY { .. } => 16,
        }
    }

    /// The accent policy that blurs what lies behind a window.
    pub fn blur() -> (out: WCAttribute)
        ensures
            out == blur_policy(),
    {
        WCAttribute::WCA_ACCENT_POLICY { state: 3, flags: 480, gradient: 0, animation: 0 }
    }

    /// The attribute's value as the 32-bit words it is handed over in.
    pub fn words(&self) -> (out: [u32; 4])
        ensures
            match *self {
                WCAttribute::WCA_ACCENT_POLICY { state, flags, gradient, animation } => out@
                    == seq![state, flags, gradient, animation],
            },
    {
        match *self {
            WCAttribute::WCA_ACCENT_POLICY { state, flags, gradient, animation } => [
                state,
                flags,
                gradient,
                animation,
            ],
        }
    }
}

/// What is handed over to set or get an attribute of window composition:
/// which attribute, and how many bytes its value takes.
#[derive(Clone, Copy, Debug, PartialEq, Eq, Structural)]
pub struct WCAData {
    pub attrib: u32,
    pub cb_data: usize,
}

impl WCAData {
    /// Describes `attribute` for the hand-over.
    pub fn new(attribute: &WCAttribute) -> (out: WCAData)
        ensures
            out == (WCAData { attrib: attribute.id_of(), cb_data: attribute.value_size() }),
    {
        match attribute {
            WCAttribute::WCA_ACCENT_POLICY { .. } => WCAData {
                attrib: WCA_ACCENT_POLICY_ID,
                cb_data: 16,
            },
        }
    }
}

} // verus!
