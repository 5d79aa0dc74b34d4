//! The two selectable behavioral quirks of the instruction set.

use vstd::prelude::*;

verus! {

/// Configuration toggling two opcode-execution variants: which register a
/// shift reads from, and whether bulk register dump/load leaves the index
/// register unchanged.
pub struct Quirks {
    pub is_lazy_shift: bool,
    pub is_static_dump_index: bool,
}

impl Quirks {
    /// Both quirks toggle together: active sets both, inactive clears both.
    pub fn from_flag(is_active: bool) -> (r: Self)
        ensures
            r.is_lazy_shift == is_active,
            r.is_static_dump_index == is_active,
    {
        if is_active {
            Quirks::active()
        } else {
            Quirks::inactive()
        }
    }

    pub fn active() -> (r: Self)
        ensures
            r.is_lazy_shift,
            r.is_static_dump_index,
    {
        Quirks { is_lazy_shift: true, is_static_dump_index: true }
    }

    pub fn inactive() -> (r: Self)
        ensures
            !r.is_lazy_shift,
            !r.is_static_dump_index,
    {
        Quirks { is_lazy_shift: false, is_static_dump_index: false }
    }
}

} // verus!
