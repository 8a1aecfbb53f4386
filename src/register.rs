//! The sixteen general registers, keyed by a width bit and a 3-bit selector.
use vstd::prelude::*;

verus! {

/// A general register: eight byte-wide halves and eight word-wide registers.
#[derive(Debug, Clone, Copy, PartialEq, Eq, Structural)]
pub enum Register {
    Al,
    Cl,
    Dl,
    Bl,
    Ah,
    Ch,
    Dh,
    Bh,
    Ax,
    Cx,
    Dx,
    Bx,
    Sp,
    Bp,
    Si,
    Di,
}

/// The canonical lowercase mnemonic of the register selected by `wide` and `sel`.
pub open spec fn reg_name(wide: bool, sel: u8) -> Seq<char> {
    if !wide {
        if sel == 0 { "al"@ }
        else if sel == 1 { "cl"@ }
        else if sel == 2 { "dl"@ }
        else if sel == 3 { "bl"@ }
        else if sel == 4 { "ah"@ }
        else if sel == 5 { "ch"@ }
        else if sel == 6 { "dh"@ }
        else { "bh"@ }
    } else {
        if sel == 0 { "ax"@ }
        else if sel == 1 { "cx"@ }
        else if sel == 2 { "dx"@ }
        else if sel == 3 { "bx"@ }
        else if sel == 4 { "sp"@ }
        else if sel == 5 { "bp"@ }
        else if sel == 6 { "si"@ }
        else { "di"@ }
    }
}

impl Register {
    /// The register keyed by the width bit and the low three bits of `sel`.
    pub open spec fn spec_from_fields(wide: bool, sel: u8) -> Register {
        let s = sel % 8;
        if !wide {
            if s == 0 { Register::Al }
            else if s == 1 { Register::Cl }
            else if s == 2 { Register::Dl }
            else if s == 3 { Register::Bl }
            else if s == 4 { Register::Ah }
            else if s == 5 { Register::Ch }
            else if s == 6 { Register::Dh }
            else { Register::Bh }
        } else {
            if s == 0 { Register::Ax }
            else if s == 1 { Register::Cx }
            else if s == 2 { Register::Dx }
            else if s == 3 { Register::Bx }
            else if s == 4 { Register::Sp }
            else if s == 5 { Register::Bp }
            else if s == 6 { Register::Si }
            else { Register::Di }
        }
    }

    /// Whether the register is word-wide.
    pub open spec fn spec_is_wide(self) -> bool {
        match self {
            Register::Ax | Register::Cx | Register::Dx | Register::Bx | Register::Sp
            | Register::Bp | Register::Si | Register::Di => true,
            _ => false,
        }
    }

    /// The 3-bit selector of the register within its width.
    pub open spec fn spec_selector(self) -> u8 {
        match self {
            Register::Al | Register::Ax => 0,
            Register::Cl | Register::Cx => 1,
            Register::Dl | Register::Dx => 2,
            Register::Bl | Register::Bx => 3,
            Register::Ah | Register::Sp => 4,
            Register::Ch | Register::Bp => 5,
            Register::Dh | Register::Si => 6,
            Register::Bh | Register::Di => 7,
        }
    }

    /// Total mapping from a width bit and a selector to a register; only the
    /// low three bits of `sel` are read.
    pub fn from_fields(wide: bool, sel: u8) -> (r: Register)
        ensures
            r == Register::spec_from_fields(wide, sel),
            r.spec_is_wide() == wide,
            r.spec_selector() == sel % 8,
    {
        let s = sel & 7;
        assert(sel & 7 == sel % 8) by (bit_vector);
        if !wide {
            match s {
                0 => Register::Al,
                1 => Register::Cl,
                2 => Register::Dl,
                3 => Register::Bl,
                4 => Register::Ah,
                5 => Register::Ch,
                6 => Register::Dh,
                _ => Register::Bh,
            }
        } else {
            match s {
                0 => Register::Ax,
                1 => Register::Cx,
                2 => Register::Dx,
                3 => Register::Bx,
                4 => Register::Sp,
                5 => Register::Bp,
                6 => Register::Si,
                _ => Register::Di,
            }
        }
    }

    /// The register's mnemonic.
    pub fn name(&self) -> (r: &'static str)
        ensures
            r@ == reg_name(self.spec_is_wide(), self.spec_selector()),
    {
        match self {
            Register::Al => "al",
            Register::Cl => "cl",
            Register::Dl => "dl",
            Register::Bl => "bl",
            Register::Ah => "ah",
            Register::Ch => "ch",
            Register::Dh => "dh",
            Register::Bh => "bh",
            Register::Ax => "ax",
            Register::Cx => "cx",
            Register::Dx => "dx",
            Register::Bx => "bx",
            Register::Sp => "sp",
            Register::Bp => "bp",
            Register::Si => "si",
            Register::Di => "di",
        }
    }
}

} // verus!
