//! The windows-874 (Thai) single-byte index.
//!
//! The mapping between the high bytes 0x80..0xFF and their code points is
//! normative data from the WHATWG Encoding standard, written out entry by
//! entry; 0xFFFF marks a byte without a mapping.

use vstd::prelude::*;

verus! {

/// The code point the index assigns to high byte `code`, or 0xFFFF where it
/// assigns none.
#[verifier::opaque]
pub open spec fn spec_forward(code: u8) -> u16 {
    match code {
        0x80 => 8364,
        0x81 => 129,
        0x82 => 130,
        0x83 => 131,
        0x84 => 132,
        0x85 => 8230,
        0x86 => 134,
        0x87 => 135,
        0x88 => 136,
        0x89 => 137,
        0x8A => 138,
        0x8B => 139,
        0x8C => 140,
        0x8D => 141,
        0x8E => 142,
        0x8F => 143,
        0x90 => 144,
        0x91 => 8216,
        0x92 => 8217,
        0x93 => 8220,
        0x94 => 8221,
        0x95 => 8226,
        0x96 => 8211,
        0x97 => 8212,
        0x98 => 152,
        0x99 => 153,
        0x9A => 154,
        0x9B => 155,
        0x9C => 156,
        0x9D => 157,
        0x9E => 158,
        0x9F => 159,
        0xA0 => 160,
        0xA1 => 3585,
        0xA2 => 3586,
        0xA3 => 3587,
        0xA4 => 3588,
        0xA5 => 3589,
        0xA6 => 3590,
        0xA7 => 3591,
        0xA8 => 3592,
        0xA9 => 3593,
        0xAA => 3594,
        0xAB => 3595,
        0xAC => 3596,
        0xAD => 3597,
        0xAE => 3598,
        0xAF => 3599,
        0xB0 => 3600,
        0xB1 => 3601,
        0xB2 => 3602,
        0xB3 => 3603,
        0xB4 => 3604,
        0xB5 => 3605,
        0xB6 => 3606,
        0xB7 => 3607,
        0xB8 => 3608,
        0xB9 => 3609,
        0xBA => 3610,
        0xBB => 3611,
        0xBC => 3612,
        0xBD => 3613,
        0xBE => 3614,
        0xBF => 3615,
        0xC0 => 3616,
        0xC1 => 3617,
        0xC2 => 3618,
        0xC3 => 3619,
        0xC4 => 3620,
        0xC5 => 3621,
        0xC6 => 3622,
        0xC7 => 3623,
        0xC8 => 3624,
        0xC9 => 3625,
        0xCA => 3626,
        0xCB => 3627,
        0xCC => 3628,
        0xCD => 3629,
        0xCE => 3630,
        0xCF => 3631,
        0xD0 => 3632,
        0xD1 => 3633,
        0xD2 => 3634,
        0xD3 => 3635,
        0xD4 => 3636,
        0xD5 => 3637,
        0xD6 => 3638,
        0xD7 => 3639,
        0xD8 => 3640,
        0xD9 => 3641,
        0xDA => 3642,
        0xDB => 65535,
        0xDC => 65535,
        0xDD => 65535,
        0xDE => 65535,
        0xDF => 3647,
        0xE0 => 3648,
        0xE1 => 3649,
        0xE2 => 3650,
        0xE3 => 3651,
        0xE4 => 3652,
        0xE5 => 3653,
        0xE6 => 3654,
        0xE7 => 3655,
        0xE8 => 3656,
        0xE9 => 3657,
        0xEA => 3658,
        0xEB => 3659,
        0xEC => 3660,
        0xED => 3661,
        0xEE => 3662,
        0xEF => 3663,
        0xF0 => 3664,
        0xF1 => 3665,
        0xF2 => 3666,
        0xF3 => 3667,
        0xF4 => 3668,
        0xF5 => 3669,
        0xF6 => 3670,
        0xF7 => 3671,
        0xF8 => 3672,
        0xF9 => 3673,
        0xFA => 3674,
        0xFB => 3675,
        0xFC => 65535,
        0xFD => 65535,
        0xFE => 65535,
        0xFF => 65535,
        _ => 0xFFFF,
    }
}

/// The byte the index assigns to code point `code`, or 0 where it assigns
/// none.
#[verifier::opaque]
pub open spec fn spec_backward(code: u32) -> u8 {
    match code {
        129 => 0x81,
        130 => 0x82,
        131 => 0x83,
        132 => 0x84,
        134 => 0x86,
        135 => 0x87,
        136 => 0x88,
        137 => 0x89,
        138 => 0x8A,
        139 => 0x8B,
        140 => 0x8C,
        141 => 0x8D,
        142 => 0x8E,
        143 => 0x8F,
        144 => 0x90,
        152 => 0x98,
        153 => 0x99,
        154 => 0x9A,
        155 => 0x9B,
        156 => 0x9C,
        157 => 0x9D,
        158 => 0x9E,
        159 => 0x9F,
        160 => 0xA0,
        3585 => 0xA1,
        3586 => 0xA2,
        3587 => 0xA3,
        3588 => 0xA4,
        3589 => 0xA5,
        3590 => 0xA6,
        3591 => 0xA7,
        3592 => 0xA8,
        3593 => 0xA9,
        3594 => 0xAA,
        3595 => 0xAB,
        3596 => 0xAC,
        3597 => 0xAD,
        3598 => 0xAE,
        3599 => 0xAF,
        3600 => 0xB0,
        3601 => 0xB1,
        3602 => 0xB2,
        3603 => 0xB3,
        3604 => 0xB4,
        3605 => 0xB5,
        3606 => 0xB6,
        3607 => 0xB7,
        3608 => 0xB8,
        3609 => 0xB9,
        3610 => 0xBA,
        3611 => 0xBB,
        3612 => 0xBC,
        3613 => 0xBD,
        3614 => 0xBE,
        3615 => 0xBF,
        3616 => 0xC0,
        3617 => 0xC1,
        3618 => 0xC2,
        3619 => 0xC3,
        3620 => 0xC4,
        3621 => 0xC5,
        3622 => 0xC6,
        3623 => 0xC7,
        3624 => 0xC8,
        3625 => 0xC9,
        3626 => 0xCA,
        3627 => 0xCB,
        3628 => 0xCC,
        3629 => 0xCD,
        3630 => 0xCE,
        3631 => 0xCF,
        3632 => 0xD0,
        3633 => 0xD1,
        3634 => 0xD2,
        3635 => 0xD3,
        3636 => 0xD4,
        3637 => 0xD5,
        3638 => 0xD6,
        3639 => 0xD7,
        3640 => 0xD8,
        3641 => 0xD9,
        3642 => 0xDA,
        3647 => 0xDF,
        3648 => 0xE0,
        3649 => 0xE1,
        3650 => 0xE2,
        3651 => 0xE3,
        3652 => 0xE4,
        3653 => 0xE5,
        3654 => 0xE6,
        3655 => 0xE7,
        3656 => 0xE8,
        3657 => 0xE9,
        3658 => 0xEA,
        3659 => 0xEB,
        3660 => 0xEC,
        3661 => 0xED,
        3662 => 0xEE,
        3663 => 0xEF,
        3664 => 0xF0,
        3665 => 0xF1,
        3666 => 0xF2,
        3667 => 0xF3,
        3668 => 0xF4,
        3669 => 0xF5,
        3670 => 0xF6,
        3671 => 0xF7,
        3672 => 0xF8,
        3673 => 0xF9,
        3674 => 0xFA,
        3675 => 0xFB,
        8211 => 0x96,
        8212 => 0x97,
        8216 => 0x91,
        8217 => 0x92,
        8220 => 0x93,
        8221 => 0x94,
        8226 => 0x95,
        8230 => 0x85,
        8364 => 0x80,
        _ => 0,
    }
}

/// Returns the index code point for pointer `code` in this index.
pub fn forward(code: u8) -> (r: u16)
    requires
        code >= 0x80,
    ensures
        r == spec_forward(code),
        r == 0xFFFF || r < 0xD800,
{
    proof {
        reveal(spec_forward);
    }
    match code {
        0x80 => 8364,
        0x81 => 129,
        0x82 => 130,
        0x83 => 131,
        0x84 => 132,
        0x85 => 8230,
        0x86 => 134,
        0x87 => 135,
        0x88 => 136,
        0x89 => 137,
        0x8A => 138,
        0x8B => 139,
        0x8C => 140,
        0x8D => 141,
        0x8E => 142,
        0x8F => 143,
        0x90 => 144,
        0x91 => 8216,
        0x92 => 8217,
        0x93 => 8220,
        0x94 => 8221,
        0x95 => 8226,
        0x96 => 8211,
        0x97 => 8212,
        0x98 => 152,
        0x99 => 153,
        0x9A => 154,
        0x9B => 155,
        0x9C => 156,
        0x9D => 157,
        0x9E => 158,
        0x9F => 159,
        0xA0 => 160,
        0xA1 => 3585,
        0xA2 => 3586,
        0xA3 => 3587,
        0xA4 => 3588,
        0xA5 => 3589,
        0xA6 => 3590,
        0xA7 => 3591,
        0xA8 => 3592,
        0xA9 => 3593,
        0xAA => 3594,
        0xAB => 3595,
        0xAC => 3596,
        0xAD => 3597,
        0xAE => 3598,
        0xAF => 3599,
        0xB0 => 3600,
        0xB1 => 3601,
        0xB2 => 3602,
        0xB3 => 3603,
        0xB4 => 3604,
        0xB5 => 3605,
        0xB6 => 3606,
        0xB7 => 3607,
        0xB8 => 3608,
        0xB9 => 3609,
        0xBA => 3610,
        0xBB => 3611,
        0xBC => 3612,
        0xBD => 3613,
        0xBE => 3614,
        0xBF => 3615,
        0xC0 => 3616,
        0xC1 => 3617,
        0xC2 => 3618,
        0xC3 => 3619,
        0xC4 => 3620,
        0xC5 => 3621,
        0xC6 => 3622,
        0xC7 => 3623,
        0xC8 => 3624,
        0xC9 => 3625,
        0xCA => 3626,
        0xCB => 3627,
        0xCC => 3628,
        0xCD => 3629,
        0xCE => 3630,
        0xCF => 3631,
        0xD0 => 3632,
        0xD1 => 3633,
        0xD2 => 3634,
        0xD3 => 3635,
        0xD4 => 3636,
        0xD5 => 3637,
        0xD6 => 3638,
        0xD7 => 3639,
        0xD8 => 3640,
        0xD9 => 3641,
        0xDA => 3642,
        0xDB => 65535,
        0xDC => 65535,
        0xDD => 65535,
        0xDE => 65535,
        0xDF => 3647,
        0xE0 => 3648,
        0xE1 => 3649,
        0xE2 => 3650,
        0xE3 => 3651,
        0xE4 => 3652,
        0xE5 => 3653,
        0xE6 => 3654,
        0xE7 => 3655,
        0xE8 => 3656,
        0xE9 => 3657,
        0xEA => 3658,
        0xEB => 3659,
        0xEC => 3660,
        0xED => 3661,
        0xEE => 3662,
        0xEF => 3663,
        0xF0 => 3664,
        0xF1 => 3665,
        0xF2 => 3666,
        0xF3 => 3667,
        0xF4 => 3668,
        0xF5 => 3669,
        0xF6 => 3670,
        0xF7 => 3671,
        0xF8 => 3672,
        0xF9 => 3673,
        0xFA => 3674,
        0xFB => 3675,
        0xFC => 65535,
        0xFD => 65535,
        0xFE => 65535,
        0xFF => 65535,
        _ => 0xFFFF,
    }
}

/// Returns the index pointer for code point `code` in this index.
pub fn backward(code: u32) -> (r: u8)
    ensures
        r == spec_backward(code),
{
    proof {
        reveal(spec_backward);
    }
    match code {
        129 => 0x81,
        130 => 0x82,
        131 => 0x83,
        132 => 0x84,
        134 => 0x86,
        135 => 0x87,
        136 => 0x88,
        137 => 0x89,
        138 => 0x8A,
        139 => 0x8B,
        140 => 0x8C,
        141 => 0x8D,
        142 => 0x8E,
        143 => 0x8F,
        144 => 0x90,
        152 => 0x98,
        153 => 0x99,
        154 => 0x9A,
        155 => 0x9B,
        156 => 0x9C,
        157 => 0x9D,
        158 => 0x9E,
        159 => 0x9F,
        160 => 0xA0,
        3585 => 0xA1,
        3586 => 0xA2,
        3587 => 0xA3,
        3588 => 0xA4,
        3589 => 0xA5,
        3590 => 0xA6,
        3591 => 0xA7,
        3592 => 0xA8,
        3593 => 0xA9,
        3594 => 0xAA,
        3595 => 0xAB,
        3596 => 0xAC,
        3597 => 0xAD,
        3598 => 0xAE,
        3599 => 0xAF,
        3600 => 0xB0,
        3601 => 0xB1,
        3602 => 0xB2,
        3603 => 0xB3,
        3604 => 0xB4,
        3605 => 0xB5,
        3606 => 0xB6,
        3607 => 0xB7,
        3608 => 0xB8,
        3609 => 0xB9,
        3610 => 0xBA,
        3611 => 0xBB,
        3612 => 0xBC,
        3613 => 0xBD,
        3614 => 0xBE,
        3615 => 0xBF,
        3616 => 0xC0,
        3617 => 0xC1,
        3618 => 0xC2,
        3619 => 0xC3,
        3620 => 0xC4,
        3621 => 0xC5,
        3622 => 0xC6,
        3623 => 0xC7,
        3624 => 0xC8,
        3625 => 0xC9,
        3626 => 0xCA,
        3627 => 0xCB,
        3628 => 0xCC,
        3629 => 0xCD,
        3630 => 0xCE,
        3631 => 0xCF,
        3632 => 0xD0,
        3633 => 0xD1,
        3634 => 0xD2,
        3635 => 0xD3,
        3636 => 0xD4,
        3637 => 0xD5,
        3638 => 0xD6,
        3639 => 0xD7,
        3640 => 0xD8,
        3641 => 0xD9,
        3642 => 0xDA,
        3647 => 0xDF,
        3648 => 0xE0,
        3649 => 0xE1,
        3650 => 0xE2,
        3651 => 0xE3,
        3652 => 0xE4,
        3653 => 0xE5,
        3654 => 0xE6,
        3655 => 0xE7,
        3656 => 0xE8,
        3657 => 0xE9,
        3658 => 0xEA,
        3659 => 0xEB,
        3660 => 0xEC,
        3661 => 0xED,
        3662 => 0xEE,
        3663 => 0xEF,
        3664 => 0xF0,
        3665 => 0xF1,
        3666 => 0xF2,
        3667 => 0xF3,
        3668 => 0xF4,
        3669 => 0xF5,
        3670 => 0xF6,
        3671 => 0xF7,
        3672 => 0xF8,
        3673 => 0xF9,
        3674 => 0xFA,
        3675 => 0xFB,
        8211 => 0x96,
        8212 => 0x97,
        8216 => 0x91,
        8217 => 0x92,
        8220 => 0x93,
        8221 => 0x94,
        8226 => 0x95,
        8230 => 0x85,
        8364 => 0x80,
        _ => 0,
    }
}


/// The two tables are inverse: every code point the backward table maps
/// goes back to itself through the forward table.
pub proof fn lemma_tables_inverse(code: u32)
    ensures
        spec_backward(code) != 0 ==> spec_backward(code) >= 0x80 && code < 0xD800
            && spec_forward(spec_backward(code)) == code,
{
    reveal(spec_forward);
    reveal(spec_backward);
}

} // verus!
