//! The windows-1254 (Turkish) single-byte index.
//!
//! The mapping between the high bytes 0x80..0xFF and their code points is
//! normative data from the WHATWG Encoding standard, written out entry by
//! entry; 0xFFFF marks a byte without a mapping.

use vstd::prelude::*;

verus! {

/// The code point the index assigns to high byte `code`, or 0xFFFF where it
/// assigns none.
#[verifier::opaque]
pub open spec fn spec_forward(code: u8) -> u16 {
    match code {
        0x80 => 8364,
        0x81 => 129,
        0x82 => 8218,
        0x83 => 402,
        0x84 => 8222,
        0x85 => 8230,
        0x86 => 8224,
        0x87 => 8225,
        0x88 => 710,
        0x89 => 8240,
        0x8A => 352,
        0x8B => 8249,
        0x8C => 338,
        0x8D => 141,
        0x8E => 142,
        0x8F => 143,
        0x90 => 144,
        0x91 => 8216,
        0x92 => 8217,
        0x93 => 8220,
        0x94 => 8221,
        0x95 => 8226,
        0x96 => 8211,
        0x97 => 8212,
        0x98 => 732,
        0x99 => 8482,
        0x9A => 353,
        0x9B => 8250,
        0x9C => 339,
        0x9D => 157,
        0x9E => 158,
        0x9F => 376,
        0xA0 => 160,
        0xA1 => 161,
        0xA2 => 162,
        0xA3 => 163,
        0xA4 => 164,
        0xA5 => 165,
        0xA6 => 166,
        0xA7 => 167,
        0xA8 => 168,
        0xA9 => 169,
        0xAA => 170,
        0xAB => 171,
        0xAC => 172,
        0xAD => 173,
        0xAE => 174,
        0xAF => 175,
        0xB0 => 176,
        0xB1 => 177,
        0xB2 => 178,
        0xB3 => 179,
        0xB4 => 180,
        0xB5 => 181,
        0xB6 => 182,
        0xB7 => 183,
        0xB8 => 184,
        0xB9 => 185,
        0xBA => 186,
        0xBB => 187,
        0xBC => 188,
        0xBD => 189,
        0xBE => 190,
        0xBF => 191,
        0xC0 => 192,
        0xC1 => 193,
        0xC2 => 194,
        0xC3 => 195,
        0xC4 => 196,
        0xC5 => 197,
        0xC6 => 198,
        0xC7 => 199,
        0xC8 => 200,
        0xC9 => 201,
        0xCA => 202,
        0xCB => 203,
        0xCC => 204,
        0xCD => 205,
        0xCE => 206,
        0xCF => 207,
        0xD0 => 286,
        0xD1 => 209,
        0xD2 => 210,
        0xD3 => 211,
        0xD4 => 212,
        0xD5 => 213,
        0xD6 => 214,
        0xD7 => 215,
        0xD8 => 216,
        0xD9 => 217,
        0xDA => 218,
        0xDB => 219,
        0xDC => 220,
        0xDD => 304,
        0xDE => 350,
        0xDF => 223,
        0xE0 => 224,
        0xE1 => 225,
        0xE2 => 226,
        0xE3 => 227,
        0xE4 => 228,
        0xE5 => 229,
        0xE6 => 230,
        0xE7 => 231,
        0xE8 => 232,
        0xE9 => 233,
        0xEA => 234,
        0xEB => 235,
        0xEC => 236,
        0xED => 237,
        0xEE => 238,
        0xEF => 239,
        0xF0 => 287,
        0xF1 => 241,
        0xF2 => 242,
        0xF3 => 243,
        0xF4 => 244,
        0xF5 => 245,
        0xF6 => 246,
        0xF7 => 247,
        0xF8 => 248,
        0xF9 => 249,
        0xFA => 250,
        0xFB => 251,
        0xFC => 252,
        0xFD => 305,
        0xFE => 351,
        0xFF => 255,
        _ => 0xFFFF,
    }
}

/// The byte the index assigns to code point `code`, or 0 where it assigns
/// none.
#[verifier::opaque]
pub open spec fn spec_backward(code: u32) -> u8 {
    match code {
        129 => 0x81,
        141 => 0x8D,
        142 => 0x8E,
        143 => 0x8F,
        144 => 0x90,
        157 => 0x9D,
        158 => 0x9E,
        160 => 0xA0,
        161 => 0xA1,
        162 => 0xA2,
        163 => 0xA3,
        164 => 0xA4,
        165 => 0xA5,
        166 => 0xA6,
        167 => 0xA7,
        168 => 0xA8,
        169 => 0xA9,
        170 => 0xAA,
        171 => 0xAB,
        172 => 0xAC,
        173 => 0xAD,
        174 => 0xAE,
        175 => 0xAF,
        176 => 0xB0,
        177 => 0xB1,
        178 => 0xB2,
        179 => 0xB3,
        180 => 0xB4,
        181 => 0xB5,
        182 => 0xB6,
        183 => 0xB7,
        184 => 0xB8,
        185 => 0xB9,
        186 => 0xBA,
        187 => 0xBB,
        188 => 0xBC,
        189 => 0xBD,
        190 => 0xBE,
        191 => 0xBF,
        192 => 0xC0,
        193 => 0xC1,
        194 => 0xC2,
        195 => 0xC3,
        196 => 0xC4,
        197 => 0xC5,
        198 => 0xC6,
        199 => 0xC7,
        200 => 0xC8,
        201 => 0xC9,
        202 => 0xCA,
        203 => 0xCB,
        204 => 0xCC,
        205 => 0xCD,
        206 => 0xCE,
        207 => 0xCF,
        209 => 0xD1,
        210 => 0xD2,
        211 => 0xD3,
        212 => 0xD4,
        213 => 0xD5,
        214 => 0xD6,
        215 => 0xD7,
        216 => 0xD8,
        217 => 0xD9,
        218 => 0xDA,
        219 => 0xDB,
        220 => 0xDC,
        223 => 0xDF,
        224 => 0xE0,
        225 => 0xE1,
        226 => 0xE2,
        227 => 0xE3,
        228 => 0xE4,
        229 => 0xE5,
        230 => 0xE6,
        231 => 0xE7,
        232 => 0xE8,
        233 => 0xE9,
        234 => 0xEA,
        235 => 0xEB,
        236 => 0xEC,
        237 => 0xED,
        238 => 0xEE,
        239 => 0xEF,
        241 => 0xF1,
        242 => 0xF2,
        243 => 0xF3,
        244 => 0xF4,
        245 => 0xF5,
        246 => 0xF6,
        247 => 0xF7,
        248 => 0xF8,
        249 => 0xF9,
        250 => 0xFA,
        251 => 0xFB,
        252 => 0xFC,
        255 => 0xFF,
        286 => 0xD0,
        287 => 0xF0,
        304 => 0xDD,
        305 => 0xFD,
        338 => 0x8C,
        339 => 0x9C,
        350 => 0xDE,
        351 => 0xFE,
        352 => 0x8A,
        353 => 0x9A,
        376 => 0x9F,
        402 => 0x83,
        710 => 0x88,
        732 => 0x98,
        8211 => 0x96,
        8212 => 0x97,
        8216 => 0x91,
        8217 => 0x92,
        8218 => 0x82,
        8220 => 0x93,
        8221 => 0x94,
        8222 => 0x84,
        8224 => 0x86,
        8225 => 0x87,
        8226 => 0x95,
        8230 => 0x85,
        8240 => 0x89,
        8249 => 0x8B,
        8250 => 0x9B,
        8364 => 0x80,
        8482 => 0x99,
        _ => 0,
    }
}

/// Returns the index code point for pointer `code` in this index.
pub fn forward(code: u8) -> (r: u16)
    requires
        code >= 0x80,
    ensures
        r == spec_forward(code),
        r == 0xFFFF || r < 0xD800,
{
    proof {
        reveal(spec_forward);
    }
    match code {
        0x80 => 8364,
        0x81 => 129,
        0x82 => 8218,
        0x83 => 402,
        0x84 => 8222,
        0x85 => 8230,
        0x86 => 8224,
        0x87 => 8225,
        0x88 => 710,
        0x89 => 8240,
        0x8A => 352,
        0x8B => 8249,
        0x8C => 338,
        0x8D => 141,
        0x8E => 142,
        0x8F => 143,
        0x90 => 144,
        0x91 => 8216,
        0x92 => 8217,
        0x93 => 8220,
        0x94 => 8221,
        0x95 => 8226,
        0x96 => 8211,
        0x97 => 8212,
        0x98 => 732,
        0x99 => 8482,
        0x9A => 353,
        0x9B => 8250,
        0x9C => 339,
        0x9D => 157,
        0x9E => 158,
        0x9F => 376,
        0xA0 => 160,
        0xA1 => 161,
        0xA2 => 162,
        0xA3 => 163,
        0xA4 => 164,
        0xA5 => 165,
        0xA6 => 166,
        0xA7 => 167,
        0xA8 => 168,
        0xA9 => 169,
        0xAA => 170,
        0xAB => 171,
        0xAC => 172,
        0xAD => 173,
        0xAE => 174,
        0xAF => 175,
        0xB0 => 176,
        0xB1 => 177,
        0xB2 => 178,
        0xB3 => 179,
        0xB4 => 180,
        0xB5 => 181,
        0xB6 => 182,
        0xB7 => 183,
        0xB8 => 184,
        0xB9 => 185,
        0xBA => 186,
        0xBB => 187,
        0xBC => 188,
        0xBD => 189,
        0xBE => 190,
        0xBF => 191,
        0xC0 => 192,
        0xC1 => 193,
        0xC2 => 194,
        0xC3 => 195,
        0xC4 => 196,
        0xC5 => 197,
        0xC6 => 198,
        0xC7 => 199,
        0xC8 => 200,
        0xC9 => 201,
        0xCA => 202,
        0xCB => 203,
        0xCC => 204,
        0xCD => 205,
        0xCE => 206,
        0xCF => 207,
        0xD0 => 286,
        0xD1 => 209,
        0xD2 => 210,
        0xD3 => 211,
        0xD4 => 212,
        0xD5 => 213,
        0xD6 => 214,
        0xD7 => 215,
        0xD8 => 216,
        0xD9 => 217,
        0xDA => 218,
        0xDB => 219,
        0xDC => 220,
        0xDD => 304,
        0xDE => 350,
        0xDF => 223,
        0xE0 => 224,
        0xE1 => 225,
        0xE2 => 226,
        0xE3 => 227,
        0xE4 => 228,
        0xE5 => 229,
        0xE6 => 230,
        0xE7 => 231,
        0xE8 => 232,
        0xE9 => 233,
        0xEA => 234,
        0xEB => 235,
        0xEC => 236,
        0xED => 237,
        0xEE => 238,
        0xEF => 239,
        0xF0 => 287,
        0xF1 => 241,
        0xF2 => 242,
        0xF3 => 243,
        0xF4 => 244,
        0xF5 => 245,
        0xF6 => 246,
        0xF7 => 247,
        0xF8 => 248,
        0xF9 => 249,
        0xFA => 250,
        0xFB => 251,
        0xFC => 252,
        0xFD => 305,
        0xFE => 351,
        0xFF => 255,
        _ => 0xFFFF,
    }
}

/// Returns the index pointer for code point `code` in this index.
pub fn backward(code: u32) -> (r: u8)
    ensures
        r == spec_backward(code),
{
    proof {
        reveal(spec_backward);
    }
    match code {
        129 => 0x81,
        141 => 0x8D,
        142 => 0x8E,
        143 => 0x8F,
        144 => 0x90,
        157 => 0x9D,
        158 => 0x9E,
        160 => 0xA0,
        161 => 0xA1,
        162 => 0xA2,
        163 => 0xA3,
        164 => 0xA4,
        165 => 0xA5,
        166 => 0xA6,
        167 => 0xA7,
        168 => 0xA8,
        169 => 0xA9,
        170 => 0xAA,
        171 => 0xAB,
        172 => 0xAC,
        173 => 0xAD,
        174 => 0xAE,
        175 => 0xAF,
        176 => 0xB0,
        177 => 0xB1,
        178 => 0xB2,
        179 => 0xB3,
        180 => 0xB4,
        181 => 0xB5,
        182 => 0xB6,
        183 => 0xB7,
        184 => 0xB8,
        185 => 0xB9,
        186 => 0xBA,
        187 => 0xBB,
        188 => 0xBC,
        189 => 0xBD,
        190 => 0xBE,
        191 => 0xBF,
        192 => 0xC0,
        193 => 0xC1,
        194 => 0xC2,
        195 => 0xC3,
        196 => 0xC4,
        197 => 0xC5,
        198 => 0xC6,
        199 => 0xC7,
        200 => 0xC8,
        201 => 0xC9,
        202 => 0xCA,
        203 => 0xCB,
        204 => 0xCC,
        205 => 0xCD,
        206 => 0xCE,
        207 => 0xCF,
        209 => 0xD1,
        210 => 0xD2,
        211 => 0xD3,
        212 => 0xD4,
        213 => 0xD5,
        214 => 0xD6,
        215 => 0xD7,
        216 => 0xD8,
        217 => 0xD9,
        218 => 0xDA,
        219 => 0xDB,
        220 => 0xDC,
        223 => 0xDF,
        224 => 0xE0,
        225 => 0xE1,
        226 => 0xE2,
        227 => 0xE3,
        228 => 0xE4,
        229 => 0xE5,
        230 => 0xE6,
        231 => 0xE7,
        232 => 0xE8,
        233 => 0xE9,
        234 => 0xEA,
        235 => 0xEB,
        236 => 0xEC,
        237 => 0xED,
        238 => 0xEE,
        239 => 0xEF,
        241 => 0xF1,
        242 => 0xF2,
        243 => 0xF3,
        244 => 0xF4,
        245 => 0xF5,
        246 => 0xF6,
        247 => 0xF7,
        248 => 0xF8,
        249 => 0xF9,
        250 => 0xFA,
        251 => 0xFB,
        252 => 0xFC,
        255 => 0xFF,
        286 => 0xD0,
        287 => 0xF0,
        304 => 0xDD,
        305 => 0xFD,
        338 => 0x8C,
        339 => 0x9C,
        350 => 0xDE,
        351 => 0xFE,
        352 => 0x8A,
        353 => 0x9A,
        376 => 0x9F,
        402 => 0x83,
        710 => 0x88,
        732 => 0x98,
        8211 => 0x96,
        8212 => 0x97,
        8216 => 0x91,
        8217 => 0x92,
        8218 => 0x82,
        8220 => 0x93,
        8221 => 0x94,
        8222 => 0x84,
        8224 => 0x86,
        8225 => 0x87,
        8226 => 0x95,
        8230 => 0x85,
        8240 => 0x89,
        8249 => 0x8B,
        8250 => 0x9B,
        8364 => 0x80,
        8482 => 0x99,
        _ => 0,
    }
}


/// The two tables are inverse: every code point the backward table maps
/// goes back to itself through the forward table.
pub proof fn lemma_tables_inverse(code: u32)
    ensures
        spec_backward(code) != 0 ==> spec_backward(code) >= 0x80 && code < 0xD800
            && spec_forward(spec_backward(code)) == code,
{
    reveal(spec_forward);
    reveal(spec_backward);
}

} // verus!
