//! Multiplication tables over GF(2^8)

use vstd::prelude::*;

use super::cases::lemma_u8_cases;

verus! {

/// Multiplication by `x` (that is, by 2) in GF(2^8), reduced modulo
/// the field polynomial x^8 + x^4 + x^3 + x + 1.
#[verifier::opaque]
pub open spec fn xtime(b: u8) -> u8 {
    if b & 0x80u8 == 0u8 {
        (b << 1u8) as u8
    } else {
        ((b << 1u8) ^ 0x1bu8) as u8
    }
}

/// Product of `a` and `b` in GF(2^8): `a` is doubled once for each bit of
/// `b`, and the doublings selected by the set bits are added (XOR).
pub open spec fn gf_mul(a: u8, b: u8) -> u8
    decreases b,
{
    if b == 0 {
        0
    } else {
        let rest = gf_mul(xtime(a), (b / 2) as u8);
        if b % 2 == 1 {
            a ^ rest
        } else {
            rest
        }
    }
}

/// Products by 2 in GF(2^8)
pub const GMUL2: [u8; 256] = [
    0x00, 0x02, 0x04, 0x06, 0x08, 0x0a, 0x0c, 0x0e, 0x10, 0x12, 0x14, 0x16, 0x18, 0x1a, 0x1c, 0x1e,
    0x20, 0x22, 0x24, 0x26, 0x28, 0x2a, 0x2c, 0x2e, 0x30, 0x32, 0x34, 0x36, 0x38, 0x3a, 0x3c, 0x3e,
    0x40, 0x42, 0x44, 0x46, 0x48, 0x4a, 0x4c, 0x4e, 0x50, 0x52, 0x54, 0x56, 0x58, 0x5a, 0x5c, 0x5e,
    0x60, 0x62, 0x64, 0x66, 0x68, 0x6a, 0x6c, 0x6e, 0x70, 0x72, 0x74, 0x76, 0x78, 0x7a, 0x7c, 0x7e,
    0x80, 0x82, 0x84, 0x86, 0x88, 0x8a, 0x8c, 0x8e, 0x90, 0x92, 0x94, 0x96, 0x98, 0x9a, 0x9c, 0x9e,
    0xa0, 0xa2, 0xa4, 0xa6, 0xa8, 0xaa, 0xac, 0xae, 0xb0, 0xb2, 0xb4, 0xb6, 0xb8, 0xba, 0xbc, 0xbe,
    0xc0, 0xc2, 0xc4, 0xc6, 0xc8, 0xca, 0xcc, 0xce, 0xd0, 0xd2, 0xd4, 0xd6, 0xd8, 0xda, 0xdc, 0xde,
    0xe0, 0xe2, 0xe4, 0xe6, 0xe8, 0xea, 0xec, 0xee, 0xf0, 0xf2, 0xf4, 0xf6, 0xf8, 0xfa, 0xfc, 0xfe,
    0x1b, 0x19, 0x1f, 0x1d, 0x13, 0x11, 0x17, 0x15, 0x0b, 0x09, 0x0f, 0x0d, 0x03, 0x01, 0x07, 0x05,
    0x3b, 0x39, 0x3f, 0x3d, 0x33, 0x31, 0x37, 0x35, 0x2b, 0x29, 0x2f, 0x2d, 0x23, 0x21, 0x27, 0x25,
    0x5b, 0x59, 0x5f, 0x5d, 0x53, 0x51, 0x57, 0x55, 0x4b, 0x49, 0x4f, 0x4d, 0x43, 0x41, 0x47, 0x45,
    0x7b, 0x79, 0x7f, 0x7d, 0x73, 0x71, 0x77, 0x75, 0x6b, 0x69, 0x6f, 0x6d, 0x63, 0x61, 0x67, 0x65,
    0x9b, 0x99, 0x9f, 0x9d, 0x93, 0x91, 0x97, 0x95, 0x8b, 0x89, 0x8f, 0x8d, 0x83, 0x81, 0x87, 0x85,
    0xbb, 0xb9, 0xbf, 0xbd, 0xb3, 0xb1, 0xb7, 0xb5, 0xab, 0xa9, 0xaf, 0xad, 0xa3, 0xa1, 0xa7, 0xa5,
    0xdb, 0xd9, 0xdf, 0xdd, 0xd3, 0xd1, 0xd7, 0xd5, 0xcb, 0xc9, 0xcf, 0xcd, 0xc3, 0xc1, 0xc7, 0xc5,
    0xfb, 0xf9, 0xff, 0xfd, 0xf3, 0xf1, 0xf7, 0xf5, 0xeb, 0xe9, 0xef, 0xed, 0xe3, 0xe1, 0xe7, 0xe5,
];

/// Products by 3 in GF(2^8)
pub const GMUL3: [u8; 256] = [
    0x00, 0x03, 0x06, 0x05, 0x0c, 0x0f, 0x0a, 0x09, 0x18, 0x1b, 0x1e, 0x1d, 0x14, 0x17, 0x12, 0x11,
    0x30, 0x33, 0x36, 0x35, 0x3c, 0x3f, 0x3a, 0x39, 0x28, 0x2b, 0x2e, 0x2d, 0x24, 0x27, 0x22, 0x21,
    0x60, 0x63, 0x66, 0x65, 0x6c, 0x6f, 0x6a, 0x69, 0x78, 0x7b, 0x7e, 0x7d, 0x74, 0x77, 0x72, 0x71,
    0x50, 0x53, 0x56, 0x55, 0x5c, 0x5f, 0x5a, 0x59, 0x48, 0x4b, 0x4e, 0x4d, 0x44, 0x47, 0x42, 0x41,
    0xc0, 0xc3, 0xc6, 0xc5, 0xcc, 0xcf, 0xca, 0xc9, 0xd8, 0xdb, 0xde, 0xdd, 0xd4, 0xd7, 0xd2, 0xd1,
    0xf0, 0xf3, 0xf6, 0xf5, 0xfc, 0xff, 0xfa, 0xf9, 0xe8, 0xeb, 0xee, 0xed, 0xe4, 0xe7, 0xe2, 0xe1,
    0xa0, 0xa3, 0xa6, 0xa5, 0xac, 0xaf, 0xaa, 0xa9, 0xb8, 0xbb, 0xbe, 0xbd, 0xb4, 0xb7, 0xb2, 0xb1,
    0x90, 0x93, 0x96, 0x95, 0x9c, 0x9f, 0x9a, 0x99, 0x88, 0x8b, 0x8e, 0x8d, 0x84, 0x87, 0x82, 0x81,
    0x9b, 0x98, 0x9d, 0x9e, 0x97, 0x94, 0x91, 0x92, 0x83, 0x80, 0x85, 0x86, 0x8f, 0x8c, 0x89, 0x8a,
    0xab, 0xa8, 0xad, 0xae, 0xa7, 0xa4, 0xa1, 0xa2, 0xb3, 0xb0, 0xb5, 0xb6, 0xbf, 0xbc, 0xb9, 0xba,
    0xfb, 0xf8, 0xfd, 0xfe, 0xf7, 0xf4, 0xf1, 0xf2, 0xe3, 0xe0, 0xe5, 0xe6, 0xef, 0xec, 0xe9, 0xea,
    0xcb, 0xc8, 0xcd, 0xce, 0xc7, 0xc4, 0xc1, 0xc2, 0xd3, 0xd0, 0xd5, 0xd6, 0xdf, 0xdc, 0xd9, 0xda,
    0x5b, 0x58, 0x5d, 0x5e, 0x57, 0x54, 0x51, 0x52, 0x43, 0x40, 0x45, 0x46, 0x4f, 0x4c, 0x49, 0x4a,
    0x6b, 0x68, 0x6d, 0x6e, 0x67, 0x64, 0x61, 0x62, 0x73, 0x70, 0x75, 0x76, 0x7f, 0x7c, 0x79, 0x7a,
    0x3b, 0x38, 0x3d, 0x3e, 0x37, 0x34, 0x31, 0x32, 0x23, 0x20, 0x25, 0x26, 0x2f, 0x2c, 0x29, 0x2a,
    0x0b, 0x08, 0x0d, 0x0e, 0x07, 0x04, 0x01, 0x02, 0x13, 0x10, 0x15, 0x16, 0x1f, 0x1c, 0x19, 0x1a,
];

/// Products by 9 in GF(2^8)
pub const GMUL9: [u8; 256] = [
    0x00, 0x09, 0x12, 0x1b, 0x24, 0x2d, 0x36, 0x3f, 0x48, 0x41, 0x5a, 0x53, 0x6c, 0x65, 0x7e, 0x77,
    0x90, 0x99, 0x82, 0x8b, 0xb4, 0xbd, 0xa6, 0xaf, 0xd8, 0xd1, 0xca, 0xc3, 0xfc, 0xf5, 0xee, 0xe7,
    0x3b, 0x32, 0x29, 0x20, 0x1f, 0x16, 0x0d, 0x04, 0x73, 0x7a, 0x61, 0x68, 0x57, 0x5e, 0x45, 0x4c,
    0xab, 0xa2, 0xb9, 0xb0, 0x8f, 0x86, 0x9d, 0x94, 0xe3, 0xea, 0xf1, 0xf8, 0xc7, 0xce, 0xd5, 0xdc,
    0x76, 0x7f, 0x64, 0x6d, 0x52, 0x5b, 0x40, 0x49, 0x3e, 0x37, 0x2c, 0x25, 0x1a, 0x13, 0x08, 0x01,
    0xe6, 0xef, 0xf4, 0xfd, 0xc2, 0xcb, 0xd0, 0xd9, 0xae, 0xa7, 0xbc, 0xb5, 0x8a, 0x83, 0x98, 0x91,
    0x4d, 0x44, 0x5f, 0x56, 0x69, 0x60, 0x7b, 0x72, 0x05, 0x0c, 0x17, 0x1e, 0x21, 0x28, 0x33, 0x3a,
    0xdd, 0xd4, 0xcf, 0xc6, 0xf9, 0xf0, 0xeb, 0xe2, 0x95, 0x9c, 0x87, 0x8e, 0xb1, 0xb8, 0xa3, 0xaa,
    0xec, 0xe5, 0xfe, 0xf7, 0xc8, 0xc1, 0xda, 0xd3, 0xa4, 0xad, 0xb6, 0xbf, 0x80, 0x89, 0x92, 0x9b,
    0x7c, 0x75, 0x6e, 0x67, 0x58, 0x51, 0x4a, 0x43, 0x34, 0x3d, 0x26, 0x2f, 0x10, 0x19, 0x02, 0x0b,
    0xd7, 0xde, 0xc5, 0xcc, 0xf3, 0xfa, 0xe1, 0xe8, 0x9f, 0x96, 0x8d, 0x84, 0xbb, 0xb2, 0xa9, 0xa0,
    0x47, 0x4e, 0x55, 0x5c, 0x63, 0x6a, 0x71, 0x78, 0x0f, 0x06, 0x1d, 0x14, 0x2b, 0x22, 0x39, 0x30,
    0x9a, 0x93, 0x88, 0x81, 0xbe, 0xb7, 0xac, 0xa5, 0xd2, 0xdb, 0xc0, 0xc9, 0xf6, 0xff, 0xe4, 0xed,
    0x0a, 0x03, 0x18, 0x11, 0x2e, 0x27, 0x3c, 0x35, 0x42, 0x4b, 0x50, 0x59, 0x66, 0x6f, 0x74, 0x7d,
    0xa1, 0xa8, 0xb3, 0xba, 0x85, 0x8c, 0x97, 0x9e, 0xe9, 0xe0, 0xfb, 0xf2, 0xcd, 0xc4, 0xdf, 0xd6,
    0x31, 0x38, 0x23, 0x2a, 0x15, 0x1c, 0x07, 0x0e, 0x79, 0x70, 0x6b, 0x62, 0x5d, 0x54, 0x4f, 0x46,
];

/// Products by 11 in GF(2^8)
pub const GMUL11: [u8; 256] = [
    0x00, 0x0b, 0x16, 0x1d, 0x2c, 0x27, 0x3a, 0x31, 0x58, 0x53, 0x4e, 0x45, 0x74, 0x7f, 0x62, 0x69,
    0xb0, 0xbb, 0xa6, 0xad, 0x9c, 0x97, 0x8a, 0x81, 0xe8, 0xe3, 0xfe, 0xf5, 0xc4, 0xcf, 0xd2, 0xd9,
    0x7b, 0x70, 0x6d, 0x66, 0x57, 0x5c, 0x41, 0x4a, 0x23, 0x28, 0x35, 0x3e, 0x0f, 0x04, 0x19, 0x12,
    0xcb, 0xc0, 0xdd, 0xd6, 0xe7, 0xec, 0xf1, 0xfa, 0x93, 0x98, 0x85, 0x8e, 0xbf, 0xb4, 0xa9, 0xa2,
    0xf6, 0xfd, 0xe0, 0xeb, 0xda, 0xd1, 0xcc, 0xc7, 0xae, 0xa5, 0xb8, 0xb3, 0x82, 0x89, 0x94, 0x9f,
    0x46, 0x4d, 0x50, 0x5b, 0x6a, 0x61, 0x7c, 0x77, 0x1e, 0x15, 0x08, 0x03, 0x32, 0x39, 0x24, 0x2f,
    0x8d, 0x86, 0x9b, 0x90, 0xa1, 0xaa, 0xb7, 0xbc, 0xd5, 0xde, 0xc3, 0xc8, 0xf9, 0xf2, 0xef, 0xe4,
    0x3d, 0x36, 0x2b, 0x20, 0x11, 0x1a, 0x07, 0x0c, 0x65, 0x6e, 0x73, 0x78, 0x49, 0x42, 0x5f, 0x54,
    0xf7, 0xfc, 0xe1, 0xea, 0xdb, 0xd0, 0xcd, 0xc6, 0xaf, 0xa4, 0xb9, 0xb2, 0x83, 0x88, 0x95, 0x9e,
    0x47, 0x4c, 0x51, 0x5a, 0x6b, 0x60, 0x7d, 0x76, 0x1f, 0x14, 0x09, 0x02, 0x33, 0x38, 0x25, 0x2e,
    0x8c, 0x87, 0x9a, 0x91, 0xa0, 0xab, 0xb6, 0xbd, 0xd4, 0xdf, 0xc2, 0xc9, 0xf8, 0xf3, 0xee, 0xe5,
    0x3c, 0x37, 0x2a, 0x21, 0x10, 0x1b, 0x06, 0x0d, 0x64, 0x6f, 0x72, 0x79, 0x48, 0x43, 0x5e, 0x55,
    0x01, 0x0a, 0x17, 0x1c, 0x2d, 0x26, 0x3b, 0x30, 0x59, 0x52, 0x4f, 0x44, 0x75, 0x7e, 0x63, 0x68,
    0xb1, 0xba, 0xa7, 0xac, 0x9d, 0x96, 0x8b, 0x80, 0xe9, 0xe2, 0xff, 0xf4, 0xc5, 0xce, 0xd3, 0xd8,
    0x7a, 0x71, 0x6c, 0x67, 0x56, 0x5d, 0x40, 0x4b, 0x22, 0x29, 0x34, 0x3f, 0x0e, 0x05, 0x18, 0x13,
    0xca, 0xc1, 0xdc, 0xd7, 0xe6, 0xed, 0xf0, 0xfb, 0x92, 0x99, 0x84, 0x8f, 0xbe, 0xb5, 0xa8, 0xa3,
];

/// Products by 13 in GF(2^8)
pub const GMUL13: [u8; 256] = [
    0x00, 0x0d, 0x1a, 0x17, 0x34, 0x39, 0x2e, 0x23, 0x68, 0x65, 0x72, 0x7f, 0x5c, 0x51, 0x46, 0x4b,
    0xd0, 0xdd, 0xca, 0xc7, 0xe4, 0xe9, 0xfe, 0xf3, 0xb8, 0xb5, 0xa2, 0xaf, 0x8c, 0x81, 0x96, 0x9b,
    0xbb, 0xb6, 0xa1, 0xac, 0x8f, 0x82, 0x95, 0x98, 0xd3, 0xde, 0xc9, 0xc4, 0xe7, 0xea, 0xfd, 0xf0,
    0x6b, 0x66, 0x71, 0x7c, 0x5f, 0x52, 0x45, 0x48, 0x03, 0x0e, 0x19, 0x14, 0x37, 0x3a, 0x2d, 0x20,
    0x6d, 0x60, 0x77, 0x7a, 0x59, 0x54, 0x43, 0x4e, 0x05, 0x08, 0x1f, 0x12, 0x31, 0x3c, 0x2b, 0x26,
    0xbd, 0xb0, 0xa7, 0xaa, 0x89, 0x84, 0x93, 0x9e, 0xd5, 0xd8, 0xcf, 0xc2, 0xe1, 0xec, 0xfb, 0xf6,
    0xd6, 0xdb, 0xcc, 0xc1, 0xe2, 0xef, 0xf8, 0xf5, 0xbe, 0xb3, 0xa4, 0xa9, 0x8a, 0x87, 0x90, 0x9d,
    0x06, 0x0b, 0x1c, 0x11, 0x32, 0x3f, 0x28, 0x25, 0x6e, 0x63, 0x74, 0x79, 0x5a, 0x57, 0x40, 0x4d,
    0xda, 0xd7, 0xc0, 0xcd, 0xee, 0xe3, 0xf4, 0xf9, 0xb2, 0xbf, 0xa8, 0xa5, 0x86, 0x8b, 0x9c, 0x91,
    0x0a, 0x07, 0x10, 0x1d, 0x3e, 0x33, 0x24, 0x29, 0x62, 0x6f, 0x78, 0x75, 0x56, 0x5b, 0x4c, 0x41,
    0x61, 0x6c, 0x7b, 0x76, 0x55, 0x58, 0x4f, 0x42, 0x09, 0x04, 0x13, 0x1e, 0x3d, 0x30, 0x27, 0x2a,
    0xb1, 0xbc, 0xab, 0xa6, 0x85, 0x88, 0x9f, 0x92, 0xd9, 0xd4, 0xc3, 0xce, 0xed, 0xe0, 0xf7, 0xfa,
    0xb7, 0xba, 0xad, 0xa0, 0x83, 0x8e, 0x99, 0x94, 0xdf, 0xd2, 0xc5, 0xc8, 0xeb, 0xe6, 0xf1, 0xfc,
    0x67, 0x6a, 0x7d, 0x70, 0x53, 0x5e, 0x49, 0x44, 0x0f, 0x02, 0x15, 0x18, 0x3b, 0x36, 0x21, 0x2c,
    0x0c, 0x01, 0x16, 0x1b, 0x38, 0x35, 0x22, 0x2f, 0x64, 0x69, 0x7e, 0x73, 0x50, 0x5d, 0x4a, 0x47,
    0xdc, 0xd1, 0xc6, 0xcb, 0xe8, 0xe5, 0xf2, 0xff, 0xb4, 0xb9, 0xae, 0xa3, 0x80, 0x8d, 0x9a, 0x97,
];

/// Products by 14 in GF(2^8)
pub const GMUL14: [u8; 256] = [
    0x00, 0x0e, 0x1c, 0x12, 0x38, 0x36, 0x24, 0x2a, 0x70, 0x7e, 0x6c, 0x62, 0x48, 0x46, 0x54, 0x5a,
    0xe0, 0xee, 0xfc, 0xf2, 0xd8, 0xd6, 0xc4, 0xca, 0x90, 0x9e, 0x8c, 0x82, 0xa8, 0xa6, 0xb4, 0xba,
    0xdb, 0xd5, 0xc7, 0xc9, 0xe3, 0xed, 0xff, 0xf1, 0xab, 0xa5, 0xb7, 0xb9, 0x93, 0x9d, 0x8f, 0x81,
    0x3b, 0x35, 0x27, 0x29, 0x03, 0x0d, 0x1f, 0x11, 0x4b, 0x45, 0x57, 0x59, 0x73, 0x7d, 0x6f, 0x61,
    0xad, 0xa3, 0xb1, 0xbf, 0x95, 0x9b, 0x89, 0x87, 0xdd, 0xd3, 0xc1, 0xcf, 0xe5, 0xeb, 0xf9, 0xf7,
    0x4d, 0x43, 0x51, 0x5f, 0x75, 0x7b, 0x69, 0x67, 0x3d, 0x33, 0x21, 0x2f, 0x05, 0x0b, 0x19, 0x17,
    0x76, 0x78, 0x6a, 0x64, 0x4e, 0x40, 0x52, 0x5c, 0x06, 0x08, 0x1a, 0x14, 0x3e, 0x30, 0x22, 0x2c,
    0x96, 0x98, 0x8a, 0x84, 0xae, 0xa0, 0xb2, 0xbc, 0xe6, 0xe8, 0xfa, 0xf4, 0xde, 0xd0, 0xc2, 0xcc,
    0x41, 0x4f, 0x5d, 0x53, 0x79, 0x77, 0x65, 0x6b, 0x31, 0x3f, 0x2d, 0x23, 0x09, 0x07, 0x15, 0x1b,
    0xa1, 0xaf, 0xbd, 0xb3, 0x99, 0x97, 0x85, 0x8b, 0xd1, 0xdf, 0xcd, 0xc3, 0xe9, 0xe7, 0xf5, 0xfb,
    0x9a, 0x94, 0x86, 0x88, 0xa2, 0xac, 0xbe, 0xb0, 0xea, 0xe4, 0xf6, 0xf8, 0xd2, 0xdc, 0xce, 0xc0,
    0x7a, 0x74, 0x66, 0x68, 0x42, 0x4c, 0x5e, 0x50, 0x0a, 0x04, 0x16, 0x18, 0x32, 0x3c, 0x2e, 0x20,
    0xec, 0xe2, 0xf0, 0xfe, 0xd4, 0xda, 0xc8, 0xc6, 0x9c, 0x92, 0x80, 0x8e, 0xa4, 0xaa, 0xb8, 0xb6,
    0x0c, 0x02, 0x10, 0x1e, 0x34, 0x3a, 0x28, 0x26, 0x7c, 0x72, 0x60, 0x6e, 0x44, 0x4a, 0x58, 0x56,
    0x37, 0x39, 0x2b, 0x25, 0x0f, 0x01, 0x13, 0x1d, 0x47, 0x49, 0x5b, 0x55, 0x7f, 0x71, 0x63, 0x6d,
    0xd7, 0xd9, 0xcb, 0xc5, 0xef, 0xe1, 0xf3, 0xfd, 0xa7, 0xa9, 0xbb, 0xb5, 0x9f, 0x91, 0x83, 0x8d,
];

/// Adding zero in GF(2^8) changes nothing.
proof fn lemma_xor_zero(x: u8)
    ensures
        x ^ 0u8 == x,
        0u8 ^ x == x,
{
    assert(x ^ 0u8 == x && 0u8 ^ x == x) by (bit_vector);
}

/// Products by 2, written with doublings.
pub proof fn lemma_gf_mul_2(x: u8)
    ensures
        gf_mul(x, 2) == xtime(x),
{
    reveal_with_fuel(gf_mul, 5);
    let x2 = xtime(x);
    let x4 = xtime(x2);
    let x8 = xtime(x4);
    lemma_xor_zero(x);
    lemma_xor_zero(x2);
    lemma_xor_zero(x4);
    lemma_xor_zero(x8);
}

/// The entries of the table of products by 2, computed with doublings.
proof fn lemma_gmul2_values()
    ensures
        xtime(0u8) == 0u8 &&
        xtime(1u8) == 2u8 &&
        xtime(2u8) == 4u8 &&
        xtime(3u8) == 6u8 &&
        xtime(4u8) == 8u8 &&
        xtime(5u8) == 10u8 &&
        xtime(6u8) == 12u8 &&
        xtime(7u8) == 14u8 &&
        xtime(8u8) == 16u8 &&
        xtime(9u8) == 18u8 &&
        xtime(10u8) == 20u8 &&
        xtime(11u8) == 22u8 &&
        xtime(12u8) == 24u8 &&
        xtime(13u8) == 26u8 &&
        xtime(14u8) == 28u8 &&
        xtime(15u8) == 30u8 &&
        xtime(16u8) == 32u8 &&
        xtime(17u8) == 34u8 &&
        xtime(18u8) == 36u8 &&
        xtime(19u8) == 38u8 &&
        xtime(20u8) == 40u8 &&
        xtime(21u8) == 42u8 &&
        xtime(22u8) == 44u8 &&
        xtime(23u8) == 46u8 &&
        xtime(24u8) == 48u8 &&
        xtime(25u8) == 50u8 &&
        xtime(26u8) == 52u8 &&
        xtime(27u8) == 54u8 &&
        xtime(28u8) == 56u8 &&
        xtime(29u8) == 58u8 &&
        xtime(30u8) == 60u8 &&
        xtime(31u8) == 62u8 &&
        xtime(32u8) == 64u8 &&
        xtime(33u8) == 66u8 &&
        xtime(34u8) == 68u8 &&
        xtime(35u8) == 70u8 &&
        xtime(36u8) == 72u8 &&
        xtime(37u8) == 74u8 &&
        xtime(38u8) == 76u8 &&
        xtime(39u8) == 78u8 &&
        xtime(40u8) == 80u8 &&
        xtime(41u8) == 82u8 &&
        xtime(42u8) == 84u8 &&
        xtime(43u8) == 86u8 &&
        xtime(44u8) == 88u8 &&
        xtime(45u8) == 90u8 &&
        xtime(46u8) == 92u8 &&
        xtime(47u8) == 94u8 &&
        xtime(48u8) == 96u8 &&
        xtime(49u8) == 98u8 &&
        xtime(50u8) == 100u8 &&
        xtime(51u8) == 102u8 &&
        xtime(52u8) == 104u8 &&
        xtime(53u8) == 106u8 &&
        xtime(54u8) == 108u8 &&
        xtime(55u8) == 110u8 &&
        xtime(56u8) == 112u8 &&
        xtime(57u8) == 114u8 &&
        xtime(58u8) == 116u8 &&
        xtime(59u8) == 118u8 &&
        xtime(60u8) == 120u8 &&
        xtime(61u8) == 122u8 &&
        xtime(62u8) == 124u8 &&
        xtime(63u8) == 126u8 &&
        xtime(64u8) == 128u8 &&
        xtime(65u8) == 130u8 &&
        xtime(66u8) == 132u8 &&
        xtime(67u8) == 134u8 &&
        xtime(68u8) == 136u8 &&
        xtime(69u8) == 138u8 &&
        xtime(70u8) == 140u8 &&
        xtime(71u8) == 142u8 &&
        xtime(72u8) == 144u8 &&
        xtime(73u8) == 146u8 &&
        xtime(74u8) == 148u8 &&
        xtime(75u8) == 150u8 &&
        xtime(76u8) == 152u8 &&
        xtime(77u8) == 154u8 &&
        xtime(78u8) == 156u8 &&
        xtime(79u8) == 158u8 &&
        xtime(80u8) == 160u8 &&
        xtime(81u8) == 162u8 &&
        xtime(82u8) == 164u8 &&
        xtime(83u8) == 166u8 &&
        xtime(84u8) == 168u8 &&
        xtime(85u8) == 170u8 &&
        xtime(86u8) == 172u8 &&
        xtime(87u8) == 174u8 &&
        xtime(88u8) == 176u8 &&
        xtime(89u8) == 178u8 &&
        xtime(90u8) == 180u8 &&
        xtime(91u8) == 182u8 &&
        xtime(92u8) == 184u8 &&
        xtime(93u8) == 186u8 &&
        xtime(94u8) == 188u8 &&
        xtime(95u8) == 190u8 &&
        xtime(96u8) == 192u8 &&
        xtime(97u8) == 194u8 &&
        xtime(98u8) == 196u8 &&
        xtime(99u8) == 198u8 &&
        xtime(100u8) == 200u8 &&
        xtime(101u8) == 202u8 &&
        xtime(102u8) == 204u8 &&
        xtime(103u8) == 206u8 &&
        xtime(104u8) == 208u8 &&
        xtime(105u8) == 210u8 &&
        xtime(106u8) == 212u8 &&
        xtime(107u8) == 214u8 &&
        xtime(108u8) == 216u8 &&
        xtime(109u8) == 218u8 &&
        xtime(110u8) == 220u8 &&
        xtime(111u8) == 222u8 &&
        xtime(112u8) == 224u8 &&
        xtime(113u8) == 226u8 &&
        xtime(114u8) == 228u8 &&
        xtime(115u8) == 230u8 &&
        xtime(116u8) == 232u8 &&
        xtime(117u8) == 234u8 &&
        xtime(118u8) == 236u8 &&
        xtime(119u8) == 238u8 &&
        xtime(120u8) == 240u8 &&
        xtime(121u8) == 242u8 &&
        xtime(122u8) == 244u8 &&
        xtime(123u8) == 246u8 &&
        xtime(124u8) == 248u8 &&
        xtime(125u8) == 250u8 &&
        xtime(126u8) == 252u8 &&
        xtime(127u8) == 254u8 &&
        xtime(128u8) == 27u8 &&
        xtime(129u8) == 25u8 &&
        xtime(130u8) == 31u8 &&
        xtime(131u8) == 29u8 &&
        xtime(132u8) == 19u8 &&
        xtime(133u8) == 17u8 &&
        xtime(134u8) == 23u8 &&
        xtime(135u8) == 21u8 &&
        xtime(136u8) == 11u8 &&
        xtime(137u8) == 9u8 &&
        xtime(138u8) == 15u8 &&
        xtime(139u8) == 13u8 &&
        xtime(140u8) == 3u8 &&
        xtime(141u8) == 1u8 &&
        xtime(142u8) == 7u8 &&
        xtime(143u8) == 5u8 &&
        xtime(144u8) == 59u8 &&
        xtime(145u8) == 57u8 &&
        xtime(146u8) == 63u8 &&
        xtime(147u8) == 61u8 &&
        xtime(148u8) == 51u8 &&
        xtime(149u8) == 49u8 &&
        xtime(150u8) == 55u8 &&
        xtime(151u8) == 53u8 &&
        xtime(152u8) == 43u8 &&
        xtime(153u8) == 41u8 &&
        xtime(154u8) == 47u8 &&
        xtime(155u8) == 45u8 &&
        xtime(156u8) == 35u8 &&
        xtime(157u8) == 33u8 &&
        xtime(158u8) == 39u8 &&
        xtime(159u8) == 37u8 &&
        xtime(160u8) == 91u8 &&
        xtime(161u8) == 89u8 &&
        xtime(162u8) == 95u8 &&
        xtime(163u8) == 93u8 &&
        xtime(164u8) == 83u8 &&
        xtime(165u8) == 81u8 &&
        xtime(166u8) == 87u8 &&
        xtime(167u8) == 85u8 &&
        xtime(168u8) == 75u8 &&
        xtime(169u8) == 73u8 &&
        xtime(170u8) == 79u8 &&
        xtime(171u8) == 77u8 &&
        xtime(172u8) == 67u8 &&
        xtime(173u8) == 65u8 &&
        xtime(174u8) == 71u8 &&
        xtime(175u8) == 69u8 &&
        xtime(176u8) == 123u8 &&
        xtime(177u8) == 121u8 &&
        xtime(178u8) == 127u8 &&
        xtime(179u8) == 125u8 &&
        xtime(180u8) == 115u8 &&
        xtime(181u8) == 113u8 &&
        xtime(182u8) == 119u8 &&
        xtime(183u8) == 117u8 &&
        xtime(184u8) == 107u8 &&
        xtime(185u8) == 105u8 &&
        xtime(186u8) == 111u8 &&
        xtime(187u8) == 109u8 &&
        xtime(188u8) == 99u8 &&
        xtime(189u8) == 97u8 &&
        xtime(190u8) == 103u8 &&
        xtime(191u8) == 101u8 &&
        xtime(192u8) == 155u8 &&
        xtime(193u8) == 153u8 &&
        xtime(194u8) == 159u8 &&
        xtime(195u8) == 157u8 &&
        xtime(196u8) == 147u8 &&
        xtime(197u8) == 145u8 &&
        xtime(198u8) == 151u8 &&
        xtime(199u8) == 149u8 &&
        xtime(200u8) == 139u8 &&
        xtime(201u8) == 137u8 &&
        xtime(202u8) == 143u8 &&
        xtime(203u8) == 141u8 &&
        xtime(204u8) == 131u8 &&
        xtime(205u8) == 129u8 &&
        xtime(206u8) == 135u8 &&
        xtime(207u8) == 133u8 &&
        xtime(208u8) == 187u8 &&
        xtime(209u8) == 185u8 &&
        xtime(210u8) == 191u8 &&
        xtime(211u8) == 189u8 &&
        xtime(212u8) == 179u8 &&
        xtime(213u8) == 177u8 &&
        xtime(214u8) == 183u8 &&
        xtime(215u8) == 181u8 &&
        xtime(216u8) == 171u8 &&
        xtime(217u8) == 169u8 &&
        xtime(218u8) == 175u8 &&
        xtime(219u8) == 173u8 &&
        xtime(220u8) == 163u8 &&
        xtime(221u8) == 161u8 &&
        xtime(222u8) == 167u8 &&
        xtime(223u8) == 165u8 &&
        xtime(224u8) == 219u8 &&
        xtime(225u8) == 217u8 &&
        xtime(226u8) == 223u8 &&
        xtime(227u8) == 221u8 &&
        xtime(228u8) == 211u8 &&
        xtime(229u8) == 209u8 &&
        xtime(230u8) == 215u8 &&
        xtime(231u8) == 213u8 &&
        xtime(232u8) == 203u8 &&
        xtime(233u8) == 201u8 &&
        xtime(234u8) == 207u8 &&
        xtime(235u8) == 205u8 &&
        xtime(236u8) == 195u8 &&
        xtime(237u8) == 193u8 &&
        xtime(238u8) == 199u8 &&
        xtime(239u8) == 197u8 &&
        xtime(240u8) == 251u8 &&
        xtime(241u8) == 249u8 &&
        xtime(242u8) == 255u8 &&
        xtime(243u8) == 253u8 &&
        xtime(244u8) == 243u8 &&
        xtime(245u8) == 241u8 &&
        xtime(246u8) == 247u8 &&
        xtime(247u8) == 245u8 &&
        xtime(248u8) == 235u8 &&
        xtime(249u8) == 233u8 &&
        xtime(250u8) == 239u8 &&
        xtime(251u8) == 237u8 &&
        xtime(252u8) == 227u8 &&
        xtime(253u8) == 225u8 &&
        xtime(254u8) == 231u8 &&
        xtime(255u8) == 229u8,
{
    reveal(xtime);
    assert(
        xtime(0u8) == 0u8 &&
        xtime(1u8) == 2u8 &&
        xtime(2u8) == 4u8 &&
        xtime(3u8) == 6u8 &&
        xtime(4u8) == 8u8 &&
        xtime(5u8) == 10u8 &&
        xtime(6u8) == 12u8 &&
        xtime(7u8) == 14u8 &&
        xtime(8u8) == 16u8 &&
        xtime(9u8) == 18u8 &&
        xtime(10u8) == 20u8 &&
        xtime(11u8) == 22u8 &&
        xtime(12u8) == 24u8 &&
        xtime(13u8) == 26u8 &&
        xtime(14u8) == 28u8 &&
        xtime(15u8) == 30u8 &&
        xtime(16u8) == 32u8 &&
        xtime(17u8) == 34u8 &&
        xtime(18u8) == 36u8 &&
        xtime(19u8) == 38u8 &&
        xtime(20u8) == 40u8 &&
        xtime(21u8) == 42u8 &&
        xtime(22u8) == 44u8 &&
        xtime(23u8) == 46u8 &&
        xtime(24u8) == 48u8 &&
        xtime(25u8) == 50u8 &&
        xtime(26u8) == 52u8 &&
        xtime(27u8) == 54u8 &&
        xtime(28u8) == 56u8 &&
        xtime(29u8) == 58u8 &&
        xtime(30u8) == 60u8 &&
        xtime(31u8) == 62u8 &&
        xtime(32u8) == 64u8 &&
        xtime(33u8) == 66u8 &&
        xtime(34u8) == 68u8 &&
        xtime(35u8) == 70u8 &&
        xtime(36u8) == 72u8 &&
        xtime(37u8) == 74u8 &&
        xtime(38u8) == 76u8 &&
        xtime(39u8) == 78u8 &&
        xtime(40u8) == 80u8 &&
        xtime(41u8) == 82u8 &&
        xtime(42u8) == 84u8 &&
        xtime(43u8) == 86u8 &&
        xtime(44u8) == 88u8 &&
        xtime(45u8) == 90u8 &&
        xtime(46u8) == 92u8 &&
        xtime(47u8) == 94u8 &&
        xtime(48u8) == 96u8 &&
        xtime(49u8) == 98u8 &&
        xtime(50u8) == 100u8 &&
        xtime(51u8) == 102u8 &&
        xtime(52u8) == 104u8 &&
        xtime(53u8) == 106u8 &&
        xtime(54u8) == 108u8 &&
        xtime(55u8) == 110u8 &&
        xtime(56u8) == 112u8 &&
        xtime(57u8) == 114u8 &&
        xtime(58u8) == 116u8 &&
        xtime(59u8) == 118u8 &&
        xtime(60u8) == 120u8 &&
        xtime(61u8) == 122u8 &&
        xtime(62u8) == 124u8 &&
        xtime(63u8) == 126u8 &&
        xtime(64u8) == 128u8 &&
        xtime(65u8) == 130u8 &&
        xtime(66u8) == 132u8 &&
        xtime(67u8) == 134u8 &&
        xtime(68u8) == 136u8 &&
        xtime(69u8) == 138u8 &&
        xtime(70u8) == 140u8 &&
        xtime(71u8) == 142u8 &&
        xtime(72u8) == 144u8 &&
        xtime(73u8) == 146u8 &&
        xtime(74u8) == 148u8 &&
        xtime(75u8) == 150u8 &&
        xtime(76u8) == 152u8 &&
        xtime(77u8) == 154u8 &&
        xtime(78u8) == 156u8 &&
        xtime(79u8) == 158u8 &&
        xtime(80u8) == 160u8 &&
        xtime(81u8) == 162u8 &&
        xtime(82u8) == 164u8 &&
        xtime(83u8) == 166u8 &&
        xtime(84u8) == 168u8 &&
        xtime(85u8) == 170u8 &&
        xtime(86u8) == 172u8 &&
        xtime(87u8) == 174u8 &&
        xtime(88u8) == 176u8 &&
        xtime(89u8) == 178u8 &&
        xtime(90u8) == 180u8 &&
        xtime(91u8) == 182u8 &&
        xtime(92u8) == 184u8 &&
        xtime(93u8) == 186u8 &&
        xtime(94u8) == 188u8 &&
        xtime(95u8) == 190u8 &&
        xtime(96u8) == 192u8 &&
        xtime(97u8) == 194u8 &&
        xtime(98u8) == 196u8 &&
        xtime(99u8) == 198u8 &&
        xtime(100u8) == 200u8 &&
        xtime(101u8) == 202u8 &&
        xtime(102u8) == 204u8 &&
        xtime(103u8) == 206u8 &&
        xtime(104u8) == 208u8 &&
        xtime(105u8) == 210u8 &&
        xtime(106u8) == 212u8 &&
        xtime(107u8) == 214u8 &&
        xtime(108u8) == 216u8 &&
        xtime(109u8) == 218u8 &&
        xtime(110u8) == 220u8 &&
        xtime(111u8) == 222u8 &&
        xtime(112u8) == 224u8 &&
        xtime(113u8) == 226u8 &&
        xtime(114u8) == 228u8 &&
        xtime(115u8) == 230u8 &&
        xtime(116u8) == 232u8 &&
        xtime(117u8) == 234u8 &&
        xtime(118u8) == 236u8 &&
        xtime(119u8) == 238u8 &&
        xtime(120u8) == 240u8 &&
        xtime(121u8) == 242u8 &&
        xtime(122u8) == 244u8 &&
        xtime(123u8) == 246u8 &&
        xtime(124u8) == 248u8 &&
        xtime(125u8) == 250u8 &&
        xtime(126u8) == 252u8 &&
        xtime(127u8) == 254u8 &&
        xtime(128u8) == 27u8 &&
        xtime(129u8) == 25u8 &&
        xtime(130u8) == 31u8 &&
        xtime(131u8) == 29u8 &&
        xtime(132u8) == 19u8 &&
        xtime(133u8) == 17u8 &&
        xtime(134u8) == 23u8 &&
        xtime(135u8) == 21u8 &&
        xtime(136u8) == 11u8 &&
        xtime(137u8) == 9u8 &&
        xtime(138u8) == 15u8 &&
        xtime(139u8) == 13u8 &&
        xtime(140u8) == 3u8 &&
        xtime(141u8) == 1u8 &&
        xtime(142u8) == 7u8 &&
        xtime(143u8) == 5u8 &&
        xtime(144u8) == 59u8 &&
        xtime(145u8) == 57u8 &&
        xtime(146u8) == 63u8 &&
        xtime(147u8) == 61u8 &&
        xtime(148u8) == 51u8 &&
        xtime(149u8) == 49u8 &&
        xtime(150u8) == 55u8 &&
        xtime(151u8) == 53u8 &&
        xtime(152u8) == 43u8 &&
        xtime(153u8) == 41u8 &&
        xtime(154u8) == 47u8 &&
        xtime(155u8) == 45u8 &&
        xtime(156u8) == 35u8 &&
        xtime(157u8) == 33u8 &&
        xtime(158u8) == 39u8 &&
        xtime(159u8) == 37u8 &&
        xtime(160u8) == 91u8 &&
        xtime(161u8) == 89u8 &&
        xtime(162u8) == 95u8 &&
        xtime(163u8) == 93u8 &&
        xtime(164u8) == 83u8 &&
        xtime(165u8) == 81u8 &&
        xtime(166u8) == 87u8 &&
        xtime(167u8) == 85u8 &&
        xtime(168u8) == 75u8 &&
        xtime(169u8) == 73u8 &&
        xtime(170u8) == 79u8 &&
        xtime(171u8) == 77u8 &&
        xtime(172u8) == 67u8 &&
        xtime(173u8) == 65u8 &&
        xtime(174u8) == 71u8 &&
        xtime(175u8) == 69u8 &&
        xtime(176u8) == 123u8 &&
        xtime(177u8) == 121u8 &&
        xtime(178u8) == 127u8 &&
        xtime(179u8) == 125u8 &&
        xtime(180u8) == 115u8 &&
        xtime(181u8) == 113u8 &&
        xtime(182u8) == 119u8 &&
        xtime(183u8) == 117u8 &&
        xtime(184u8) == 107u8 &&
        xtime(185u8) == 105u8 &&
        xtime(186u8) == 111u8 &&
        xtime(187u8) == 109u8 &&
        xtime(188u8) == 99u8 &&
        xtime(189u8) == 97u8 &&
        xtime(190u8) == 103u8 &&
        xtime(191u8) == 101u8 &&
        xtime(192u8) == 155u8 &&
        xtime(193u8) == 153u8 &&
        xtime(194u8) == 159u8 &&
        xtime(195u8) == 157u8 &&
        xtime(196u8) == 147u8 &&
        xtime(197u8) == 145u8 &&
        xtime(198u8) == 151u8 &&
        xtime(199u8) == 149u8 &&
        xtime(200u8) == 139u8 &&
        xtime(201u8) == 137u8 &&
        xtime(202u8) == 143u8 &&
        xtime(203u8) == 141u8 &&
        xtime(204u8) == 131u8 &&
        xtime(205u8) == 129u8 &&
        xtime(206u8) == 135u8 &&
        xtime(207u8) == 133u8 &&
        xtime(208u8) == 187u8 &&
        xtime(209u8) == 185u8 &&
        xtime(210u8) == 191u8 &&
        xtime(211u8) == 189u8 &&
        xtime(212u8) == 179u8 &&
        xtime(213u8) == 177u8 &&
        xtime(214u8) == 183u8 &&
        xtime(215u8) == 181u8 &&
        xtime(216u8) == 171u8 &&
        xtime(217u8) == 169u8 &&
        xtime(218u8) == 175u8 &&
        xtime(219u8) == 173u8 &&
        xtime(220u8) == 163u8 &&
        xtime(221u8) == 161u8 &&
        xtime(222u8) == 167u8 &&
        xtime(223u8) == 165u8 &&
        xtime(224u8) == 219u8 &&
        xtime(225u8) == 217u8 &&
        xtime(226u8) == 223u8 &&
        xtime(227u8) == 221u8 &&
        xtime(228u8) == 211u8 &&
        xtime(229u8) == 209u8 &&
        xtime(230u8) == 215u8 &&
        xtime(231u8) == 213u8 &&
        xtime(232u8) == 203u8 &&
        xtime(233u8) == 201u8 &&
        xtime(234u8) == 207u8 &&
        xtime(235u8) == 205u8 &&
        xtime(236u8) == 195u8 &&
        xtime(237u8) == 193u8 &&
        xtime(238u8) == 199u8 &&
        xtime(239u8) == 197u8 &&
        xtime(240u8) == 251u8 &&
        xtime(241u8) == 249u8 &&
        xtime(242u8) == 255u8 &&
        xtime(243u8) == 253u8 &&
        xtime(244u8) == 243u8 &&
        xtime(245u8) == 241u8 &&
        xtime(246u8) == 247u8 &&
        xtime(247u8) == 245u8 &&
        xtime(248u8) == 235u8 &&
        xtime(249u8) == 233u8 &&
        xtime(250u8) == 239u8 &&
        xtime(251u8) == 237u8 &&
        xtime(252u8) == 227u8 &&
        xtime(253u8) == 225u8 &&
        xtime(254u8) == 231u8 &&
        xtime(255u8) == 229u8
    ) by (bit_vector);
}

/// The table of products by 2 holds `gf_mul(x, 2)` at index `x`.
pub proof fn lemma_gmul2_table()
    ensures
        forall|x: u8| #[trigger] GMUL2[x as int] == gf_mul(x, 2),
{
    lemma_gmul2_values();
    assert forall|x: u8| #[trigger] GMUL2[x as int] == gf_mul(x, 2) by {
        lemma_gf_mul_2(x);
        lemma_u8_cases(x);
    }
}

/// Products by 3, written with doublings.
pub proof fn lemma_gf_mul_3(x: u8)
    ensures
        gf_mul(x, 3) == xtime(x) ^ x,
{
    reveal_with_fuel(gf_mul, 5);
    let x2 = xtime(x);
    let x4 = xtime(x2);
    let x8 = xtime(x4);
    lemma_xor_zero(x);
    lemma_xor_zero(x2);
    lemma_xor_zero(x4);
    lemma_xor_zero(x8);
    assert(x ^ x2 == x2 ^ x) by (bit_vector);
}

/// The entries of the table of products by 3, computed with doublings.
proof fn lemma_gmul3_values()
    ensures
        xtime(0u8) ^ 0u8 == 0u8 &&
        xtime(1u8) ^ 1u8 == 3u8 &&
        xtime(2u8) ^ 2u8 == 6u8 &&
        xtime(3u8) ^ 3u8 == 5u8 &&
        xtime(4u8) ^ 4u8 == 12u8 &&
        xtime(5u8) ^ 5u8 == 15u8 &&
        xtime(6u8) ^ 6u8 == 10u8 &&
        xtime(7u8) ^ 7u8 == 9u8 &&
        xtime(8u8) ^ 8u8 == 24u8 &&
        xtime(9u8) ^ 9u8 == 27u8 &&
        xtime(10u8) ^ 10u8 == 30u8 &&
        xtime(11u8) ^ 11u8 == 29u8 &&
        xtime(12u8) ^ 12u8 == 20u8 &&
        xtime(13u8) ^ 13u8 == 23u8 &&
        xtime(14u8) ^ 14u8 == 18u8 &&
        xtime(15u8) ^ 15u8 == 17u8 &&
        xtime(16u8) ^ 16u8 == 48u8 &&
        xtime(17u8) ^ 17u8 == 51u8 &&
        xtime(18u8) ^ 18u8 == 54u8 &&
        xtime(19u8) ^ 19u8 == 53u8 &&
        xtime(20u8) ^ 20u8 == 60u8 &&
        xtime(21u8) ^ 21u8 == 63u8 &&
        xtime(22u8) ^ 22u8 == 58u8 &&
        xtime(23u8) ^ 23u8 == 57u8 &&
        xtime(24u8) ^ 24u8 == 40u8 &&
        xtime(25u8) ^ 25u8 == 43u8 &&
        xtime(26u8) ^ 26u8 == 46u8 &&
        xtime(27u8) ^ 27u8 == 45u8 &&
        xtime(28u8) ^ 28u8 == 36u8 &&
        xtime(29u8) ^ 29u8 == 39u8 &&
        xtime(30u8) ^ 30u8 == 34u8 &&
        xtime(31u8) ^ 31u8 == 33u8 &&
        xtime(32u8) ^ 32u8 == 96u8 &&
        xtime(33u8) ^ 33u8 == 99u8 &&
        xtime(34u8) ^ 34u8 == 102u8 &&
        xtime(35u8) ^ 35u8 == 101u8 &&
        xtime(36u8) ^ 36u8 == 108u8 &&
        xtime(37u8) ^ 37u8 == 111u8 &&
        xtime(38u8) ^ 38u8 == 106u8 &&
        xtime(39u8) ^ 39u8 == 105u8 &&
        xtime(40u8) ^ 40u8 == 120u8 &&
        xtime(41u8) ^ 41u8 == 123u8 &&
        xtime(42u8) ^ 42u8 == 126u8 &&
        xtime(43u8) ^ 43u8 == 125u8 &&
        xtime(44u8) ^ 44u8 == 116u8 &&
        xtime(45u8) ^ 45u8 == 119u8 &&
        xtime(46u8) ^ 46u8 == 114u8 &&
        xtime(47u8) ^ 47u8 == 113u8 &&
        xtime(48u8) ^ 48u8 == 80u8 &&
        xtime(49u8) ^ 49u8 == 83u8 &&
        xtime(50u8) ^ 50u8 == 86u8 &&
        xtime(51u8) ^ 51u8 == 85u8 &&
        xtime(52u8) ^ 52u8 == 92u8 &&
        xtime(53u8) ^ 53u8 == 95u8 &&
        xtime(54u8) ^ 54u8 == 90u8 &&
        xtime(55u8) ^ 55u8 == 89u8 &&
        xtime(56u8) ^ 56u8 == 72u8 &&
        xtime(57u8) ^ 57u8 == 75u8 &&
        xtime(58u8) ^ 58u8 == 78u8 &&
        xtime(59u8) ^ 59u8 == 77u8 &&
        xtime(60u8) ^ 60u8 == 68u8 &&
        xtime(61u8) ^ 61u8 == 71u8 &&
        xtime(62u8) ^ 62u8 == 66u8 &&
        xtime(63u8) ^ 63u8 == 65u8 &&
        xtime(64u8) ^ 64u8 == 192u8 &&
        xtime(65u8) ^ 65u8 == 195u8 &&
        xtime(66u8) ^ 66u8 == 198u8 &&
        xtime(67u8) ^ 67u8 == 197u8 &&
        xtime(68u8) ^ 68u8 == 204u8 &&
        xtime(69u8) ^ 69u8 == 207u8 &&
        xtime(70u8) ^ 70u8 == 202u8 &&
        xtime(71u8) ^ 71u8 == 201u8 &&
        xtime(72u8) ^ 72u8 == 216u8 &&
        xtime(73u8) ^ 73u8 == 219u8 &&
        xtime(74u8) ^ 74u8 == 222u8 &&
        xtime(75u8) ^ 75u8 == 221u8 &&
        xtime(76u8) ^ 76u8 == 212u8 &&
        xtime(77u8) ^ 77u8 == 215u8 &&
        xtime(78u8) ^ 78u8 == 210u8 &&
        xtime(79u8) ^ 79u8 == 209u8 &&
        xtime(80u8) ^ 80u8 == 240u8 &&
        xtime(81u8) ^ 81u8 == 243u8 &&
        xtime(82u8) ^ 82u8 == 246u8 &&
        xtime(83u8) ^ 83u8 == 245u8 &&
        xtime(84u8) ^ 84u8 == 252u8 &&
        xtime(85u8) ^ 85u8 == 255u8 &&
        xtime(86u8) ^ 86u8 == 250u8 &&
        xtime(87u8) ^ 87u8 == 249u8 &&
        xtime(88u8) ^ 88u8 == 232u8 &&
        xtime(89u8) ^ 89u8 == 235u8 &&
        xtime(90u8) ^ 90u8 == 238u8 &&
        xtime(91u8) ^ 91u8 == 237u8 &&
        xtime(92u8) ^ 92u8 == 228u8 &&
        xtime(93u8) ^ 93u8 == 231u8 &&
        xtime(94u8) ^ 94u8 == 226u8 &&
        xtime(95u8) ^ 95u8 == 225u8 &&
        xtime(96u8) ^ 96u8 == 160u8 &&
        xtime(97u8) ^ 97u8 == 163u8 &&
        xtime(98u8) ^ 98u8 == 166u8 &&
        xtime(99u8) ^ 99u8 == 165u8 &&
        xtime(100u8) ^ 100u8 == 172u8 &&
        xtime(101u8) ^ 101u8 == 175u8 &&
        xtime(102u8) ^ 102u8 == 170u8 &&
        xtime(103u8) ^ 103u8 == 169u8 &&
        xtime(104u8) ^ 104u8 == 184u8 &&
        xtime(105u8) ^ 105u8 == 187u8 &&
        xtime(106u8) ^ 106u8 == 190u8 &&
        xtime(107u8) ^ 107u8 == 189u8 &&
        xtime(108u8) ^ 108u8 == 180u8 &&
        xtime(109u8) ^ 109u8 == 183u8 &&
        xtime(110u8) ^ 110u8 == 178u8 &&
        xtime(111u8) ^ 111u8 == 177u8 &&
        xtime(112u8) ^ 112u8 == 144u8 &&
        xtime(113u8) ^ 113u8 == 147u8 &&
        xtime(114u8) ^ 114u8 == 150u8 &&
        xtime(115u8) ^ 115u8 == 149u8 &&
        xtime(116u8) ^ 116u8 == 156u8 &&
        xtime(117u8) ^ 117u8 == 159u8 &&
        xtime(118u8) ^ 118u8 == 154u8 &&
        xtime(119u8) ^ 119u8 == 153u8 &&
        xtime(120u8) ^ 120u8 == 136u8 &&
        xtime(121u8) ^ 121u8 == 139u8 &&
        xtime(122u8) ^ 122u8 == 142u8 &&
        xtime(123u8) ^ 123u8 == 141u8 &&
        xtime(124u8) ^ 124u8 == 132u8 &&
        xtime(125u8) ^ 125u8 == 135u8 &&
        xtime(126u8) ^ 126u8 == 130u8 &&
        xtime(127u8) ^ 127u8 == 129u8 &&
        xtime(128u8) ^ 128u8 == 155u8 &&
        xtime(129u8) ^ 129u8 == 152u8 &&
        xtime(130u8) ^ 130u8 == 157u8 &&
        xtime(131u8) ^ 131u8 == 158u8 &&
        xtime(132u8) ^ 132u8 == 151u8 &&
        xtime(133u8) ^ 133u8 == 148u8 &&
        xtime(134u8) ^ 134u8 == 145u8 &&
        xtime(135u8) ^ 135u8 == 146u8 &&
        xtime(136u8) ^ 136u8 == 131u8 &&
        xtime(137u8) ^ 137u8 == 128u8 &&
        xtime(138u8) ^ 138u8 == 133u8 &&
        xtime(139u8) ^ 139u8 == 134u8 &&
        xtime(140u8) ^ 140u8 == 143u8 &&
        xtime(141u8) ^ 141u8 == 140u8 &&
        xtime(142u8) ^ 142u8 == 137u8 &&
        xtime(143u8) ^ 143u8 == 138u8 &&
        xtime(144u8) ^ 144u8 == 171u8 &&
        xtime(145u8) ^ 145u8 == 168u8 &&
        xtime(146u8) ^ 146u8 == 173u8 &&
        xtime(147u8) ^ 147u8 == 174u8 &&
        xtime(148u8) ^ 148u8 == 167u8 &&
        xtime(149u8) ^ 149u8 == 164u8 &&
        xtime(150u8) ^ 150u8 == 161u8 &&
        xtime(151u8) ^ 151u8 == 162u8 &&
        xtime(152u8) ^ 152u8 == 179u8 &&
        xtime(153u8) ^ 153u8 == 176u8 &&
        xtime(154u8) ^ 154u8 == 181u8 &&
        xtime(155u8) ^ 155u8 == 182u8 &&
        xtime(156u8) ^ 156u8 == 191u8 &&
        xtime(157u8) ^ 157u8 == 188u8 &&
        xtime(158u8) ^ 158u8 == 185u8 &&
        xtime(159u8) ^ 159u8 == 186u8 &&
        xtime(160u8) ^ 160u8 == 251u8 &&
        xtime(161u8) ^ 161u8 == 248u8 &&
        xtime(162u8) ^ 162u8 == 253u8 &&
        xtime(163u8) ^ 163u8 == 254u8 &&
        xtime(164u8) ^ 164u8 == 247u8 &&
        xtime(165u8) ^ 165u8 == 244u8 &&
        xtime(166u8) ^ 166u8 == 241u8 &&
        xtime(167u8) ^ 167u8 == 242u8 &&
        xtime(168u8) ^ 168u8 == 227u8 &&
        xtime(169u8) ^ 169u8 == 224u8 &&
        xtime(170u8) ^ 170u8 == 229u8 &&
        xtime(171u8) ^ 171u8 == 230u8 &&
        xtime(172u8) ^ 172u8 == 239u8 &&
        xtime(173u8) ^ 173u8 == 236u8 &&
        xtime(174u8) ^ 174u8 == 233u8 &&
        xtime(175u8) ^ 175u8 == 234u8 &&
        xtime(176u8) ^ 176u8 == 203u8 &&
        xtime(177u8) ^ 177u8 == 200u8 &&
        xtime(178u8) ^ 178u8 == 205u8 &&
        xtime(179u8) ^ 179u8 == 206u8 &&
        xtime(180u8) ^ 180u8 == 199u8 &&
        xtime(181u8) ^ 181u8 == 196u8 &&
        xtime(182u8) ^ 182u8 == 193u8 &&
        xtime(183u8) ^ 183u8 == 194u8 &&
        xtime(184u8) ^ 184u8 == 211u8 &&
        xtime(185u8) ^ 185u8 == 208u8 &&
        xtime(186u8) ^ 186u8 == 213u8 &&
        xtime(187u8) ^ 187u8 == 214u8 &&
        xtime(188u8) ^ 188u8 == 223u8 &&
        xtime(189u8) ^ 189u8 == 220u8 &&
        xtime(190u8) ^ 190u8 == 217u8 &&
        xtime(191u8) ^ 191u8 == 218u8 &&
        xtime(192u8) ^ 192u8 == 91u8 &&
        xtime(193u8) ^ 193u8 == 88u8 &&
        xtime(194u8) ^ 194u8 == 93u8 &&
        xtime(195u8) ^ 195u8 == 94u8 &&
        xtime(196u8) ^ 196u8 == 87u8 &&
        xtime(197u8) ^ 197u8 == 84u8 &&
        xtime(198u8) ^ 198u8 == 81u8 &&
        xtime(199u8) ^ 199u8 == 82u8 &&
        xtime(200u8) ^ 200u8 == 67u8 &&
        xtime(201u8) ^ 201u8 == 64u8 &&
        xtime(202u8) ^ 202u8 == 69u8 &&
        xtime(203u8) ^ 203u8 == 70u8 &&
        xtime(204u8) ^ 204u8 == 79u8 &&
        xtime(205u8) ^ 205u8 == 76u8 &&
        xtime(206u8) ^ 206u8 == 73u8 &&
        xtime(207u8) ^ 207u8 == 74u8 &&
        xtime(208u8) ^ 208u8 == 107u8 &&
        xtime(209u8) ^ 209u8 == 104u8 &&
        xtime(210u8) ^ 210u8 == 109u8 &&
        xtime(211u8) ^ 211u8 == 110u8 &&
        xtime(212u8) ^ 212u8 == 103u8 &&
        xtime(213u8) ^ 213u8 == 100u8 &&
        xtime(214u8) ^ 214u8 == 97u8 &&
        xtime(215u8) ^ 215u8 == 98u8 &&
        xtime(216u8) ^ 216u8 == 115u8 &&
        xtime(217u8) ^ 217u8 == 112u8 &&
        xtime(218u8) ^ 218u8 == 117u8 &&
        xtime(219u8) ^ 219u8 == 118u8 &&
        xtime(220u8) ^ 220u8 == 127u8 &&
        xtime(221u8) ^ 221u8 == 124u8 &&
        xtime(222u8) ^ 222u8 == 121u8 &&
        xtime(223u8) ^ 223u8 == 122u8 &&
        xtime(224u8) ^ 224u8 == 59u8 &&
        xtime(225u8) ^ 225u8 == 56u8 &&
        xtime(226u8) ^ 226u8 == 61u8 &&
        xtime(227u8) ^ 227u8 == 62u8 &&
        xtime(228u8) ^ 228u8 == 55u8 &&
        xtime(229u8) ^ 229u8 == 52u8 &&
        xtime(230u8) ^ 230u8 == 49u8 &&
        xtime(231u8) ^ 231u8 == 50u8 &&
        xtime(232u8) ^ 232u8 == 35u8 &&
        xtime(233u8) ^ 233u8 == 32u8 &&
        xtime(234u8) ^ 234u8 == 37u8 &&
        xtime(235u8) ^ 235u8 == 38u8 &&
        xtime(236u8) ^ 236u8 == 47u8 &&
        xtime(237u8) ^ 237u8 == 44u8 &&
        xtime(238u8) ^ 238u8 == 41u8 &&
        xtime(239u8) ^ 239u8 == 42u8 &&
        xtime(240u8) ^ 240u8 == 11u8 &&
        xtime(241u8) ^ 241u8 == 8u8 &&
        xtime(242u8) ^ 242u8 == 13u8 &&
        xtime(243u8) ^ 243u8 == 14u8 &&
        xtime(244u8) ^ 244u8 == 7u8 &&
        xtime(245u8) ^ 245u8 == 4u8 &&
        xtime(246u8) ^ 246u8 == 1u8 &&
        xtime(247u8) ^ 247u8 == 2u8 &&
        xtime(248u8) ^ 248u8 == 19u8 &&
        xtime(249u8) ^ 249u8 == 16u8 &&
        xtime(250u8) ^ 250u8 == 21u8 &&
        xtime(251u8) ^ 251u8 == 22u8 &&
        xtime(252u8) ^ 252u8 == 31u8 &&
        xtime(253u8) ^ 253u8 == 28u8 &&
        xtime(254u8) ^ 254u8 == 25u8 &&
        xtime(255u8) ^ 255u8 == 26u8,
{
    reveal(xtime);
    assert(
        xtime(0u8) ^ 0u8 == 0u8 &&
        xtime(1u8) ^ 1u8 == 3u8 &&
        xtime(2u8) ^ 2u8 == 6u8 &&
        xtime(3u8) ^ 3u8 == 5u8 &&
        xtime(4u8) ^ 4u8 == 12u8 &&
        xtime(5u8) ^ 5u8 == 15u8 &&
        xtime(6u8) ^ 6u8 == 10u8 &&
        xtime(7u8) ^ 7u8 == 9u8 &&
        xtime(8u8) ^ 8u8 == 24u8 &&
        xtime(9u8) ^ 9u8 == 27u8 &&
        xtime(10u8) ^ 10u8 == 30u8 &&
        xtime(11u8) ^ 11u8 == 29u8 &&
        xtime(12u8) ^ 12u8 == 20u8 &&
        xtime(13u8) ^ 13u8 == 23u8 &&
        xtime(14u8) ^ 14u8 == 18u8 &&
        xtime(15u8) ^ 15u8 == 17u8 &&
        xtime(16u8) ^ 16u8 == 48u8 &&
        xtime(17u8) ^ 17u8 == 51u8 &&
        xtime(18u8) ^ 18u8 == 54u8 &&
        xtime(19u8) ^ 19u8 == 53u8 &&
        xtime(20u8) ^ 20u8 == 60u8 &&
        xtime(21u8) ^ 21u8 == 63u8 &&
        xtime(22u8) ^ 22u8 == 58u8 &&
        xtime(23u8) ^ 23u8 == 57u8 &&
        xtime(24u8) ^ 24u8 == 40u8 &&
        xtime(25u8) ^ 25u8 == 43u8 &&
        xtime(26u8) ^ 26u8 == 46u8 &&
        xtime(27u8) ^ 27u8 == 45u8 &&
        xtime(28u8) ^ 28u8 == 36u8 &&
        xtime(29u8) ^ 29u8 == 39u8 &&
        xtime(30u8) ^ 30u8 == 34u8 &&
        xtime(31u8) ^ 31u8 == 33u8 &&
        xtime(32u8) ^ 32u8 == 96u8 &&
        xtime(33u8) ^ 33u8 == 99u8 &&
        xtime(34u8) ^ 34u8 == 102u8 &&
        xtime(35u8) ^ 35u8 == 101u8 &&
        xtime(36u8) ^ 36u8 == 108u8 &&
        xtime(37u8) ^ 37u8 == 111u8 &&
        xtime(38u8) ^ 38u8 == 106u8 &&
        xtime(39u8) ^ 39u8 == 105u8 &&
        xtime(40u8) ^ 40u8 == 120u8 &&
        xtime(41u8) ^ 41u8 == 123u8 &&
        xtime(42u8) ^ 42u8 == 126u8 &&
        xtime(43u8) ^ 43u8 == 125u8 &&
        xtime(44u8) ^ 44u8 == 116u8 &&
        xtime(45u8) ^ 45u8 == 119u8 &&
        xtime(46u8) ^ 46u8 == 114u8 &&
        xtime(47u8) ^ 47u8 == 113u8 &&
        xtime(48u8) ^ 48u8 == 80u8 &&
        xtime(49u8) ^ 49u8 == 83u8 &&
        xtime(50u8) ^ 50u8 == 86u8 &&
        xtime(51u8) ^ 51u8 == 85u8 &&
        xtime(52u8) ^ 52u8 == 92u8 &&
        xtime(53u8) ^ 53u8 == 95u8 &&
        xtime(54u8) ^ 54u8 == 90u8 &&
        xtime(55u8) ^ 55u8 == 89u8 &&
        xtime(56u8) ^ 56u8 == 72u8 &&
        xtime(57u8) ^ 57u8 == 75u8 &&
        xtime(58u8) ^ 58u8 == 78u8 &&
        xtime(59u8) ^ 59u8 == 77u8 &&
        xtime(60u8) ^ 60u8 == 68u8 &&
        xtime(61u8) ^ 61u8 == 71u8 &&
        xtime(62u8) ^ 62u8 == 66u8 &&
        xtime(63u8) ^ 63u8 == 65u8 &&
        xtime(64u8) ^ 64u8 == 192u8 &&
        xtime(65u8) ^ 65u8 == 195u8 &&
        xtime(66u8) ^ 66u8 == 198u8 &&
        xtime(67u8) ^ 67u8 == 197u8 &&
        xtime(68u8) ^ 68u8 == 204u8 &&
        xtime(69u8) ^ 69u8 == 207u8 &&
        xtime(70u8) ^ 70u8 == 202u8 &&
        xtime(71u8) ^ 71u8 == 201u8 &&
        xtime(72u8) ^ 72u8 == 216u8 &&
        xtime(73u8) ^ 73u8 == 219u8 &&
        xtime(74u8) ^ 74u8 == 222u8 &&
        xtime(75u8) ^ 75u8 == 221u8 &&
        xtime(76u8) ^ 76u8 == 212u8 &&
        xtime(77u8) ^ 77u8 == 215u8 &&
        xtime(78u8) ^ 78u8 == 210u8 &&
        xtime(79u8) ^ 79u8 == 209u8 &&
        xtime(80u8) ^ 80u8 == 240u8 &&
        xtime(81u8) ^ 81u8 == 243u8 &&
        xtime(82u8) ^ 82u8 == 246u8 &&
        xtime(83u8) ^ 83u8 == 245u8 &&
        xtime(84u8) ^ 84u8 == 252u8 &&
        xtime(85u8) ^ 85u8 == 255u8 &&
        xtime(86u8) ^ 86u8 == 250u8 &&
        xtime(87u8) ^ 87u8 == 249u8 &&
        xtime(88u8) ^ 88u8 == 232u8 &&
        xtime(89u8) ^ 89u8 == 235u8 &&
        xtime(90u8) ^ 90u8 == 238u8 &&
        xtime(91u8) ^ 91u8 == 237u8 &&
        xtime(92u8) ^ 92u8 == 228u8 &&
        xtime(93u8) ^ 93u8 == 231u8 &&
        xtime(94u8) ^ 94u8 == 226u8 &&
        xtime(95u8) ^ 95u8 == 225u8 &&
        xtime(96u8) ^ 96u8 == 160u8 &&
        xtime(97u8) ^ 97u8 == 163u8 &&
        xtime(98u8) ^ 98u8 == 166u8 &&
        xtime(99u8) ^ 99u8 == 165u8 &&
        xtime(100u8) ^ 100u8 == 172u8 &&
        xtime(101u8) ^ 101u8 == 175u8 &&
        xtime(102u8) ^ 102u8 == 170u8 &&
        xtime(103u8) ^ 103u8 == 169u8 &&
        xtime(104u8) ^ 104u8 == 184u8 &&
        xtime(105u8) ^ 105u8 == 187u8 &&
        xtime(106u8) ^ 106u8 == 190u8 &&
        xtime(107u8) ^ 107u8 == 189u8 &&
        xtime(108u8) ^ 108u8 == 180u8 &&
        xtime(109u8) ^ 109u8 == 183u8 &&
        xtime(110u8) ^ 110u8 == 178u8 &&
        xtime(111u8) ^ 111u8 == 177u8 &&
        xtime(112u8) ^ 112u8 == 144u8 &&
        xtime(113u8) ^ 113u8 == 147u8 &&
        xtime(114u8) ^ 114u8 == 150u8 &&
        xtime(115u8) ^ 115u8 == 149u8 &&
        xtime(116u8) ^ 116u8 == 156u8 &&
        xtime(117u8) ^ 117u8 == 159u8 &&
        xtime(118u8) ^ 118u8 == 154u8 &&
        xtime(119u8) ^ 119u8 == 153u8 &&
        xtime(120u8) ^ 120u8 == 136u8 &&
        xtime(121u8) ^ 121u8 == 139u8 &&
        xtime(122u8) ^ 122u8 == 142u8 &&
        xtime(123u8) ^ 123u8 == 141u8 &&
        xtime(124u8) ^ 124u8 == 132u8 &&
        xtime(125u8) ^ 125u8 == 135u8 &&
        xtime(126u8) ^ 126u8 == 130u8 &&
        xtime(127u8) ^ 127u8 == 129u8 &&
        xtime(128u8) ^ 128u8 == 155u8 &&
        xtime(129u8) ^ 129u8 == 152u8 &&
        xtime(130u8) ^ 130u8 == 157u8 &&
        xtime(131u8) ^ 131u8 == 158u8 &&
        xtime(132u8) ^ 132u8 == 151u8 &&
        xtime(133u8) ^ 133u8 == 148u8 &&
        xtime(134u8) ^ 134u8 == 145u8 &&
        xtime(135u8) ^ 135u8 == 146u8 &&
        xtime(136u8) ^ 136u8 == 131u8 &&
        xtime(137u8) ^ 137u8 == 128u8 &&
        xtime(138u8) ^ 138u8 == 133u8 &&
        xtime(139u8) ^ 139u8 == 134u8 &&
        xtime(140u8) ^ 140u8 == 143u8 &&
        xtime(141u8) ^ 141u8 == 140u8 &&
        xtime(142u8) ^ 142u8 == 137u8 &&
        xtime(143u8) ^ 143u8 == 138u8 &&
        xtime(144u8) ^ 144u8 == 171u8 &&
        xtime(145u8) ^ 145u8 == 168u8 &&
        xtime(146u8) ^ 146u8 == 173u8 &&
        xtime(147u8) ^ 147u8 == 174u8 &&
        xtime(148u8) ^ 148u8 == 167u8 &&
        xtime(149u8) ^ 149u8 == 164u8 &&
        xtime(150u8) ^ 150u8 == 161u8 &&
        xtime(151u8) ^ 151u8 == 162u8 &&
        xtime(152u8) ^ 152u8 == 179u8 &&
        xtime(153u8) ^ 153u8 == 176u8 &&
        xtime(154u8) ^ 154u8 == 181u8 &&
        xtime(155u8) ^ 155u8 == 182u8 &&
        xtime(156u8) ^ 156u8 == 191u8 &&
        xtime(157u8) ^ 157u8 == 188u8 &&
        xtime(158u8) ^ 158u8 == 185u8 &&
        xtime(159u8) ^ 159u8 == 186u8 &&
        xtime(160u8) ^ 160u8 == 251u8 &&
        xtime(161u8) ^ 161u8 == 248u8 &&
        xtime(162u8) ^ 162u8 == 253u8 &&
        xtime(163u8) ^ 163u8 == 254u8 &&
        xtime(164u8) ^ 164u8 == 247u8 &&
        xtime(165u8) ^ 165u8 == 244u8 &&
        xtime(166u8) ^ 166u8 == 241u8 &&
        xtime(167u8) ^ 167u8 == 242u8 &&
        xtime(168u8) ^ 168u8 == 227u8 &&
        xtime(169u8) ^ 169u8 == 224u8 &&
        xtime(170u8) ^ 170u8 == 229u8 &&
        xtime(171u8) ^ 171u8 == 230u8 &&
        xtime(172u8) ^ 172u8 == 239u8 &&
        xtime(173u8) ^ 173u8 == 236u8 &&
        xtime(174u8) ^ 174u8 == 233u8 &&
        xtime(175u8) ^ 175u8 == 234u8 &&
        xtime(176u8) ^ 176u8 == 203u8 &&
        xtime(177u8) ^ 177u8 == 200u8 &&
        xtime(178u8) ^ 178u8 == 205u8 &&
        xtime(179u8) ^ 179u8 == 206u8 &&
        xtime(180u8) ^ 180u8 == 199u8 &&
        xtime(181u8) ^ 181u8 == 196u8 &&
        xtime(182u8) ^ 182u8 == 193u8 &&
        xtime(183u8) ^ 183u8 == 194u8 &&
        xtime(184u8) ^ 184u8 == 211u8 &&
        xtime(185u8) ^ 185u8 == 208u8 &&
        xtime(186u8) ^ 186u8 == 213u8 &&
        xtime(187u8) ^ 187u8 == 214u8 &&
        xtime(188u8) ^ 188u8 == 223u8 &&
        xtime(189u8) ^ 189u8 == 220u8 &&
        xtime(190u8) ^ 190u8 == 217u8 &&
        xtime(191u8) ^ 191u8 == 218u8 &&
        xtime(192u8) ^ 192u8 == 91u8 &&
        xtime(193u8) ^ 193u8 == 88u8 &&
        xtime(194u8) ^ 194u8 == 93u8 &&
        xtime(195u8) ^ 195u8 == 94u8 &&
        xtime(196u8) ^ 196u8 == 87u8 &&
        xtime(197u8) ^ 197u8 == 84u8 &&
        xtime(198u8) ^ 198u8 == 81u8 &&
        xtime(199u8) ^ 199u8 == 82u8 &&
        xtime(200u8) ^ 200u8 == 67u8 &&
        xtime(201u8) ^ 201u8 == 64u8 &&
        xtime(202u8) ^ 202u8 == 69u8 &&
        xtime(203u8) ^ 203u8 == 70u8 &&
        xtime(204u8) ^ 204u8 == 79u8 &&
        xtime(205u8) ^ 205u8 == 76u8 &&
        xtime(206u8) ^ 206u8 == 73u8 &&
        xtime(207u8) ^ 207u8 == 74u8 &&
        xtime(208u8) ^ 208u8 == 107u8 &&
        xtime(209u8) ^ 209u8 == 104u8 &&
        xtime(210u8) ^ 210u8 == 109u8 &&
        xtime(211u8) ^ 211u8 == 110u8 &&
        xtime(212u8) ^ 212u8 == 103u8 &&
        xtime(213u8) ^ 213u8 == 100u8 &&
        xtime(214u8) ^ 214u8 == 97u8 &&
        xtime(215u8) ^ 215u8 == 98u8 &&
        xtime(216u8) ^ 216u8 == 115u8 &&
        xtime(217u8) ^ 217u8 == 112u8 &&
        xtime(218u8) ^ 218u8 == 117u8 &&
        xtime(219u8) ^ 219u8 == 118u8 &&
        xtime(220u8) ^ 220u8 == 127u8 &&
        xtime(221u8) ^ 221u8 == 124u8 &&
        xtime(222u8) ^ 222u8 == 121u8 &&
        xtime(223u8) ^ 223u8 == 122u8 &&
        xtime(224u8) ^ 224u8 == 59u8 &&
        xtime(225u8) ^ 225u8 == 56u8 &&
        xtime(226u8) ^ 226u8 == 61u8 &&
        xtime(227u8) ^ 227u8 == 62u8 &&
        xtime(228u8) ^ 228u8 == 55u8 &&
        xtime(229u8) ^ 229u8 == 52u8 &&
        xtime(230u8) ^ 230u8 == 49u8 &&
        xtime(231u8) ^ 231u8 == 50u8 &&
        xtime(232u8) ^ 232u8 == 35u8 &&
        xtime(233u8) ^ 233u8 == 32u8 &&
        xtime(234u8) ^ 234u8 == 37u8 &&
        xtime(235u8) ^ 235u8 == 38u8 &&
        xtime(236u8) ^ 236u8 == 47u8 &&
        xtime(237u8) ^ 237u8 == 44u8 &&
        xtime(238u8) ^ 238u8 == 41u8 &&
        xtime(239u8) ^ 239u8 == 42u8 &&
        xtime(240u8) ^ 240u8 == 11u8 &&
        xtime(241u8) ^ 241u8 == 8u8 &&
        xtime(242u8) ^ 242u8 == 13u8 &&
        xtime(243u8) ^ 243u8 == 14u8 &&
        xtime(244u8) ^ 244u8 == 7u8 &&
        xtime(245u8) ^ 245u8 == 4u8 &&
        xtime(246u8) ^ 246u8 == 1u8 &&
        xtime(247u8) ^ 247u8 == 2u8 &&
        xtime(248u8) ^ 248u8 == 19u8 &&
        xtime(249u8) ^ 249u8 == 16u8 &&
        xtime(250u8) ^ 250u8 == 21u8 &&
        xtime(251u8) ^ 251u8 == 22u8 &&
        xtime(252u8) ^ 252u8 == 31u8 &&
        xtime(253u8) ^ 253u8 == 28u8 &&
        xtime(254u8) ^ 254u8 == 25u8 &&
        xtime(255u8) ^ 255u8 == 26u8
    ) by (bit_vector);
}

/// The table of products by 3 holds `gf_mul(x, 3)` at index `x`.
pub proof fn lemma_gmul3_table()
    ensures
        forall|x: u8| #[trigger] GMUL3[x as int] == gf_mul(x, 3),
{
    lemma_gmul3_values();
    assert forall|x: u8| #[trigger] GMUL3[x as int] == gf_mul(x, 3) by {
        lemma_gf_mul_3(x);
        lemma_u8_cases(x);
    }
}

/// Products by 9, written with doublings.
pub proof fn lemma_gf_mul_9(x: u8)
    ensures
        gf_mul(x, 9) == xtime(xtime(xtime(x))) ^ x,
{
    reveal_with_fuel(gf_mul, 5);
    let x2 = xtime(x);
    let x4 = xtime(x2);
    let x8 = xtime(x4);
    lemma_xor_zero(x);
    lemma_xor_zero(x2);
    lemma_xor_zero(x4);
    lemma_xor_zero(x8);
    assert(x ^ x8 == x8 ^ x) by (bit_vector);
}

/// The entries of the table of products by 9, computed with doublings.
proof fn lemma_gmul9_values()
    ensures
        xtime(xtime(xtime(0u8))) ^ 0u8 == 0u8 &&
        xtime(xtime(xtime(1u8))) ^ 1u8 == 9u8 &&
        xtime(xtime(xtime(2u8))) ^ 2u8 == 18u8 &&
        xtime(xtime(xtime(3u8))) ^ 3u8 == 27u8 &&
        xtime(xtime(xtime(4u8))) ^ 4u8 == 36u8 &&
        xtime(xtime(xtime(5u8))) ^ 5u8 == 45u8 &&
        xtime(xtime(xtime(6u8))) ^ 6u8 == 54u8 &&
        xtime(xtime(xtime(7u8))) ^ 7u8 == 63u8 &&
        xtime(xtime(xtime(8u8))) ^ 8u8 == 72u8 &&
        xtime(xtime(xtime(9u8))) ^ 9u8 == 65u8 &&
        xtime(xtime(xtime(10u8))) ^ 10u8 == 90u8 &&
        xtime(xtime(xtime(11u8))) ^ 11u8 == 83u8 &&
        xtime(xtime(xtime(12u8))) ^ 12u8 == 108u8 &&
        xtime(xtime(xtime(13u8))) ^ 13u8 == 101u8 &&
        xtime(xtime(xtime(14u8))) ^ 14u8 == 126u8 &&
        xtime(xtime(xtime(15u8))) ^ 15u8 == 119u8 &&
        xtime(xtime(xtime(16u8))) ^ 16u8 == 144u8 &&
        xtime(xtime(xtime(17u8))) ^ 17u8 == 153u8 &&
        xtime(xtime(xtime(18u8))) ^ 18u8 == 130u8 &&
        xtime(xtime(xtime(19u8))) ^ 19u8 == 139u8 &&
        xtime(xtime(xtime(20u8))) ^ 20u8 == 180u8 &&
        xtime(xtime(xtime(21u8))) ^ 21u8 == 189u8 &&
        xtime(xtime(xtime(22u8))) ^ 22u8 == 166u8 &&
        xtime(xtime(xtime(23u8))) ^ 23u8 == 175u8 &&
        xtime(xtime(xtime(24u8))) ^ 24u8 == 216u8 &&
        xtime(xtime(xtime(25u8))) ^ 25u8 == 209u8 &&
        xtime(xtime(xtime(26u8))) ^ 26u8 == 202u8 &&
        xtime(xtime(xtime(27u8))) ^ 27u8 == 195u8 &&
        xtime(xtime(xtime(28u8))) ^ 28u8 == 252u8 &&
        xtime(xtime(xtime(29u8))) ^ 29u8 == 245u8 &&
        xtime(xtime(xtime(30u8))) ^ 30u8 == 238u8 &&
        xtime(xtime(xtime(31u8))) ^ 31u8 == 231u8 &&
        xtime(xtime(xtime(32u8))) ^ 32u8 == 59u8 &&
        xtime(xtime(xtime(33u8))) ^ 33u8 == 50u8 &&
        xtime(xtime(xtime(34u8))) ^ 34u8 == 41u8 &&
        xtime(xtime(xtime(35u8))) ^ 35u8 == 32u8 &&
        xtime(xtime(xtime(36u8))) ^ 36u8 == 31u8 &&
        xtime(xtime(xtime(37u8))) ^ 37u8 == 22u8 &&
        xtime(xtime(xtime(38u8))) ^ 38u8 == 13u8 &&
        xtime(xtime(xtime(39u8))) ^ 39u8 == 4u8 &&
        xtime(xtime(xtime(40u8))) ^ 40u8 == 115u8 &&
        xtime(xtime(xtime(41u8))) ^ 41u8 == 122u8 &&
        xtime(xtime(xtime(42u8))) ^ 42u8 == 97u8 &&
        xtime(xtime(xtime(43u8))) ^ 43u8 == 104u8 &&
        xtime(xtime(xtime(44u8))) ^ 44u8 == 87u8 &&
        xtime(xtime(xtime(45u8))) ^ 45u8 == 94u8 &&
        xtime(xtime(xtime(46u8))) ^ 46u8 == 69u8 &&
        xtime(xtime(xtime(47u8))) ^ 47u8 == 76u8 &&
        xtime(xtime(xtime(48u8))) ^ 48u8 == 171u8 &&
        xtime(xtime(xtime(49u8))) ^ 49u8 == 162u8 &&
        xtime(xtime(xtime(50u8))) ^ 50u8 == 185u8 &&
        xtime(xtime(xtime(51u8))) ^ 51u8 == 176u8 &&
        xtime(xtime(xtime(52u8))) ^ 52u8 == 143u8 &&
        xtime(xtime(xtime(53u8))) ^ 53u8 == 134u8 &&
        xtime(xtime(xtime(54u8))) ^ 54u8 == 157u8 &&
        xtime(xtime(xtime(55u8))) ^ 55u8 == 148u8 &&
        xtime(xtime(xtime(56u8))) ^ 56u8 == 227u8 &&
        xtime(xtime(xtime(57u8))) ^ 57u8 == 234u8 &&
        xtime(xtime(xtime(58u8))) ^ 58u8 == 241u8 &&
        xtime(xtime(xtime(59u8))) ^ 59u8 == 248u8 &&
        xtime(xtime(xtime(60u8))) ^ 60u8 == 199u8 &&
        xtime(xtime(xtime(61u8))) ^ 61u8 == 206u8 &&
        xtime(xtime(xtime(62u8))) ^ 62u8 == 213u8 &&
        xtime(xtime(xtime(63u8))) ^ 63u8 == 220u8 &&
        xtime(xtime(xtime(64u8))) ^ 64u8 == 118u8 &&
        xtime(xtime(xtime(65u8))) ^ 65u8 == 127u8 &&
        xtime(xtime(xtime(66u8))) ^ 66u8 == 100u8 &&
        xtime(xtime(xtime(67u8))) ^ 67u8 == 109u8 &&
        xtime(xtime(xtime(68u8))) ^ 68u8 == 82u8 &&
        xtime(xtime(xtime(69u8))) ^ 69u8 == 91u8 &&
        xtime(xtime(xtime(70u8))) ^ 70u8 == 64u8 &&
        xtime(xtime(xtime(71u8))) ^ 71u8 == 73u8 &&
        xtime(xtime(xtime(72u8))) ^ 72u8 == 62u8 &&
        xtime(xtime(xtime(73u8))) ^ 73u8 == 55u8 &&
        xtime(xtime(xtime(74u8))) ^ 74u8 == 44u8 &&
        xtime(xtime(xtime(75u8))) ^ 75u8 == 37u8 &&
        xtime(xtime(xtime(76u8))) ^ 76u8 == 26u8 &&
        xtime(xtime(xtime(77u8))) ^ 77u8 == 19u8 &&
        xtime(xtime(xtime(78u8))) ^ 78u8 == 8u8 &&
        xtime(xtime(xtime(79u8))) ^ 79u8 == 1u8 &&
        xtime(xtime(xtime(80u8))) ^ 80u8 == 230u8 &&
        xtime(xtime(xtime(81u8))) ^ 81u8 == 239u8 &&
        xtime(xtime(xtime(82u8))) ^ 82u8 == 244u8 &&
        xtime(xtime(xtime(83u8))) ^ 83u8 == 253u8 &&
        xtime(xtime(xtime(84u8))) ^ 84u8 == 194u8 &&
        xtime(xtime(xtime(85u8))) ^ 85u8 == 203u8 &&
        xtime(xtime(xtime(86u8))) ^ 86u8 == 208u8 &&
        xtime(xtime(xtime(87u8))) ^ 87u8 == 217u8 &&
        xtime(xtime(xtime(88u8))) ^ 88u8 == 174u8 &&
        xtime(xtime(xtime(89u8))) ^ 89u8 == 167u8 &&
        xtime(xtime(xtime(90u8))) ^ 90u8 == 188u8 &&
        xtime(xtime(xtime(91u8))) ^ 91u8 == 181u8 &&
        xtime(xtime(xtime(92u8))) ^ 92u8 == 138u8 &&
        xtime(xtime(xtime(93u8))) ^ 93u8 == 131u8 &&
        xtime(xtime(xtime(94u8))) ^ 94u8 == 152u8 &&
        xtime(xtime(xtime(95u8))) ^ 95u8 == 145u8 &&
        xtime(xtime(xtime(96u8))) ^ 96u8 == 77u8 &&
        xtime(xtime(xtime(97u8))) ^ 97u8 == 68u8 &&
        xtime(xtime(xtime(98u8))) ^ 98u8 == 95u8 &&
        xtime(xtime(xtime(99u8))) ^ 99u8 == 86u8 &&
        xtime(xtime(xtime(100u8))) ^ 100u8 == 105u8 &&
        xtime(xtime(xtime(101u8))) ^ 101u8 == 96u8 &&
        xtime(xtime(xtime(102u8))) ^ 102u8 == 123u8 &&
        xtime(xtime(xtime(103u8))) ^ 103u8 == 114u8 &&
        xtime(xtime(xtime(104u8))) ^ 104u8 == 5u8 &&
        xtime(xtime(xtime(105u8))) ^ 105u8 == 12u8 &&
        xtime(xtime(xtime(106u8))) ^ 106u8 == 23u8 &&
        xtime(xtime(xtime(107u8))) ^ 107u8 == 30u8 &&
        xtime(xtime(xtime(108u8))) ^ 108u8 == 33u8 &&
        xtime(xtime(xtime(109u8))) ^ 109u8 == 40u8 &&
        xtime(xtime(xtime(110u8))) ^ 110u8 == 51u8 &&
        xtime(xtime(xtime(111u8))) ^ 111u8 == 58u8 &&
        xtime(xtime(xtime(112u8))) ^ 112u8 == 221u8 &&
        xtime(xtime(xtime(113u8))) ^ 113u8 == 212u8 &&
        xtime(xtime(xtime(114u8))) ^ 114u8 == 207u8 &&
        xtime(xtime(xtime(115u8))) ^ 115u8 == 198u8 &&
        xtime(xtime(xtime(116u8))) ^ 116u8 == 249u8 &&
        xtime(xtime(xtime(117u8))) ^ 117u8 == 240u8 &&
        xtime(xtime(xtime(118u8))) ^ 118u8 == 235u8 &&
        xtime(xtime(xtime(119u8))) ^ 119u8 == 226u8 &&
        xtime(xtime(xtime(120u8))) ^ 120u8 == 149u8 &&
        xtime(xtime(xtime(121u8))) ^ 121u8 == 156u8 &&
        xtime(xtime(xtime(122u8))) ^ 122u8 == 135u8 &&
        xtime(xtime(xtime(123u8))) ^ 123u8 == 142u8 &&
        xtime(xtime(xtime(124u8))) ^ 124u8 == 177u8 &&
        xtime(xtime(xtime(125u8))) ^ 125u8 == 184u8 &&
        xtime(xtime(xtime(126u8))) ^ 126u8 == 163u8 &&
        xtime(xtime(xtime(127u8))) ^ 127u8 == 170u8 &&
        xtime(xtime(xtime(128u8))) ^ 128u8 == 236u8 &&
        xtime(xtime(xtime(129u8))) ^ 129u8 == 229u8 &&
        xtime(xtime(xtime(130u8))) ^ 130u8 == 254u8 &&
        xtime(xtime(xtime(131u8))) ^ 131u8 == 247u8 &&
        xtime(xtime(xtime(132u8))) ^ 132u8 == 200u8 &&
        xtime(xtime(xtime(133u8))) ^ 133u8 == 193u8 &&
        xtime(xtime(xtime(134u8))) ^ 134u8 == 218u8 &&
        xtime(xtime(xtime(135u8))) ^ 135u8 == 211u8 &&
        xtime(xtime(xtime(136u8))) ^ 136u8 == 164u8 &&
        xtime(xtime(xtime(137u8))) ^ 137u8 == 173u8 &&
        xtime(xtime(xtime(138u8))) ^ 138u8 == 182u8 &&
        xtime(xtime(xtime(139u8))) ^ 139u8 == 191u8 &&
        xtime(xtime(xtime(140u8))) ^ 140u8 == 128u8 &&
        xtime(xtime(xtime(141u8))) ^ 141u8 == 137u8 &&
        xtime(xtime(xtime(142u8))) ^ 142u8 == 146u8 &&
        xtime(xtime(xtime(143u8))) ^ 143u8 == 155u8 &&
        xtime(xtime(xtime(144u8))) ^ 144u8 == 124u8 &&
        xtime(xtime(xtime(145u8))) ^ 145u8 == 117u8 &&
        xtime(xtime(xtime(146u8))) ^ 146u8 == 110u8 &&
        xtime(xtime(xtime(147u8))) ^ 147u8 == 103u8 &&
        xtime(xtime(xtime(148u8))) ^ 148u8 == 88u8 &&
        xtime(xtime(xtime(149u8))) ^ 149u8 == 81u8 &&
        xtime(xtime(xtime(150u8))) ^ 150u8 == 74u8 &&
        xtime(xtime(xtime(151u8))) ^ 151u8 == 67u8 &&
        xtime(xtime(xtime(152u8))) ^ 152u8 == 52u8 &&
        xtime(xtime(xtime(153u8))) ^ 153u8 == 61u8 &&
        xtime(xtime(xtime(154u8))) ^ 154u8 == 38u8 &&
        xtime(xtime(xtime(155u8))) ^ 155u8 == 47u8 &&
        xtime(xtime(xtime(156u8))) ^ 156u8 == 16u8 &&
        xtime(xtime(xtime(157u8))) ^ 157u8 == 25u8 &&
        xtime(xtime(xtime(158u8))) ^ 158u8 == 2u8 &&
        xtime(xtime(xtime(159u8))) ^ 159u8 == 11u8 &&
        xtime(xtime(xtime(160u8))) ^ 160u8 == 215u8 &&
        xtime(xtime(xtime(161u8))) ^ 161u8 == 222u8 &&
        xtime(xtime(xtime(162u8))) ^ 162u8 == 197u8 &&
        xtime(xtime(xtime(163u8))) ^ 163u8 == 204u8 &&
        xtime(xtime(xtime(164u8))) ^ 164u8 == 243u8 &&
        xtime(xtime(xtime(165u8))) ^ 165u8 == 250u8 &&
        xtime(xtime(xtime(166u8))) ^ 166u8 == 225u8 &&
        xtime(xtime(xtime(167u8))) ^ 167u8 == 232u8 &&
        xtime(xtime(xtime(168u8))) ^ 168u8 == 159u8 &&
        xtime(xtime(xtime(169u8))) ^ 169u8 == 150u8 &&
        xtime(xtime(xtime(170u8))) ^ 170u8 == 141u8 &&
        xtime(xtime(xtime(171u8))) ^ 171u8 == 132u8 &&
        xtime(xtime(xtime(172u8))) ^ 172u8 == 187u8 &&
        xtime(xtime(xtime(173u8))) ^ 173u8 == 178u8 &&
        xtime(xtime(xtime(174u8))) ^ 174u8 == 169u8 &&
        xtime(xtime(xtime(175u8))) ^ 175u8 == 160u8 &&
        xtime(xtime(xtime(176u8))) ^ 176u8 == 71u8 &&
        xtime(xtime(xtime(177u8))) ^ 177u8 == 78u8 &&
        xtime(xtime(xtime(178u8))) ^ 178u8 == 85u8 &&
        xtime(xtime(xtime(179u8))) ^ 179u8 == 92u8 &&
        xtime(xtime(xtime(180u8))) ^ 180u8 == 99u8 &&
        xtime(xtime(xtime(181u8))) ^ 181u8 == 106u8 &&
        xtime(xtime(xtime(182u8))) ^ 182u8 == 113u8 &&
        xtime(xtime(xtime(183u8))) ^ 183u8 == 120u8 &&
        xtime(xtime(xtime(184u8))) ^ 184u8 == 15u8 &&
        xtime(xtime(xtime(185u8))) ^ 185u8 == 6u8 &&
        xtime(xtime(xtime(186u8))) ^ 186u8 == 29u8 &&
        xtime(xtime(xtime(187u8))) ^ 187u8 == 20u8 &&
        xtime(xtime(xtime(188u8))) ^ 188u8 == 43u8 &&
        xtime(xtime(xtime(189u8))) ^ 189u8 == 34u8 &&
        xtime(xtime(xtime(190u8))) ^ 190u8 == 57u8 &&
        xtime(xtime(xtime(191u8))) ^ 191u8 == 48u8 &&
        xtime(xtime(xtime(192u8))) ^ 192u8 == 154u8 &&
        xtime(xtime(xtime(193u8))) ^ 193u8 == 147u8 &&
        xtime(xtime(xtime(194u8))) ^ 194u8 == 136u8 &&
        xtime(xtime(xtime(195u8))) ^ 195u8 == 129u8 &&
        xtime(xtime(xtime(196u8))) ^ 196u8 == 190u8 &&
        xtime(xtime(xtime(197u8))) ^ 197u8 == 183u8 &&
        xtime(xtime(xtime(198u8))) ^ 198u8 == 172u8 &&
        xtime(xtime(xtime(199u8))) ^ 199u8 == 165u8 &&
        xtime(xtime(xtime(200u8))) ^ 200u8 == 210u8 &&
        xtime(xtime(xtime(201u8))) ^ 201u8 == 219u8 &&
        xtime(xtime(xtime(202u8))) ^ 202u8 == 192u8 &&
        xtime(xtime(xtime(203u8))) ^ 203u8 == 201u8 &&
        xtime(xtime(xtime(204u8))) ^ 204u8 == 246u8 &&
        xtime(xtime(xtime(205u8))) ^ 205u8 == 255u8 &&
        xtime(xtime(xtime(206u8))) ^ 206u8 == 228u8 &&
        xtime(xtime(xtime(207u8))) ^ 207u8 == 237u8 &&
        xtime(xtime(xtime(208u8))) ^ 208u8 == 10u8 &&
        xtime(xtime(xtime(209u8))) ^ 209u8 == 3u8 &&
        xtime(xtime(xtime(210u8))) ^ 210u8 == 24u8 &&
        xtime(xtime(xtime(211u8))) ^ 211u8 == 17u8 &&
        xtime(xtime(xtime(212u8))) ^ 212u8 == 46u8 &&
        xtime(xtime(xtime(213u8))) ^ 213u8 == 39u8 &&
        xtime(xtime(xtime(214u8))) ^ 214u8 == 60u8 &&
        xtime(xtime(xtime(215u8))) ^ 215u8 == 53u8 &&
        xtime(xtime(xtime(216u8))) ^ 216u8 == 66u8 &&
        xtime(xtime(xtime(217u8))) ^ 217u8 == 75u8 &&
        xtime(xtime(xtime(218u8))) ^ 218u8 == 80u8 &&
        xtime(xtime(xtime(219u8))) ^ 219u8 == 89u8 &&
        xtime(xtime(xtime(220u8))) ^ 220u8 == 102u8 &&
        xtime(xtime(xtime(221u8))) ^ 221u8 == 111u8 &&
        xtime(xtime(xtime(222u8))) ^ 222u8 == 116u8 &&
        xtime(xtime(xtime(223u8))) ^ 223u8 == 125u8 &&
        xtime(xtime(xtime(224u8))) ^ 224u8 == 161u8 &&
        xtime(xtime(xtime(225u8))) ^ 225u8 == 168u8 &&
        xtime(xtime(xtime(226u8))) ^ 226u8 == 179u8 &&
        xtime(xtime(xtime(227u8))) ^ 227u8 == 186u8 &&
        xtime(xtime(xtime(228u8))) ^ 228u8 == 133u8 &&
        xtime(xtime(xtime(229u8))) ^ 229u8 == 140u8 &&
        xtime(xtime(xtime(230u8))) ^ 230u8 == 151u8 &&
        xtime(xtime(xtime(231u8))) ^ 231u8 == 158u8 &&
        xtime(xtime(xtime(232u8))) ^ 232u8 == 233u8 &&
        xtime(xtime(xtime(233u8))) ^ 233u8 == 224u8 &&
        xtime(xtime(xtime(234u8))) ^ 234u8 == 251u8 &&
        xtime(xtime(xtime(235u8))) ^ 235u8 == 242u8 &&
        xtime(xtime(xtime(236u8))) ^ 236u8 == 205u8 &&
        xtime(xtime(xtime(237u8))) ^ 237u8 == 196u8 &&
        xtime(xtime(xtime(238u8))) ^ 238u8 == 223u8 &&
        xtime(xtime(xtime(239u8))) ^ 239u8 == 214u8 &&
        xtime(xtime(xtime(240u8))) ^ 240u8 == 49u8 &&
        xtime(xtime(xtime(241u8))) ^ 241u8 == 56u8 &&
        xtime(xtime(xtime(242u8))) ^ 242u8 == 35u8 &&
        xtime(xtime(xtime(243u8))) ^ 243u8 == 42u8 &&
        xtime(xtime(xtime(244u8))) ^ 244u8 == 21u8 &&
        xtime(xtime(xtime(245u8))) ^ 245u8 == 28u8 &&
        xtime(xtime(xtime(246u8))) ^ 246u8 == 7u8 &&
        xtime(xtime(xtime(247u8))) ^ 247u8 == 14u8 &&
        xtime(xtime(xtime(248u8))) ^ 248u8 == 121u8 &&
        xtime(xtime(xtime(249u8))) ^ 249u8 == 112u8 &&
        xtime(xtime(xtime(250u8))) ^ 250u8 == 107u8 &&
        xtime(xtime(xtime(251u8))) ^ 251u8 == 98u8 &&
        xtime(xtime(xtime(252u8))) ^ 252u8 == 93u8 &&
        xtime(xtime(xtime(253u8))) ^ 253u8 == 84u8 &&
        xtime(xtime(xtime(254u8))) ^ 254u8 == 79u8 &&
        xtime(xtime(xtime(255u8))) ^ 255u8 == 70u8,
{
    reveal(xtime);
    assert(
        xtime(xtime(xtime(0u8))) ^ 0u8 == 0u8 &&
        xtime(xtime(xtime(1u8))) ^ 1u8 == 9u8 &&
        xtime(xtime(xtime(2u8))) ^ 2u8 == 18u8 &&
        xtime(xtime(xtime(3u8))) ^ 3u8 == 27u8 &&
        xtime(xtime(xtime(4u8))) ^ 4u8 == 36u8 &&
        xtime(xtime(xtime(5u8))) ^ 5u8 == 45u8 &&
        xtime(xtime(xtime(6u8))) ^ 6u8 == 54u8 &&
        xtime(xtime(xtime(7u8))) ^ 7u8 == 63u8 &&
        xtime(xtime(xtime(8u8))) ^ 8u8 == 72u8 &&
        xtime(xtime(xtime(9u8))) ^ 9u8 == 65u8 &&
        xtime(xtime(xtime(10u8))) ^ 10u8 == 90u8 &&
        xtime(xtime(xtime(11u8))) ^ 11u8 == 83u8 &&
        xtime(xtime(xtime(12u8))) ^ 12u8 == 108u8 &&
        xtime(xtime(xtime(13u8))) ^ 13u8 == 101u8 &&
        xtime(xtime(xtime(14u8))) ^ 14u8 == 126u8 &&
        xtime(xtime(xtime(15u8))) ^ 15u8 == 119u8 &&
        xtime(xtime(xtime(16u8))) ^ 16u8 == 144u8 &&
        xtime(xtime(xtime(17u8))) ^ 17u8 == 153u8 &&
        xtime(xtime(xtime(18u8))) ^ 18u8 == 130u8 &&
        xtime(xtime(xtime(19u8))) ^ 19u8 == 139u8 &&
        xtime(xtime(xtime(20u8))) ^ 20u8 == 180u8 &&
        xtime(xtime(xtime(21u8))) ^ 21u8 == 189u8 &&
        xtime(xtime(xtime(22u8))) ^ 22u8 == 166u8 &&
        xtime(xtime(xtime(23u8))) ^ 23u8 == 175u8 &&
        xtime(xtime(xtime(24u8))) ^ 24u8 == 216u8 &&
        xtime(xtime(xtime(25u8))) ^ 25u8 == 209u8 &&
        xtime(xtime(xtime(26u8))) ^ 26u8 == 202u8 &&
        xtime(xtime(xtime(27u8))) ^ 27u8 == 195u8 &&
        xtime(xtime(xtime(28u8))) ^ 28u8 == 252u8 &&
        xtime(xtime(xtime(29u8))) ^ 29u8 == 245u8 &&
        xtime(xtime(xtime(30u8))) ^ 30u8 == 238u8 &&
        xtime(xtime(xtime(31u8))) ^ 31u8 == 231u8 &&
        xtime(xtime(xtime(32u8))) ^ 32u8 == 59u8 &&
        xtime(xtime(xtime(33u8))) ^ 33u8 == 50u8 &&
        xtime(xtime(xtime(34u8))) ^ 34u8 == 41u8 &&
        xtime(xtime(xtime(35u8))) ^ 35u8 == 32u8 &&
        xtime(xtime(xtime(36u8))) ^ 36u8 == 31u8 &&
        xtime(xtime(xtime(37u8))) ^ 37u8 == 22u8 &&
        xtime(xtime(xtime(38u8))) ^ 38u8 == 13u8 &&
        xtime(xtime(xtime(39u8))) ^ 39u8 == 4u8 &&
        xtime(xtime(xtime(40u8))) ^ 40u8 == 115u8 &&
        xtime(xtime(xtime(41u8))) ^ 41u8 == 122u8 &&
        xtime(xtime(xtime(42u8))) ^ 42u8 == 97u8 &&
        xtime(xtime(xtime(43u8))) ^ 43u8 == 104u8 &&
        xtime(xtime(xtime(44u8))) ^ 44u8 == 87u8 &&
        xtime(xtime(xtime(45u8))) ^ 45u8 == 94u8 &&
        xtime(xtime(xtime(46u8))) ^ 46u8 == 69u8 &&
        xtime(xtime(xtime(47u8))) ^ 47u8 == 76u8 &&
        xtime(xtime(xtime(48u8))) ^ 48u8 == 171u8 &&
        xtime(xtime(xtime(49u8))) ^ 49u8 == 162u8 &&
        xtime(xtime(xtime(50u8))) ^ 50u8 == 185u8 &&
        xtime(xtime(xtime(51u8))) ^ 51u8 == 176u8 &&
        xtime(xtime(xtime(52u8))) ^ 52u8 == 143u8 &&
        xtime(xtime(xtime(53u8))) ^ 53u8 == 134u8 &&
        xtime(xtime(xtime(54u8))) ^ 54u8 == 157u8 &&
        xtime(xtime(xtime(55u8))) ^ 55u8 == 148u8 &&
        xtime(xtime(xtime(56u8))) ^ 56u8 == 227u8 &&
        xtime(xtime(xtime(57u8))) ^ 57u8 == 234u8 &&
        xtime(xtime(xtime(58u8))) ^ 58u8 == 241u8 &&
        xtime(xtime(xtime(59u8))) ^ 59u8 == 248u8 &&
        xtime(xtime(xtime(60u8))) ^ 60u8 == 199u8 &&
        xtime(xtime(xtime(61u8))) ^ 61u8 == 206u8 &&
        xtime(xtime(xtime(62u8))) ^ 62u8 == 213u8 &&
        xtime(xtime(xtime(63u8))) ^ 63u8 == 220u8 &&
        xtime(xtime(xtime(64u8))) ^ 64u8 == 118u8 &&
        xtime(xtime(xtime(65u8))) ^ 65u8 == 127u8 &&
        xtime(xtime(xtime(66u8))) ^ 66u8 == 100u8 &&
        xtime(xtime(xtime(67u8))) ^ 67u8 == 109u8 &&
        xtime(xtime(xtime(68u8))) ^ 68u8 == 82u8 &&
        xtime(xtime(xtime(69u8))) ^ 69u8 == 91u8 &&
        xtime(xtime(xtime(70u8))) ^ 70u8 == 64u8 &&
        xtime(xtime(xtime(71u8))) ^ 71u8 == 73u8 &&
        xtime(xtime(xtime(72u8))) ^ 72u8 == 62u8 &&
        xtime(xtime(xtime(73u8))) ^ 73u8 == 55u8 &&
        xtime(xtime(xtime(74u8))) ^ 74u8 == 44u8 &&
        xtime(xtime(xtime(75u8))) ^ 75u8 == 37u8 &&
        xtime(xtime(xtime(76u8))) ^ 76u8 == 26u8 &&
        xtime(xtime(xtime(77u8))) ^ 77u8 == 19u8 &&
        xtime(xtime(xtime(78u8))) ^ 78u8 == 8u8 &&
        xtime(xtime(xtime(79u8))) ^ 79u8 == 1u8 &&
        xtime(xtime(xtime(80u8))) ^ 80u8 == 230u8 &&
        xtime(xtime(xtime(81u8))) ^ 81u8 == 239u8 &&
        xtime(xtime(xtime(82u8))) ^ 82u8 == 244u8 &&
        xtime(xtime(xtime(83u8))) ^ 83u8 == 253u8 &&
        xtime(xtime(xtime(84u8))) ^ 84u8 == 194u8 &&
        xtime(xtime(xtime(85u8))) ^ 85u8 == 203u8 &&
        xtime(xtime(xtime(86u8))) ^ 86u8 == 208u8 &&
        xtime(xtime(xtime(87u8))) ^ 87u8 == 217u8 &&
        xtime(xtime(xtime(88u8))) ^ 88u8 == 174u8 &&
        xtime(xtime(xtime(89u8))) ^ 89u8 == 167u8 &&
        xtime(xtime(xtime(90u8))) ^ 90u8 == 188u8 &&
        xtime(xtime(xtime(91u8))) ^ 91u8 == 181u8 &&
        xtime(xtime(xtime(92u8))) ^ 92u8 == 138u8 &&
        xtime(xtime(xtime(93u8))) ^ 93u8 == 131u8 &&
        xtime(xtime(xtime(94u8))) ^ 94u8 == 152u8 &&
        xtime(xtime(xtime(95u8))) ^ 95u8 == 145u8 &&
        xtime(xtime(xtime(96u8))) ^ 96u8 == 77u8 &&
        xtime(xtime(xtime(97u8))) ^ 97u8 == 68u8 &&
        xtime(xtime(xtime(98u8))) ^ 98u8 == 95u8 &&
        xtime(xtime(xtime(99u8))) ^ 99u8 == 86u8 &&
        xtime(xtime(xtime(100u8))) ^ 100u8 == 105u8 &&
        xtime(xtime(xtime(101u8))) ^ 101u8 == 96u8 &&
        xtime(xtime(xtime(102u8))) ^ 102u8 == 123u8 &&
        xtime(xtime(xtime(103u8))) ^ 103u8 == 114u8 &&
        xtime(xtime(xtime(104u8))) ^ 104u8 == 5u8 &&
        xtime(xtime(xtime(105u8))) ^ 105u8 == 12u8 &&
        xtime(xtime(xtime(106u8))) ^ 106u8 == 23u8 &&
        xtime(xtime(xtime(107u8))) ^ 107u8 == 30u8 &&
        xtime(xtime(xtime(108u8))) ^ 108u8 == 33u8 &&
        xtime(xtime(xtime(109u8))) ^ 109u8 == 40u8 &&
        xtime(xtime(xtime(110u8))) ^ 110u8 == 51u8 &&
        xtime(xtime(xtime(111u8))) ^ 111u8 == 58u8 &&
        xtime(xtime(xtime(112u8))) ^ 112u8 == 221u8 &&
        xtime(xtime(xtime(113u8))) ^ 113u8 == 212u8 &&
        xtime(xtime(xtime(114u8))) ^ 114u8 == 207u8 &&
        xtime(xtime(xtime(115u8))) ^ 115u8 == 198u8 &&
        xtime(xtime(xtime(116u8))) ^ 116u8 == 249u8 &&
        xtime(xtime(xtime(117u8))) ^ 117u8 == 240u8 &&
        xtime(xtime(xtime(118u8))) ^ 118u8 == 235u8 &&
        xtime(xtime(xtime(119u8))) ^ 119u8 == 226u8 &&
        xtime(xtime(xtime(120u8))) ^ 120u8 == 149u8 &&
        xtime(xtime(xtime(121u8))) ^ 121u8 == 156u8 &&
        xtime(xtime(xtime(122u8))) ^ 122u8 == 135u8 &&
        xtime(xtime(xtime(123u8))) ^ 123u8 == 142u8 &&
        xtime(xtime(xtime(124u8))) ^ 124u8 == 177u8 &&
        xtime(xtime(xtime(125u8))) ^ 125u8 == 184u8 &&
        xtime(xtime(xtime(126u8))) ^ 126u8 == 163u8 &&
        xtime(xtime(xtime(127u8))) ^ 127u8 == 170u8 &&
        xtime(xtime(xtime(128u8))) ^ 128u8 == 236u8 &&
        xtime(xtime(xtime(129u8))) ^ 129u8 == 229u8 &&
        xtime(xtime(xtime(130u8))) ^ 130u8 == 254u8 &&
        xtime(xtime(xtime(131u8))) ^ 131u8 == 247u8 &&
        xtime(xtime(xtime(132u8))) ^ 132u8 == 200u8 &&
        xtime(xtime(xtime(133u8))) ^ 133u8 == 193u8 &&
        xtime(xtime(xtime(134u8))) ^ 134u8 == 218u8 &&
        xtime(xtime(xtime(135u8))) ^ 135u8 == 211u8 &&
        xtime(xtime(xtime(136u8))) ^ 136u8 == 164u8 &&
        xtime(xtime(xtime(137u8))) ^ 137u8 == 173u8 &&
        xtime(xtime(xtime(138u8))) ^ 138u8 == 182u8 &&
        xtime(xtime(xtime(139u8))) ^ 139u8 == 191u8 &&
        xtime(xtime(xtime(140u8))) ^ 140u8 == 128u8 &&
        xtime(xtime(xtime(141u8))) ^ 141u8 == 137u8 &&
        xtime(xtime(xtime(142u8))) ^ 142u8 == 146u8 &&
        xtime(xtime(xtime(143u8))) ^ 143u8 == 155u8 &&
        xtime(xtime(xtime(144u8))) ^ 144u8 == 124u8 &&
        xtime(xtime(xtime(145u8))) ^ 145u8 == 117u8 &&
        xtime(xtime(xtime(146u8))) ^ 146u8 == 110u8 &&
        xtime(xtime(xtime(147u8))) ^ 147u8 == 103u8 &&
        xtime(xtime(xtime(148u8))) ^ 148u8 == 88u8 &&
        xtime(xtime(xtime(149u8))) ^ 149u8 == 81u8 &&
        xtime(xtime(xtime(150u8))) ^ 150u8 == 74u8 &&
        xtime(xtime(xtime(151u8))) ^ 151u8 == 67u8 &&
        xtime(xtime(xtime(152u8))) ^ 152u8 == 52u8 &&
        xtime(xtime(xtime(153u8))) ^ 153u8 == 61u8 &&
        xtime(xtime(xtime(154u8))) ^ 154u8 == 38u8 &&
        xtime(xtime(xtime(155u8))) ^ 155u8 == 47u8 &&
        xtime(xtime(xtime(156u8))) ^ 156u8 == 16u8 &&
        xtime(xtime(xtime(157u8))) ^ 157u8 == 25u8 &&
        xtime(xtime(xtime(158u8))) ^ 158u8 == 2u8 &&
        xtime(xtime(xtime(159u8))) ^ 159u8 == 11u8 &&
        xtime(xtime(xtime(160u8))) ^ 160u8 == 215u8 &&
        xtime(xtime(xtime(161u8))) ^ 161u8 == 222u8 &&
        xtime(xtime(xtime(162u8))) ^ 162u8 == 197u8 &&
        xtime(xtime(xtime(163u8))) ^ 163u8 == 204u8 &&
        xtime(xtime(xtime(164u8))) ^ 164u8 == 243u8 &&
        xtime(xtime(xtime(165u8))) ^ 165u8 == 250u8 &&
        xtime(xtime(xtime(166u8))) ^ 166u8 == 225u8 &&
        xtime(xtime(xtime(167u8))) ^ 167u8 == 232u8 &&
        xtime(xtime(xtime(168u8))) ^ 168u8 == 159u8 &&
        xtime(xtime(xtime(169u8))) ^ 169u8 == 150u8 &&
        xtime(xtime(xtime(170u8))) ^ 170u8 == 141u8 &&
        xtime(xtime(xtime(171u8))) ^ 171u8 == 132u8 &&
        xtime(xtime(xtime(172u8))) ^ 172u8 == 187u8 &&
        xtime(xtime(xtime(173u8))) ^ 173u8 == 178u8 &&
        xtime(xtime(xtime(174u8))) ^ 174u8 == 169u8 &&
        xtime(xtime(xtime(175u8))) ^ 175u8 == 160u8 &&
        xtime(xtime(xtime(176u8))) ^ 176u8 == 71u8 &&
        xtime(xtime(xtime(177u8))) ^ 177u8 == 78u8 &&
        xtime(xtime(xtime(178u8))) ^ 178u8 == 85u8 &&
        xtime(xtime(xtime(179u8))) ^ 179u8 == 92u8 &&
        xtime(xtime(xtime(180u8))) ^ 180u8 == 99u8 &&
        xtime(xtime(xtime(181u8))) ^ 181u8 == 106u8 &&
        xtime(xtime(xtime(182u8))) ^ 182u8 == 113u8 &&
        xtime(xtime(xtime(183u8))) ^ 183u8 == 120u8 &&
        xtime(xtime(xtime(184u8))) ^ 184u8 == 15u8 &&
        xtime(xtime(xtime(185u8))) ^ 185u8 == 6u8 &&
        xtime(xtime(xtime(186u8))) ^ 186u8 == 29u8 &&
        xtime(xtime(xtime(187u8))) ^ 187u8 == 20u8 &&
        xtime(xtime(xtime(188u8))) ^ 188u8 == 43u8 &&
        xtime(xtime(xtime(189u8))) ^ 189u8 == 34u8 &&
        xtime(xtime(xtime(190u8))) ^ 190u8 == 57u8 &&
        xtime(xtime(xtime(191u8))) ^ 191u8 == 48u8 &&
        xtime(xtime(xtime(192u8))) ^ 192u8 == 154u8 &&
        xtime(xtime(xtime(193u8))) ^ 193u8 == 147u8 &&
        xtime(xtime(xtime(194u8))) ^ 194u8 == 136u8 &&
        xtime(xtime(xtime(195u8))) ^ 195u8 == 129u8 &&
        xtime(xtime(xtime(196u8))) ^ 196u8 == 190u8 &&
        xtime(xtime(xtime(197u8))) ^ 197u8 == 183u8 &&
        xtime(xtime(xtime(198u8))) ^ 198u8 == 172u8 &&
        xtime(xtime(xtime(199u8))) ^ 199u8 == 165u8 &&
        xtime(xtime(xtime(200u8))) ^ 200u8 == 210u8 &&
        xtime(xtime(xtime(201u8))) ^ 201u8 == 219u8 &&
        xtime(xtime(xtime(202u8))) ^ 202u8 == 192u8 &&
        xtime(xtime(xtime(203u8))) ^ 203u8 == 201u8 &&
        xtime(xtime(xtime(204u8))) ^ 204u8 == 246u8 &&
        xtime(xtime(xtime(205u8))) ^ 205u8 == 255u8 &&
        xtime(xtime(xtime(206u8))) ^ 206u8 == 228u8 &&
        xtime(xtime(xtime(207u8))) ^ 207u8 == 237u8 &&
        xtime(xtime(xtime(208u8))) ^ 208u8 == 10u8 &&
        xtime(xtime(xtime(209u8))) ^ 209u8 == 3u8 &&
        xtime(xtime(xtime(210u8))) ^ 210u8 == 24u8 &&
        xtime(xtime(xtime(211u8))) ^ 211u8 == 17u8 &&
        xtime(xtime(xtime(212u8))) ^ 212u8 == 46u8 &&
        xtime(xtime(xtime(213u8))) ^ 213u8 == 39u8 &&
        xtime(xtime(xtime(214u8))) ^ 214u8 == 60u8 &&
        xtime(xtime(xtime(215u8))) ^ 215u8 == 53u8 &&
        xtime(xtime(xtime(216u8))) ^ 216u8 == 66u8 &&
        xtime(xtime(xtime(217u8))) ^ 217u8 == 75u8 &&
        xtime(xtime(xtime(218u8))) ^ 218u8 == 80u8 &&
        xtime(xtime(xtime(219u8))) ^ 219u8 == 89u8 &&
        xtime(xtime(xtime(220u8))) ^ 220u8 == 102u8 &&
        xtime(xtime(xtime(221u8))) ^ 221u8 == 111u8 &&
        xtime(xtime(xtime(222u8))) ^ 222u8 == 116u8 &&
        xtime(xtime(xtime(223u8))) ^ 223u8 == 125u8 &&
        xtime(xtime(xtime(224u8))) ^ 224u8 == 161u8 &&
        xtime(xtime(xtime(225u8))) ^ 225u8 == 168u8 &&
        xtime(xtime(xtime(226u8))) ^ 226u8 == 179u8 &&
        xtime(xtime(xtime(227u8))) ^ 227u8 == 186u8 &&
        xtime(xtime(xtime(228u8))) ^ 228u8 == 133u8 &&
        xtime(xtime(xtime(229u8))) ^ 229u8 == 140u8 &&
        xtime(xtime(xtime(230u8))) ^ 230u8 == 151u8 &&
        xtime(xtime(xtime(231u8))) ^ 231u8 == 158u8 &&
        xtime(xtime(xtime(232u8))) ^ 232u8 == 233u8 &&
        xtime(xtime(xtime(233u8))) ^ 233u8 == 224u8 &&
        xtime(xtime(xtime(234u8))) ^ 234u8 == 251u8 &&
        xtime(xtime(xtime(235u8))) ^ 235u8 == 242u8 &&
        xtime(xtime(xtime(236u8))) ^ 236u8 == 205u8 &&
        xtime(xtime(xtime(237u8))) ^ 237u8 == 196u8 &&
        xtime(xtime(xtime(238u8))) ^ 238u8 == 223u8 &&
        xtime(xtime(xtime(239u8))) ^ 239u8 == 214u8 &&
        xtime(xtime(xtime(240u8))) ^ 240u8 == 49u8 &&
        xtime(xtime(xtime(241u8))) ^ 241u8 == 56u8 &&
        xtime(xtime(xtime(242u8))) ^ 242u8 == 35u8 &&
        xtime(xtime(xtime(243u8))) ^ 243u8 == 42u8 &&
        xtime(xtime(xtime(244u8))) ^ 244u8 == 21u8 &&
        xtime(xtime(xtime(245u8))) ^ 245u8 == 28u8 &&
        xtime(xtime(xtime(246u8))) ^ 246u8 == 7u8 &&
        xtime(xtime(xtime(247u8))) ^ 247u8 == 14u8 &&
        xtime(xtime(xtime(248u8))) ^ 248u8 == 121u8 &&
        xtime(xtime(xtime(249u8))) ^ 249u8 == 112u8 &&
        xtime(xtime(xtime(250u8))) ^ 250u8 == 107u8 &&
        xtime(xtime(xtime(251u8))) ^ 251u8 == 98u8 &&
        xtime(xtime(xtime(252u8))) ^ 252u8 == 93u8 &&
        xtime(xtime(xtime(253u8))) ^ 253u8 == 84u8 &&
        xtime(xtime(xtime(254u8))) ^ 254u8 == 79u8 &&
        xtime(xtime(xtime(255u8))) ^ 255u8 == 70u8
    ) by (bit_vector);
}

/// The table of products by 9 holds `gf_mul(x, 9)` at index `x`.
pub proof fn lemma_gmul9_table()
    ensures
        forall|x: u8| #[trigger] GMUL9[x as int] == gf_mul(x, 9),
{
    lemma_gmul9_values();
    assert forall|x: u8| #[trigger] GMUL9[x as int] == gf_mul(x, 9) by {
        lemma_gf_mul_9(x);
        lemma_u8_cases(x);
    }
}

/// Products by 11, written with doublings.
pub proof fn lemma_gf_mul_11(x: u8)
    ensures
        gf_mul(x, 11) == xtime(xtime(xtime(x))) ^ xtime(x) ^ x,
{
    reveal_with_fuel(gf_mul, 5);
    let x2 = xtime(x);
    let x4 = xtime(x2);
    let x8 = xtime(x4);
    lemma_xor_zero(x);
    lemma_xor_zero(x2);
    lemma_xor_zero(x4);
    lemma_xor_zero(x8);
    assert(x ^ (x2 ^ x8) == x8 ^ x2 ^ x) by (bit_vector);
}

/// The entries of the table of products by 11, computed with doublings.
proof fn lemma_gmul11_values()
    ensures
        xtime(xtime(xtime(0u8))) ^ xtime(0u8) ^ 0u8 == 0u8 &&
        xtime(xtime(xtime(1u8))) ^ xtime(1u8) ^ 1u8 == 11u8 &&
        xtime(xtime(xtime(2u8))) ^ xtime(2u8) ^ 2u8 == 22u8 &&
        xtime(xtime(xtime(3u8))) ^ xtime(3u8) ^ 3u8 == 29u8 &&
        xtime(xtime(xtime(4u8))) ^ xtime(4u8) ^ 4u8 == 44u8 &&
        xtime(xtime(xtime(5u8))) ^ xtime(5u8) ^ 5u8 == 39u8 &&
        xtime(xtime(xtime(6u8))) ^ xtime(6u8) ^ 6u8 == 58u8 &&
        xtime(xtime(xtime(7u8))) ^ xtime(7u8) ^ 7u8 == 49u8 &&
        xtime(xtime(xtime(8u8))) ^ xtime(8u8) ^ 8u8 == 88u8 &&
        xtime(xtime(xtime(9u8))) ^ xtime(9u8) ^ 9u8 == 83u8 &&
        xtime(xtime(xtime(10u8))) ^ xtime(10u8) ^ 10u8 == 78u8 &&
        xtime(xtime(xtime(11u8))) ^ xtime(11u8) ^ 11u8 == 69u8 &&
        xtime(xtime(xtime(12u8))) ^ xtime(12u8) ^ 12u8 == 116u8 &&
        xtime(xtime(xtime(13u8))) ^ xtime(13u8) ^ 13u8 == 127u8 &&
        xtime(xtime(xtime(14u8))) ^ xtime(14u8) ^ 14u8 == 98u8 &&
        xtime(xtime(xtime(15u8))) ^ xtime(15u8) ^ 15u8 == 105u8 &&
        xtime(xtime(xtime(16u8))) ^ xtime(16u8) ^ 16u8 == 176u8 &&
        xtime(xtime(xtime(17u8))) ^ xtime(17u8) ^ 17u8 == 187u8 &&
        xtime(xtime(xtime(18u8))) ^ xtime(18u8) ^ 18u8 == 166u8 &&
        xtime(xtime(xtime(19u8))) ^ xtime(19u8) ^ 19u8 == 173u8 &&
        xtime(xtime(xtime(20u8))) ^ xtime(20u8) ^ 20u8 == 156u8 &&
        xtime(xtime(xtime(21u8))) ^ xtime(21u8) ^ 21u8 == 151u8 &&
        xtime(xtime(xtime(22u8))) ^ xtime(22u8) ^ 22u8 == 138u8 &&
        xtime(xtime(xtime(23u8))) ^ xtime(23u8) ^ 23u8 == 129u8 &&
        xtime(xtime(xtime(24u8))) ^ xtime(24u8) ^ 24u8 == 232u8 &&
        xtime(xtime(xtime(25u8))) ^ xtime(25u8) ^ 25u8 == 227u8 &&
        xtime(xtime(xtime(26u8))) ^ xtime(26u8) ^ 26u8 == 254u8 &&
        xtime(xtime(xtime(27u8))) ^ xtime(27u8) ^ 27u8 == 245u8 &&
        xtime(xtime(xtime(28u8))) ^ xtime(28u8) ^ 28u8 == 196u8 &&
        xtime(xtime(xtime(29u8))) ^ xtime(29u8) ^ 29u8 == 207u8 &&
        xtime(xtime(xtime(30u8))) ^ xtime(30u8) ^ 30u8 == 210u8 &&
        xtime(xtime(xtime(31u8))) ^ xtime(31u8) ^ 31u8 == 217u8 &&
        xtime(xtime(xtime(32u8))) ^ xtime(32u8) ^ 32u8 == 123u8 &&
        xtime(xtime(xtime(33u8))) ^ xtime(33u8) ^ 33u8 == 112u8 &&
        xtime(xtime(xtime(34u8))) ^ xtime(34u8) ^ 34u8 == 109u8 &&
        xtime(xtime(xtime(35u8))) ^ xtime(35u8) ^ 35u8 == 102u8 &&
        xtime(xtime(xtime(36u8))) ^ xtime(36u8) ^ 36u8 == 87u8 &&
        xtime(xtime(xtime(37u8))) ^ xtime(37u8) ^ 37u8 == 92u8 &&
        xtime(xtime(xtime(38u8))) ^ xtime(38u8) ^ 38u8 == 65u8 &&
        xtime(xtime(xtime(39u8))) ^ xtime(39u8) ^ 39u8 == 74u8 &&
        xtime(xtime(xtime(40u8))) ^ xtime(40u8) ^ 40u8 == 35u8 &&
        xtime(xtime(xtime(41u8))) ^ xtime(41u8) ^ 41u8 == 40u8 &&
        xtime(xtime(xtime(42u8))) ^ xtime(42u8) ^ 42u8 == 53u8 &&
        xtime(xtime(xtime(43u8))) ^ xtime(43u8) ^ 43u8 == 62u8 &&
        xtime(xtime(xtime(44u8))) ^ xtime(44u8) ^ 44u8 == 15u8 &&
        xtime(xtime(xtime(45u8))) ^ xtime(45u8) ^ 45u8 == 4u8 &&
        xtime(xtime(xtime(46u8))) ^ xtime(46u8) ^ 46u8 == 25u8 &&
        xtime(xtime(xtime(47u8))) ^ xtime(47u8) ^ 47u8 == 18u8 &&
        xtime(xtime(xtime(48u8))) ^ xtime(48u8) ^ 48u8 == 203u8 &&
        xtime(xtime(xtime(49u8))) ^ xtime(49u8) ^ 49u8 == 192u8 &&
        xtime(xtime(xtime(50u8))) ^ xtime(50u8) ^ 50u8 == 221u8 &&
        xtime(xtime(xtime(51u8))) ^ xtime(51u8) ^ 51u8 == 214u8 &&
        xtime(xtime(xtime(52u8))) ^ xtime(52u8) ^ 52u8 == 231u8 &&
        xtime(xtime(xtime(53u8))) ^ xtime(53u8) ^ 53u8 == 236u8 &&
        xtime(xtime(xtime(54u8))) ^ xtime(54u8) ^ 54u8 == 241u8 &&
        xtime(xtime(xtime(55u8))) ^ xtime(55u8) ^ 55u8 == 250u8 &&
        xtime(xtime(xtime(56u8))) ^ xtime(56u8) ^ 56u8 == 147u8 &&
        xtime(xtime(xtime(57u8))) ^ xtime(57u8) ^ 57u8 == 152u8 &&
        xtime(xtime(xtime(58u8))) ^ xtime(58u8) ^ 58u8 == 133u8 &&
        xtime(xtime(xtime(59u8))) ^ xtime(59u8) ^ 59u8 == 142u8 &&
        xtime(xtime(xtime(60u8))) ^ xtime(60u8) ^ 60u8 == 191u8 &&
        xtime(xtime(xtime(61u8))) ^ xtime(61u8) ^ 61u8 == 180u8 &&
        xtime(xtime(xtime(62u8))) ^ xtime(62u8) ^ 62u8 == 169u8 &&
        xtime(xtime(xtime(63u8))) ^ xtime(63u8) ^ 63u8 == 162u8 &&
        xtime(xtime(xtime(64u8))) ^ xtime(64u8) ^ 64u8 == 246u8 &&
        xtime(xtime(xtime(65u8))) ^ xtime(65u8) ^ 65u8 == 253u8 &&
        xtime(xtime(xtime(66u8))) ^ xtime(66u8) ^ 66u8 == 224u8 &&
        xtime(xtime(xtime(67u8))) ^ xtime(67u8) ^ 67u8 == 235u8 &&
        xtime(xtime(xtime(68u8))) ^ xtime(68u8) ^ 68u8 == 218u8 &&
        xtime(xtime(xtime(69u8))) ^ xtime(69u8) ^ 69u8 == 209u8 &&
        xtime(xtime(xtime(70u8))) ^ xtime(70u8) ^ 70u8 == 204u8 &&
        xtime(xtime(xtime(71u8))) ^ xtime(71u8) ^ 71u8 == 199u8 &&
        xtime(xtime(xtime(72u8))) ^ xtime(72u8) ^ 72u8 == 174u8 &&
        xtime(xtime(xtime(73u8))) ^ xtime(73u8) ^ 73u8 == 165u8 &&
        xtime(xtime(xtime(74u8))) ^ xtime(74u8) ^ 74u8 == 184u8 &&
        xtime(xtime(xtime(75u8))) ^ xtime(75u8) ^ 75u8 == 179u8 &&
        xtime(xtime(xtime(76u8))) ^ xtime(76u8) ^ 76u8 == 130u8 &&
        xtime(xtime(xtime(77u8))) ^ xtime(77u8) ^ 77u8 == 137u8 &&
        xtime(xtime(xtime(78u8))) ^ xtime(78u8) ^ 78u8 == 148u8 &&
        xtime(xtime(xtime(79u8))) ^ xtime(79u8) ^ 79u8 == 159u8 &&
        xtime(xtime(xtime(80u8))) ^ xtime(80u8) ^ 80u8 == 70u8 &&
        xtime(xtime(xtime(81u8))) ^ xtime(81u8) ^ 81u8 == 77u8 &&
        xtime(xtime(xtime(82u8))) ^ xtime(82u8) ^ 82u8 == 80u8 &&
        xtime(xtime(xtime(83u8))) ^ xtime(83u8) ^ 83u8 == 91u8 &&
        xtime(xtime(xtime(84u8))) ^ xtime(84u8) ^ 84u8 == 106u8 &&
        xtime(xtime(xtime(85u8))) ^ xtime(85u8) ^ 85u8 == 97u8 &&
        xtime(xtime(xtime(86u8))) ^ xtime(86u8) ^ 86u8 == 124u8 &&
        xtime(xtime(xtime(87u8))) ^ xtime(87u8) ^ 87u8 == 119u8 &&
        xtime(xtime(xtime(88u8))) ^ xtime(88u8) ^ 88u8 == 30u8 &&
        xtime(xtime(xtime(89u8))) ^ xtime(89u8) ^ 89u8 == 21u8 &&
        xtime(xtime(xtime(90u8))) ^ xtime(90u8) ^ 90u8 == 8u8 &&
        xtime(xtime(xtime(91u8))) ^ xtime(91u8) ^ 91u8 == 3u8 &&
        xtime(xtime(xtime(92u8))) ^ xtime(92u8) ^ 92u8 == 50u8 &&
        xtime(xtime(xtime(93u8))) ^ xtime(93u8) ^ 93u8 == 57u8 &&
        xtime(xtime(xtime(94u8))) ^ xtime(94u8) ^ 94u8 == 36u8 &&
        xtime(xtime(xtime(95u8))) ^ xtime(95u8) ^ 95u8 == 47u8 &&
        xtime(xtime(xtime(96u8))) ^ xtime(96u8) ^ 96u8 == 141u8 &&
        xtime(xtime(xtime(97u8))) ^ xtime(97u8) ^ 97u8 == 134u8 &&
        xtime(xtime(xtime(98u8))) ^ xtime(98u8) ^ 98u8 == 155u8 &&
        xtime(xtime(xtime(99u8))) ^ xtime(99u8) ^ 99u8 == 144u8 &&
        xtime(xtime(xtime(100u8))) ^ xtime(100u8) ^ 100u8 == 161u8 &&
        xtime(xtime(xtime(101u8))) ^ xtime(101u8) ^ 101u8 == 170u8 &&
        xtime(xtime(xtime(102u8))) ^ xtime(102u8) ^ 102u8 == 183u8 &&
        xtime(xtime(xtime(103u8))) ^ xtime(103u8) ^ 103u8 == 188u8 &&
        xtime(xtime(xtime(104u8))) ^ xtime(104u8) ^ 104u8 == 213u8 &&
        xtime(xtime(xtime(105u8))) ^ xtime(105u8) ^ 105u8 == 222u8 &&
        xtime(xtime(xtime(106u8))) ^ xtime(106u8) ^ 106u8 == 195u8 &&
        xtime(xtime(xtime(107u8))) ^ xtime(107u8) ^ 107u8 == 200u8 &&
        xtime(xtime(xtime(108u8))) ^ xtime(108u8) ^ 108u8 == 249u8 &&
        xtime(xtime(xtime(109u8))) ^ xtime(109u8) ^ 109u8 == 242u8 &&
        xtime(xtime(xtime(110u8))) ^ xtime(110u8) ^ 110u8 == 239u8 &&
        xtime(xtime(xtime(111u8))) ^ xtime(111u8) ^ 111u8 == 228u8 &&
        xtime(xtime(xtime(112u8))) ^ xtime(112u8) ^ 112u8 == 61u8 &&
        xtime(xtime(xtime(113u8))) ^ xtime(113u8) ^ 113u8 == 54u8 &&
        xtime(xtime(xtime(114u8))) ^ xtime(114u8) ^ 114u8 == 43u8 &&
        xtime(xtime(xtime(115u8))) ^ xtime(115u8) ^ 115u8 == 32u8 &&
        xtime(xtime(xtime(116u8))) ^ xtime(116u8) ^ 116u8 == 17u8 &&
        xtime(xtime(xtime(117u8))) ^ xtime(117u8) ^ 117u8 == 26u8 &&
        xtime(xtime(xtime(118u8))) ^ xtime(118u8) ^ 118u8 == 7u8 &&
        xtime(xtime(xtime(119u8))) ^ xtime(119u8) ^ 119u8 == 12u8 &&
        xtime(xtime(xtime(120u8))) ^ xtime(120u8) ^ 120u8 == 101u8 &&
        xtime(xtime(xtime(121u8))) ^ xtime(121u8) ^ 121u8 == 110u8 &&
        xtime(xtime(xtime(122u8))) ^ xtime(122u8) ^ 122u8 == 115u8 &&
        xtime(xtime(xtime(123u8))) ^ xtime(123u8) ^ 123u8 == 120u8 &&
        xtime(xtime(xtime(124u8))) ^ xtime(124u8) ^ 124u8 == 73u8 &&
        xtime(xtime(xtime(125u8))) ^ xtime(125u8) ^ 125u8 == 66u8 &&
        xtime(xtime(xtime(126u8))) ^ xtime(126u8) ^ 126u8 == 95u8 &&
        xtime(xtime(xtime(127u8))) ^ xtime(127u8) ^ 127u8 == 84u8 &&
        xtime(xtime(xtime(128u8))) ^ xtime(128u8) ^ 128u8 == 247u8 &&
        xtime(xtime(xtime(129u8))) ^ xtime(129u8) ^ 129u8 == 252u8 &&
        xtime(xtime(xtime(130u8))) ^ xtime(130u8) ^ 130u8 == 225u8 &&
        xtime(xtime(xtime(131u8))) ^ xtime(131u8) ^ 131u8 == 234u8 &&
        xtime(xtime(xtime(132u8))) ^ xtime(132u8) ^ 132u8 == 219u8 &&
        xtime(xtime(xtime(133u8))) ^ xtime(133u8) ^ 133u8 == 208u8 &&
        xtime(xtime(xtime(134u8))) ^ xtime(134u8) ^ 134u8 == 205u8 &&
        xtime(xtime(xtime(135u8))) ^ xtime(135u8) ^ 135u8 == 198u8 &&
        xtime(xtime(xtime(136u8))) ^ xtime(136u8) ^ 136u8 == 175u8 &&
        xtime(xtime(xtime(137u8))) ^ xtime(137u8) ^ 137u8 == 164u8 &&
        xtime(xtime(xtime(138u8))) ^ xtime(138u8) ^ 138u8 == 185u8 &&
        xtime(xtime(xtime(139u8))) ^ xtime(139u8) ^ 139u8 == 178u8 &&
        xtime(xtime(xtime(140u8))) ^ xtime(140u8) ^ 140u8 == 131u8 &&
        xtime(xtime(xtime(141u8))) ^ xtime(141u8) ^ 141u8 == 136u8 &&
        xtime(xtime(xtime(142u8))) ^ xtime(142u8) ^ 142u8 == 149u8 &&
        xtime(xtime(xtime(143u8))) ^ xtime(143u8) ^ 143u8 == 158u8 &&
        xtime(xtime(xtime(144u8))) ^ xtime(144u8) ^ 144u8 == 71u8 &&
        xtime(xtime(xtime(145u8))) ^ xtime(145u8) ^ 145u8 == 76u8 &&
        xtime(xtime(xtime(146u8))) ^ xtime(146u8) ^ 146u8 == 81u8 &&
        xtime(xtime(xtime(147u8))) ^ xtime(147u8) ^ 147u8 == 90u8 &&
        xtime(xtime(xtime(148u8))) ^ xtime(148u8) ^ 148u8 == 107u8 &&
        xtime(xtime(xtime(149u8))) ^ xtime(149u8) ^ 149u8 == 96u8 &&
        xtime(xtime(xtime(150u8))) ^ xtime(150u8) ^ 150u8 == 125u8 &&
        xtime(xtime(xtime(151u8))) ^ xtime(151u8) ^ 151u8 == 118u8 &&
        xtime(xtime(xtime(152u8))) ^ xtime(152u8) ^ 152u8 == 31u8 &&
        xtime(xtime(xtime(153u8))) ^ xtime(153u8) ^ 153u8 == 20u8 &&
        xtime(xtime(xtime(154u8))) ^ xtime(154u8) ^ 154u8 == 9u8 &&
        xtime(xtime(xtime(155u8))) ^ xtime(155u8) ^ 155u8 == 2u8 &&
        xtime(xtime(xtime(156u8))) ^ xtime(156u8) ^ 156u8 == 51u8 &&
        xtime(xtime(xtime(157u8))) ^ xtime(157u8) ^ 157u8 == 56u8 &&
        xtime(xtime(xtime(158u8))) ^ xtime(158u8) ^ 158u8 == 37u8 &&
        xtime(xtime(xtime(159u8))) ^ xtime(159u8) ^ 159u8 == 46u8 &&
        xtime(xtime(xtime(160u8))) ^ xtime(160u8) ^ 160u8 == 140u8 &&
        xtime(xtime(xtime(161u8))) ^ xtime(161u8) ^ 161u8 == 135u8 &&
        xtime(xtime(xtime(162u8))) ^ xtime(162u8) ^ 162u8 == 154u8 &&
        xtime(xtime(xtime(163u8))) ^ xtime(163u8) ^ 163u8 == 145u8 &&
        xtime(xtime(xtime(164u8))) ^ xtime(164u8) ^ 164u8 == 160u8 &&
        xtime(xtime(xtime(165u8))) ^ xtime(165u8) ^ 165u8 == 171u8 &&
        xtime(xtime(xtime(166u8))) ^ xtime(166u8) ^ 166u8 == 182u8 &&
        xtime(xtime(xtime(167u8))) ^ xtime(167u8) ^ 167u8 == 189u8 &&
        xtime(xtime(xtime(168u8))) ^ xtime(168u8) ^ 168u8 == 212u8 &&
        xtime(xtime(xtime(169u8))) ^ xtime(169u8) ^ 169u8 == 223u8 &&
        xtime(xtime(xtime(170u8))) ^ xtime(170u8) ^ 170u8 == 194u8 &&
        xtime(xtime(xtime(171u8))) ^ xtime(171u8) ^ 171u8 == 201u8 &&
        xtime(xtime(xtime(172u8))) ^ xtime(172u8) ^ 172u8 == 248u8 &&
        xtime(xtime(xtime(173u8))) ^ xtime(173u8) ^ 173u8 == 243u8 &&
        xtime(xtime(xtime(174u8))) ^ xtime(174u8) ^ 174u8 == 238u8 &&
        xtime(xtime(xtime(175u8))) ^ xtime(175u8) ^ 175u8 == 229u8 &&
        xtime(xtime(xtime(176u8))) ^ xtime(176u8) ^ 176u8 == 60u8 &&
        xtime(xtime(xtime(177u8))) ^ xtime(177u8) ^ 177u8 == 55u8 &&
        xtime(xtime(xtime(178u8))) ^ xtime(178u8) ^ 178u8 == 42u8 &&
        xtime(xtime(xtime(179u8))) ^ xtime(179u8) ^ 179u8 == 33u8 &&
        xtime(xtime(xtime(180u8))) ^ xtime(180u8) ^ 180u8 == 16u8 &&
        xtime(xtime(xtime(181u8))) ^ xtime(181u8) ^ 181u8 == 27u8 &&
        xtime(xtime(xtime(182u8))) ^ xtime(182u8) ^ 182u8 == 6u8 &&
        xtime(xtime(xtime(183u8))) ^ xtime(183u8) ^ 183u8 == 13u8 &&
        xtime(xtime(xtime(184u8))) ^ xtime(184u8) ^ 184u8 == 100u8 &&
        xtime(xtime(xtime(185u8))) ^ xtime(185u8) ^ 185u8 == 111u8 &&
        xtime(xtime(xtime(186u8))) ^ xtime(186u8) ^ 186u8 == 114u8 &&
        xtime(xtime(xtime(187u8))) ^ xtime(187u8) ^ 187u8 == 121u8 &&
        xtime(xtime(xtime(188u8))) ^ xtime(188u8) ^ 188u8 == 72u8 &&
        xtime(xtime(xtime(189u8))) ^ xtime(189u8) ^ 189u8 == 67u8 &&
        xtime(xtime(xtime(190u8))) ^ xtime(190u8) ^ 190u8 == 94u8 &&
        xtime(xtime(xtime(191u8))) ^ xtime(191u8) ^ 191u8 == 85u8 &&
        xtime(xtime(xtime(192u8))) ^ xtime(192u8) ^ 192u8 == 1u8 &&
        xtime(xtime(xtime(193u8))) ^ xtime(193u8) ^ 193u8 == 10u8 &&
        xtime(xtime(xtime(194u8))) ^ xtime(194u8) ^ 194u8 == 23u8 &&
        xtime(xtime(xtime(195u8))) ^ xtime(195u8) ^ 195u8 == 28u8 &&
        xtime(xtime(xtime(196u8))) ^ xtime(196u8) ^ 196u8 == 45u8 &&
        xtime(xtime(xtime(197u8))) ^ xtime(197u8) ^ 197u8 == 38u8 &&
        xtime(xtime(xtime(198u8))) ^ xtime(198u8) ^ 198u8 == 59u8 &&
        xtime(xtime(xtime(199u8))) ^ xtime(199u8) ^ 199u8 == 48u8 &&
        xtime(xtime(xtime(200u8))) ^ xtime(200u8) ^ 200u8 == 89u8 &&
        xtime(xtime(xtime(201u8))) ^ xtime(201u8) ^ 201u8 == 82u8 &&
        xtime(xtime(xtime(202u8))) ^ xtime(202u8) ^ 202u8 == 79u8 &&
        xtime(xtime(xtime(203u8))) ^ xtime(203u8) ^ 203u8 == 68u8 &&
        xtime(xtime(xtime(204u8))) ^ xtime(204u8) ^ 204u8 == 117u8 &&
        xtime(xtime(xtime(205u8))) ^ xtime(205u8) ^ 205u8 == 126u8 &&
        xtime(xtime(xtime(206u8))) ^ xtime(206u8) ^ 206u8 == 99u8 &&
        xtime(xtime(xtime(207u8))) ^ xtime(207u8) ^ 207u8 == 104u8 &&
        xtime(xtime(xtime(208u8))) ^ xtime(208u8) ^ 208u8 == 177u8 &&
        xtime(xtime(xtime(209u8))) ^ xtime(209u8) ^ 209u8 == 186u8 &&
        xtime(xtime(xtime(210u8))) ^ xtime(210u8) ^ 210u8 == 167u8 &&
        xtime(xtime(xtime(211u8))) ^ xtime(211u8) ^ 211u8 == 172u8 &&
        xtime(xtime(xtime(212u8))) ^ xtime(212u8) ^ 212u8 == 157u8 &&
        xtime(xtime(xtime(213u8))) ^ xtime(213u8) ^ 213u8 == 150u8 &&
        xtime(xtime(xtime(214u8))) ^ xtime(214u8) ^ 214u8 == 139u8 &&
        xtime(xtime(xtime(215u8))) ^ xtime(215u8) ^ 215u8 == 128u8 &&
        xtime(xtime(xtime(216u8))) ^ xtime(216u8) ^ 216u8 == 233u8 &&
        xtime(xtime(xtime(217u8))) ^ xtime(217u8) ^ 217u8 == 226u8 &&
        xtime(xtime(xtime(218u8))) ^ xtime(218u8) ^ 218u8 == 255u8 &&
        xtime(xtime(xtime(219u8))) ^ xtime(219u8) ^ 219u8 == 244u8 &&
        xtime(xtime(xtime(220u8))) ^ xtime(220u8) ^ 220u8 == 197u8 &&
        xtime(xtime(xtime(221u8))) ^ xtime(221u8) ^ 221u8 == 206u8 &&
        xtime(xtime(xtime(222u8))) ^ xtime(222u8) ^ 222u8 == 211u8 &&
        xtime(xtime(xtime(223u8))) ^ xtime(223u8) ^ 223u8 == 216u8 &&
        xtime(xtime(xtime(224u8))) ^ xtime(224u8) ^ 224u8 == 122u8 &&
        xtime(xtime(xtime(225u8))) ^ xtime(225u8) ^ 225u8 == 113u8 &&
        xtime(xtime(xtime(226u8))) ^ xtime(226u8) ^ 226u8 == 108u8 &&
        xtime(xtime(xtime(227u8))) ^ xtime(227u8) ^ 227u8 == 103u8 &&
        xtime(xtime(xtime(228u8))) ^ xtime(228u8) ^ 228u8 == 86u8 &&
        xtime(xtime(xtime(229u8))) ^ xtime(229u8) ^ 229u8 == 93u8 &&
        xtime(xtime(xtime(230u8))) ^ xtime(230u8) ^ 230u8 == 64u8 &&
        xtime(xtime(xtime(231u8))) ^ xtime(231u8) ^ 231u8 == 75u8 &&
        xtime(xtime(xtime(232u8))) ^ xtime(232u8) ^ 232u8 == 34u8 &&
        xtime(xtime(xtime(233u8))) ^ xtime(233u8) ^ 233u8 == 41u8 &&
        xtime(xtime(xtime(234u8))) ^ xtime(234u8) ^ 234u8 == 52u8 &&
        xtime(xtime(xtime(235u8))) ^ xtime(235u8) ^ 235u8 == 63u8 &&
        xtime(xtime(xtime(236u8))) ^ xtime(236u8) ^ 236u8 == 14u8 &&
        xtime(xtime(xtime(237u8))) ^ xtime(237u8) ^ 237u8 == 5u8 &&
        xtime(xtime(xtime(238u8))) ^ xtime(238u8) ^ 238u8 == 24u8 &&
        xtime(xtime(xtime(239u8))) ^ xtime(239u8) ^ 239u8 == 19u8 &&
        xtime(xtime(xtime(240u8))) ^ xtime(240u8) ^ 240u8 == 202u8 &&
        xtime(xtime(xtime(241u8))) ^ xtime(241u8) ^ 241u8 == 193u8 &&
        xtime(xtime(xtime(242u8))) ^ xtime(242u8) ^ 242u8 == 220u8 &&
        xtime(xtime(xtime(243u8))) ^ xtime(243u8) ^ 243u8 == 215u8 &&
        xtime(xtime(xtime(244u8))) ^ xtime(244u8) ^ 244u8 == 230u8 &&
        xtime(xtime(xtime(245u8))) ^ xtime(245u8) ^ 245u8 == 237u8 &&
        xtime(xtime(xtime(246u8))) ^ xtime(246u8) ^ 246u8 == 240u8 &&
        xtime(xtime(xtime(247u8))) ^ xtime(247u8) ^ 247u8 == 251u8 &&
        xtime(xtime(xtime(248u8))) ^ xtime(248u8) ^ 248u8 == 146u8 &&
        xtime(xtime(xtime(249u8))) ^ xtime(249u8) ^ 249u8 == 153u8 &&
        xtime(xtime(xtime(250u8))) ^ xtime(250u8) ^ 250u8 == 132u8 &&
        xtime(xtime(xtime(251u8))) ^ xtime(251u8) ^ 251u8 == 143u8 &&
        xtime(xtime(xtime(252u8))) ^ xtime(252u8) ^ 252u8 == 190u8 &&
        xtime(xtime(xtime(253u8))) ^ xtime(253u8) ^ 253u8 == 181u8 &&
        xtime(xtime(xtime(254u8))) ^ xtime(254u8) ^ 254u8 == 168u8 &&
        xtime(xtime(xtime(255u8))) ^ xtime(255u8) ^ 255u8 == 163u8,
{
    reveal(xtime);
    assert(
        xtime(xtime(xtime(0u8))) ^ xtime(0u8) ^ 0u8 == 0u8 &&
        xtime(xtime(xtime(1u8))) ^ xtime(1u8) ^ 1u8 == 11u8 &&
        xtime(xtime(xtime(2u8))) ^ xtime(2u8) ^ 2u8 == 22u8 &&
        xtime(xtime(xtime(3u8))) ^ xtime(3u8) ^ 3u8 == 29u8 &&
        xtime(xtime(xtime(4u8))) ^ xtime(4u8) ^ 4u8 == 44u8 &&
        xtime(xtime(xtime(5u8))) ^ xtime(5u8) ^ 5u8 == 39u8 &&
        xtime(xtime(xtime(6u8))) ^ xtime(6u8) ^ 6u8 == 58u8 &&
        xtime(xtime(xtime(7u8))) ^ xtime(7u8) ^ 7u8 == 49u8 &&
        xtime(xtime(xtime(8u8))) ^ xtime(8u8) ^ 8u8 == 88u8 &&
        xtime(xtime(xtime(9u8))) ^ xtime(9u8) ^ 9u8 == 83u8 &&
        xtime(xtime(xtime(10u8))) ^ xtime(10u8) ^ 10u8 == 78u8 &&
        xtime(xtime(xtime(11u8))) ^ xtime(11u8) ^ 11u8 == 69u8 &&
        xtime(xtime(xtime(12u8))) ^ xtime(12u8) ^ 12u8 == 116u8 &&
        xtime(xtime(xtime(13u8))) ^ xtime(13u8) ^ 13u8 == 127u8 &&
        xtime(xtime(xtime(14u8))) ^ xtime(14u8) ^ 14u8 == 98u8 &&
        xtime(xtime(xtime(15u8))) ^ xtime(15u8) ^ 15u8 == 105u8 &&
        xtime(xtime(xtime(16u8))) ^ xtime(16u8) ^ 16u8 == 176u8 &&
        xtime(xtime(xtime(17u8))) ^ xtime(17u8) ^ 17u8 == 187u8 &&
        xtime(xtime(xtime(18u8))) ^ xtime(18u8) ^ 18u8 == 166u8 &&
        xtime(xtime(xtime(19u8))) ^ xtime(19u8) ^ 19u8 == 173u8 &&
        xtime(xtime(xtime(20u8))) ^ xtime(20u8) ^ 20u8 == 156u8 &&
        xtime(xtime(xtime(21u8))) ^ xtime(21u8) ^ 21u8 == 151u8 &&
        xtime(xtime(xtime(22u8))) ^ xtime(22u8) ^ 22u8 == 138u8 &&
        xtime(xtime(xtime(23u8))) ^ xtime(23u8) ^ 23u8 == 129u8 &&
        xtime(xtime(xtime(24u8))) ^ xtime(24u8) ^ 24u8 == 232u8 &&
        xtime(xtime(xtime(25u8))) ^ xtime(25u8) ^ 25u8 == 227u8 &&
        xtime(xtime(xtime(26u8))) ^ xtime(26u8) ^ 26u8 == 254u8 &&
        xtime(xtime(xtime(27u8))) ^ xtime(27u8) ^ 27u8 == 245u8 &&
        xtime(xtime(xtime(28u8))) ^ xtime(28u8) ^ 28u8 == 196u8 &&
        xtime(xtime(xtime(29u8))) ^ xtime(29u8) ^ 29u8 == 207u8 &&
        xtime(xtime(xtime(30u8))) ^ xtime(30u8) ^ 30u8 == 210u8 &&
        xtime(xtime(xtime(31u8))) ^ xtime(31u8) ^ 31u8 == 217u8 &&
        xtime(xtime(xtime(32u8))) ^ xtime(32u8) ^ 32u8 == 123u8 &&
        xtime(xtime(xtime(33u8))) ^ xtime(33u8) ^ 33u8 == 112u8 &&
        xtime(xtime(xtime(34u8))) ^ xtime(34u8) ^ 34u8 == 109u8 &&
        xtime(xtime(xtime(35u8))) ^ xtime(35u8) ^ 35u8 == 102u8 &&
        xtime(xtime(xtime(36u8))) ^ xtime(36u8) ^ 36u8 == 87u8 &&
        xtime(xtime(xtime(37u8))) ^ xtime(37u8) ^ 37u8 == 92u8 &&
        xtime(xtime(xtime(38u8))) ^ xtime(38u8) ^ 38u8 == 65u8 &&
        xtime(xtime(xtime(39u8))) ^ xtime(39u8) ^ 39u8 == 74u8 &&
        xtime(xtime(xtime(40u8))) ^ xtime(40u8) ^ 40u8 == 35u8 &&
        xtime(xtime(xtime(41u8))) ^ xtime(41u8) ^ 41u8 == 40u8 &&
        xtime(xtime(xtime(42u8))) ^ xtime(42u8) ^ 42u8 == 53u8 &&
        xtime(xtime(xtime(43u8))) ^ xtime(43u8) ^ 43u8 == 62u8 &&
        xtime(xtime(xtime(44u8))) ^ xtime(44u8) ^ 44u8 == 15u8 &&
        xtime(xtime(xtime(45u8))) ^ xtime(45u8) ^ 45u8 == 4u8 &&
        xtime(xtime(xtime(46u8))) ^ xtime(46u8) ^ 46u8 == 25u8 &&
        xtime(xtime(xtime(47u8))) ^ xtime(47u8) ^ 47u8 == 18u8 &&
        xtime(xtime(xtime(48u8))) ^ xtime(48u8) ^ 48u8 == 203u8 &&
        xtime(xtime(xtime(49u8))) ^ xtime(49u8) ^ 49u8 == 192u8 &&
        xtime(xtime(xtime(50u8))) ^ xtime(50u8) ^ 50u8 == 221u8 &&
        xtime(xtime(xtime(51u8))) ^ xtime(51u8) ^ 51u8 == 214u8 &&
        xtime(xtime(xtime(52u8))) ^ xtime(52u8) ^ 52u8 == 231u8 &&
        xtime(xtime(xtime(53u8))) ^ xtime(53u8) ^ 53u8 == 236u8 &&
        xtime(xtime(xtime(54u8))) ^ xtime(54u8) ^ 54u8 == 241u8 &&
        xtime(xtime(xtime(55u8))) ^ xtime(55u8) ^ 55u8 == 250u8 &&
        xtime(xtime(xtime(56u8))) ^ xtime(56u8) ^ 56u8 == 147u8 &&
        xtime(xtime(xtime(57u8))) ^ xtime(57u8) ^ 57u8 == 152u8 &&
        xtime(xtime(xtime(58u8))) ^ xtime(58u8) ^ 58u8 == 133u8 &&
        xtime(xtime(xtime(59u8))) ^ xtime(59u8) ^ 59u8 == 142u8 &&
        xtime(xtime(xtime(60u8))) ^ xtime(60u8) ^ 60u8 == 191u8 &&
        xtime(xtime(xtime(61u8))) ^ xtime(61u8) ^ 61u8 == 180u8 &&
        xtime(xtime(xtime(62u8))) ^ xtime(62u8) ^ 62u8 == 169u8 &&
        xtime(xtime(xtime(63u8))) ^ xtime(63u8) ^ 63u8 == 162u8 &&
        xtime(xtime(xtime(64u8))) ^ xtime(64u8) ^ 64u8 == 246u8 &&
        xtime(xtime(xtime(65u8))) ^ xtime(65u8) ^ 65u8 == 253u8 &&
        xtime(xtime(xtime(66u8))) ^ xtime(66u8) ^ 66u8 == 224u8 &&
        xtime(xtime(xtime(67u8))) ^ xtime(67u8) ^ 67u8 == 235u8 &&
        xtime(xtime(xtime(68u8))) ^ xtime(68u8) ^ 68u8 == 218u8 &&
        xtime(xtime(xtime(69u8))) ^ xtime(69u8) ^ 69u8 == 209u8 &&
        xtime(xtime(xtime(70u8))) ^ xtime(70u8) ^ 70u8 == 204u8 &&
        xtime(xtime(xtime(71u8))) ^ xtime(71u8) ^ 71u8 == 199u8 &&
        xtime(xtime(xtime(72u8))) ^ xtime(72u8) ^ 72u8 == 174u8 &&
        xtime(xtime(xtime(73u8))) ^ xtime(73u8) ^ 73u8 == 165u8 &&
        xtime(xtime(xtime(74u8))) ^ xtime(74u8) ^ 74u8 == 184u8 &&
        xtime(xtime(xtime(75u8))) ^ xtime(75u8) ^ 75u8 == 179u8 &&
        xtime(xtime(xtime(76u8))) ^ xtime(76u8) ^ 76u8 == 130u8 &&
        xtime(xtime(xtime(77u8))) ^ xtime(77u8) ^ 77u8 == 137u8 &&
        xtime(xtime(xtime(78u8))) ^ xtime(78u8) ^ 78u8 == 148u8 &&
        xtime(xtime(xtime(79u8))) ^ xtime(79u8) ^ 79u8 == 159u8 &&
        xtime(xtime(xtime(80u8))) ^ xtime(80u8) ^ 80u8 == 70u8 &&
        xtime(xtime(xtime(81u8))) ^ xtime(81u8) ^ 81u8 == 77u8 &&
        xtime(xtime(xtime(82u8))) ^ xtime(82u8) ^ 82u8 == 80u8 &&
        xtime(xtime(xtime(83u8))) ^ xtime(83u8) ^ 83u8 == 91u8 &&
        xtime(xtime(xtime(84u8))) ^ xtime(84u8) ^ 84u8 == 106u8 &&
        xtime(xtime(xtime(85u8))) ^ xtime(85u8) ^ 85u8 == 97u8 &&
        xtime(xtime(xtime(86u8))) ^ xtime(86u8) ^ 86u8 == 124u8 &&
        xtime(xtime(xtime(87u8))) ^ xtime(87u8) ^ 87u8 == 119u8 &&
        xtime(xtime(xtime(88u8))) ^ xtime(88u8) ^ 88u8 == 30u8 &&
        xtime(xtime(xtime(89u8))) ^ xtime(89u8) ^ 89u8 == 21u8 &&
        xtime(xtime(xtime(90u8))) ^ xtime(90u8) ^ 90u8 == 8u8 &&
        xtime(xtime(xtime(91u8))) ^ xtime(91u8) ^ 91u8 == 3u8 &&
        xtime(xtime(xtime(92u8))) ^ xtime(92u8) ^ 92u8 == 50u8 &&
        xtime(xtime(xtime(93u8))) ^ xtime(93u8) ^ 93u8 == 57u8 &&
        xtime(xtime(xtime(94u8))) ^ xtime(94u8) ^ 94u8 == 36u8 &&
        xtime(xtime(xtime(95u8))) ^ xtime(95u8) ^ 95u8 == 47u8 &&
        xtime(xtime(xtime(96u8))) ^ xtime(96u8) ^ 96u8 == 141u8 &&
        xtime(xtime(xtime(97u8))) ^ xtime(97u8) ^ 97u8 == 134u8 &&
        xtime(xtime(xtime(98u8))) ^ xtime(98u8) ^ 98u8 == 155u8 &&
        xtime(xtime(xtime(99u8))) ^ xtime(99u8) ^ 99u8 == 144u8 &&
        xtime(xtime(xtime(100u8))) ^ xtime(100u8) ^ 100u8 == 161u8 &&
        xtime(xtime(xtime(101u8))) ^ xtime(101u8) ^ 101u8 == 170u8 &&
        xtime(xtime(xtime(102u8))) ^ xtime(102u8) ^ 102u8 == 183u8 &&
        xtime(xtime(xtime(103u8))) ^ xtime(103u8) ^ 103u8 == 188u8 &&
        xtime(xtime(xtime(104u8))) ^ xtime(104u8) ^ 104u8 == 213u8 &&
        xtime(xtime(xtime(105u8))) ^ xtime(105u8) ^ 105u8 == 222u8 &&
        xtime(xtime(xtime(106u8))) ^ xtime(106u8) ^ 106u8 == 195u8 &&
        xtime(xtime(xtime(107u8))) ^ xtime(107u8) ^ 107u8 == 200u8 &&
        xtime(xtime(xtime(108u8))) ^ xtime(108u8) ^ 108u8 == 249u8 &&
        xtime(xtime(xtime(109u8))) ^ xtime(109u8) ^ 109u8 == 242u8 &&
        xtime(xtime(xtime(110u8))) ^ xtime(110u8) ^ 110u8 == 239u8 &&
        xtime(xtime(xtime(111u8))) ^ xtime(111u8) ^ 111u8 == 228u8 &&
        xtime(xtime(xtime(112u8))) ^ xtime(112u8) ^ 112u8 == 61u8 &&
        xtime(xtime(xtime(113u8))) ^ xtime(113u8) ^ 113u8 == 54u8 &&
        xtime(xtime(xtime(114u8))) ^ xtime(114u8) ^ 114u8 == 43u8 &&
        xtime(xtime(xtime(115u8))) ^ xtime(115u8) ^ 115u8 == 32u8 &&
        xtime(xtime(xtime(116u8))) ^ xtime(116u8) ^ 116u8 == 17u8 &&
        xtime(xtime(xtime(117u8))) ^ xtime(117u8) ^ 117u8 == 26u8 &&
        xtime(xtime(xtime(118u8))) ^ xtime(118u8) ^ 118u8 == 7u8 &&
        xtime(xtime(xtime(119u8))) ^ xtime(119u8) ^ 119u8 == 12u8 &&
        xtime(xtime(xtime(120u8))) ^ xtime(120u8) ^ 120u8 == 101u8 &&
        xtime(xtime(xtime(121u8))) ^ xtime(121u8) ^ 121u8 == 110u8 &&
        xtime(xtime(xtime(122u8))) ^ xtime(122u8) ^ 122u8 == 115u8 &&
        xtime(xtime(xtime(123u8))) ^ xtime(123u8) ^ 123u8 == 120u8 &&
        xtime(xtime(xtime(124u8))) ^ xtime(124u8) ^ 124u8 == 73u8 &&
        xtime(xtime(xtime(125u8))) ^ xtime(125u8) ^ 125u8 == 66u8 &&
        xtime(xtime(xtime(126u8))) ^ xtime(126u8) ^ 126u8 == 95u8 &&
        xtime(xtime(xtime(127u8))) ^ xtime(127u8) ^ 127u8 == 84u8 &&
        xtime(xtime(xtime(128u8))) ^ xtime(128u8) ^ 128u8 == 247u8 &&
        xtime(xtime(xtime(129u8))) ^ xtime(129u8) ^ 129u8 == 252u8 &&
        xtime(xtime(xtime(130u8))) ^ xtime(130u8) ^ 130u8 == 225u8 &&
        xtime(xtime(xtime(131u8))) ^ xtime(131u8) ^ 131u8 == 234u8 &&
        xtime(xtime(xtime(132u8))) ^ xtime(132u8) ^ 132u8 == 219u8 &&
        xtime(xtime(xtime(133u8))) ^ xtime(133u8) ^ 133u8 == 208u8 &&
        xtime(xtime(xtime(134u8))) ^ xtime(134u8) ^ 134u8 == 205u8 &&
        xtime(xtime(xtime(135u8))) ^ xtime(135u8) ^ 135u8 == 198u8 &&
        xtime(xtime(xtime(136u8))) ^ xtime(136u8) ^ 136u8 == 175u8 &&
        xtime(xtime(xtime(137u8))) ^ xtime(137u8) ^ 137u8 == 164u8 &&
        xtime(xtime(xtime(138u8))) ^ xtime(138u8) ^ 138u8 == 185u8 &&
        xtime(xtime(xtime(139u8))) ^ xtime(139u8) ^ 139u8 == 178u8 &&
        xtime(xtime(xtime(140u8))) ^ xtime(140u8) ^ 140u8 == 131u8 &&
        xtime(xtime(xtime(141u8))) ^ xtime(141u8) ^ 141u8 == 136u8 &&
        xtime(xtime(xtime(142u8))) ^ xtime(142u8) ^ 142u8 == 149u8 &&
        xtime(xtime(xtime(143u8))) ^ xtime(143u8) ^ 143u8 == 158u8 &&
        xtime(xtime(xtime(144u8))) ^ xtime(144u8) ^ 144u8 == 71u8 &&
        xtime(xtime(xtime(145u8))) ^ xtime(145u8) ^ 145u8 == 76u8 &&
        xtime(xtime(xtime(146u8))) ^ xtime(146u8) ^ 146u8 == 81u8 &&
        xtime(xtime(xtime(147u8))) ^ xtime(147u8) ^ 147u8 == 90u8 &&
        xtime(xtime(xtime(148u8))) ^ xtime(148u8) ^ 148u8 == 107u8 &&
        xtime(xtime(xtime(149u8))) ^ xtime(149u8) ^ 149u8 == 96u8 &&
        xtime(xtime(xtime(150u8))) ^ xtime(150u8) ^ 150u8 == 125u8 &&
        xtime(xtime(xtime(151u8))) ^ xtime(151u8) ^ 151u8 == 118u8 &&
        xtime(xtime(xtime(152u8))) ^ xtime(152u8) ^ 152u8 == 31u8 &&
        xtime(xtime(xtime(153u8))) ^ xtime(153u8) ^ 153u8 == 20u8 &&
        xtime(xtime(xtime(154u8))) ^ xtime(154u8) ^ 154u8 == 9u8 &&
        xtime(xtime(xtime(155u8))) ^ xtime(155u8) ^ 155u8 == 2u8 &&
        xtime(xtime(xtime(156u8))) ^ xtime(156u8) ^ 156u8 == 51u8 &&
        xtime(xtime(xtime(157u8))) ^ xtime(157u8) ^ 157u8 == 56u8 &&
        xtime(xtime(xtime(158u8))) ^ xtime(158u8) ^ 158u8 == 37u8 &&
        xtime(xtime(xtime(159u8))) ^ xtime(159u8) ^ 159u8 == 46u8 &&
        xtime(xtime(xtime(160u8))) ^ xtime(160u8) ^ 160u8 == 140u8 &&
        xtime(xtime(xtime(161u8))) ^ xtime(161u8) ^ 161u8 == 135u8 &&
        xtime(xtime(xtime(162u8))) ^ xtime(162u8) ^ 162u8 == 154u8 &&
        xtime(xtime(xtime(163u8))) ^ xtime(163u8) ^ 163u8 == 145u8 &&
        xtime(xtime(xtime(164u8))) ^ xtime(164u8) ^ 164u8 == 160u8 &&
        xtime(xtime(xtime(165u8))) ^ xtime(165u8) ^ 165u8 == 171u8 &&
        xtime(xtime(xtime(166u8))) ^ xtime(166u8) ^ 166u8 == 182u8 &&
        xtime(xtime(xtime(167u8))) ^ xtime(167u8) ^ 167u8 == 189u8 &&
        xtime(xtime(xtime(168u8))) ^ xtime(168u8) ^ 168u8 == 212u8 &&
        xtime(xtime(xtime(169u8))) ^ xtime(169u8) ^ 169u8 == 223u8 &&
        xtime(xtime(xtime(170u8))) ^ xtime(170u8) ^ 170u8 == 194u8 &&
        xtime(xtime(xtime(171u8))) ^ xtime(171u8) ^ 171u8 == 201u8 &&
        xtime(xtime(xtime(172u8))) ^ xtime(172u8) ^ 172u8 == 248u8 &&
        xtime(xtime(xtime(173u8))) ^ xtime(173u8) ^ 173u8 == 243u8 &&
        xtime(xtime(xtime(174u8))) ^ xtime(174u8) ^ 174u8 == 238u8 &&
        xtime(xtime(xtime(175u8))) ^ xtime(175u8) ^ 175u8 == 229u8 &&
        xtime(xtime(xtime(176u8))) ^ xtime(176u8) ^ 176u8 == 60u8 &&
        xtime(xtime(xtime(177u8))) ^ xtime(177u8) ^ 177u8 == 55u8 &&
        xtime(xtime(xtime(178u8))) ^ xtime(178u8) ^ 178u8 == 42u8 &&
        xtime(xtime(xtime(179u8))) ^ xtime(179u8) ^ 179u8 == 33u8 &&
        xtime(xtime(xtime(180u8))) ^ xtime(180u8) ^ 180u8 == 16u8 &&
        xtime(xtime(xtime(181u8))) ^ xtime(181u8) ^ 181u8 == 27u8 &&
        xtime(xtime(xtime(182u8))) ^ xtime(182u8) ^ 182u8 == 6u8 &&
        xtime(xtime(xtime(183u8))) ^ xtime(183u8) ^ 183u8 == 13u8 &&
        xtime(xtime(xtime(184u8))) ^ xtime(184u8) ^ 184u8 == 100u8 &&
        xtime(xtime(xtime(185u8))) ^ xtime(185u8) ^ 185u8 == 111u8 &&
        xtime(xtime(xtime(186u8))) ^ xtime(186u8) ^ 186u8 == 114u8 &&
        xtime(xtime(xtime(187u8))) ^ xtime(187u8) ^ 187u8 == 121u8 &&
        xtime(xtime(xtime(188u8))) ^ xtime(188u8) ^ 188u8 == 72u8 &&
        xtime(xtime(xtime(189u8))) ^ xtime(189u8) ^ 189u8 == 67u8 &&
        xtime(xtime(xtime(190u8))) ^ xtime(190u8) ^ 190u8 == 94u8 &&
        xtime(xtime(xtime(191u8))) ^ xtime(191u8) ^ 191u8 == 85u8 &&
        xtime(xtime(xtime(192u8))) ^ xtime(192u8) ^ 192u8 == 1u8 &&
        xtime(xtime(xtime(193u8))) ^ xtime(193u8) ^ 193u8 == 10u8 &&
        xtime(xtime(xtime(194u8))) ^ xtime(194u8) ^ 194u8 == 23u8 &&
        xtime(xtime(xtime(195u8))) ^ xtime(195u8) ^ 195u8 == 28u8 &&
        xtime(xtime(xtime(196u8))) ^ xtime(196u8) ^ 196u8 == 45u8 &&
        xtime(xtime(xtime(197u8))) ^ xtime(197u8) ^ 197u8 == 38u8 &&
        xtime(xtime(xtime(198u8))) ^ xtime(198u8) ^ 198u8 == 59u8 &&
        xtime(xtime(xtime(199u8))) ^ xtime(199u8) ^ 199u8 == 48u8 &&
        xtime(xtime(xtime(200u8))) ^ xtime(200u8) ^ 200u8 == 89u8 &&
        xtime(xtime(xtime(201u8))) ^ xtime(201u8) ^ 201u8 == 82u8 &&
        xtime(xtime(xtime(202u8))) ^ xtime(202u8) ^ 202u8 == 79u8 &&
        xtime(xtime(xtime(203u8))) ^ xtime(203u8) ^ 203u8 == 68u8 &&
        xtime(xtime(xtime(204u8))) ^ xtime(204u8) ^ 204u8 == 117u8 &&
        xtime(xtime(xtime(205u8))) ^ xtime(205u8) ^ 205u8 == 126u8 &&
        xtime(xtime(xtime(206u8))) ^ xtime(206u8) ^ 206u8 == 99u8 &&
        xtime(xtime(xtime(207u8))) ^ xtime(207u8) ^ 207u8 == 104u8 &&
        xtime(xtime(xtime(208u8))) ^ xtime(208u8) ^ 208u8 == 177u8 &&
        xtime(xtime(xtime(209u8))) ^ xtime(209u8) ^ 209u8 == 186u8 &&
        xtime(xtime(xtime(210u8))) ^ xtime(210u8) ^ 210u8 == 167u8 &&
        xtime(xtime(xtime(211u8))) ^ xtime(211u8) ^ 211u8 == 172u8 &&
        xtime(xtime(xtime(212u8))) ^ xtime(212u8) ^ 212u8 == 157u8 &&
        xtime(xtime(xtime(213u8))) ^ xtime(213u8) ^ 213u8 == 150u8 &&
        xtime(xtime(xtime(214u8))) ^ xtime(214u8) ^ 214u8 == 139u8 &&
        xtime(xtime(xtime(215u8))) ^ xtime(215u8) ^ 215u8 == 128u8 &&
        xtime(xtime(xtime(216u8))) ^ xtime(216u8) ^ 216u8 == 233u8 &&
        xtime(xtime(xtime(217u8))) ^ xtime(217u8) ^ 217u8 == 226u8 &&
        xtime(xtime(xtime(218u8))) ^ xtime(218u8) ^ 218u8 == 255u8 &&
        xtime(xtime(xtime(219u8))) ^ xtime(219u8) ^ 219u8 == 244u8 &&
        xtime(xtime(xtime(220u8))) ^ xtime(220u8) ^ 220u8 == 197u8 &&
        xtime(xtime(xtime(221u8))) ^ xtime(221u8) ^ 221u8 == 206u8 &&
        xtime(xtime(xtime(222u8))) ^ xtime(222u8) ^ 222u8 == 211u8 &&
        xtime(xtime(xtime(223u8))) ^ xtime(223u8) ^ 223u8 == 216u8 &&
        xtime(xtime(xtime(224u8))) ^ xtime(224u8) ^ 224u8 == 122u8 &&
        xtime(xtime(xtime(225u8))) ^ xtime(225u8) ^ 225u8 == 113u8 &&
        xtime(xtime(xtime(226u8))) ^ xtime(226u8) ^ 226u8 == 108u8 &&
        xtime(xtime(xtime(227u8))) ^ xtime(227u8) ^ 227u8 == 103u8 &&
        xtime(xtime(xtime(228u8))) ^ xtime(228u8) ^ 228u8 == 86u8 &&
        xtime(xtime(xtime(229u8))) ^ xtime(229u8) ^ 229u8 == 93u8 &&
        xtime(xtime(xtime(230u8))) ^ xtime(230u8) ^ 230u8 == 64u8 &&
        xtime(xtime(xtime(231u8))) ^ xtime(231u8) ^ 231u8 == 75u8 &&
        xtime(xtime(xtime(232u8))) ^ xtime(232u8) ^ 232u8 == 34u8 &&
        xtime(xtime(xtime(233u8))) ^ xtime(233u8) ^ 233u8 == 41u8 &&
        xtime(xtime(xtime(234u8))) ^ xtime(234u8) ^ 234u8 == 52u8 &&
        xtime(xtime(xtime(235u8))) ^ xtime(235u8) ^ 235u8 == 63u8 &&
        xtime(xtime(xtime(236u8))) ^ xtime(236u8) ^ 236u8 == 14u8 &&
        xtime(xtime(xtime(237u8))) ^ xtime(237u8) ^ 237u8 == 5u8 &&
        xtime(xtime(xtime(238u8))) ^ xtime(238u8) ^ 238u8 == 24u8 &&
        xtime(xtime(xtime(239u8))) ^ xtime(239u8) ^ 239u8 == 19u8 &&
        xtime(xtime(xtime(240u8))) ^ xtime(240u8) ^ 240u8 == 202u8 &&
        xtime(xtime(xtime(241u8))) ^ xtime(241u8) ^ 241u8 == 193u8 &&
        xtime(xtime(xtime(242u8))) ^ xtime(242u8) ^ 242u8 == 220u8 &&
        xtime(xtime(xtime(243u8))) ^ xtime(243u8) ^ 243u8 == 215u8 &&
        xtime(xtime(xtime(244u8))) ^ xtime(244u8) ^ 244u8 == 230u8 &&
        xtime(xtime(xtime(245u8))) ^ xtime(245u8) ^ 245u8 == 237u8 &&
        xtime(xtime(xtime(246u8))) ^ xtime(246u8) ^ 246u8 == 240u8 &&
        xtime(xtime(xtime(247u8))) ^ xtime(247u8) ^ 247u8 == 251u8 &&
        xtime(xtime(xtime(248u8))) ^ xtime(248u8) ^ 248u8 == 146u8 &&
        xtime(xtime(xtime(249u8))) ^ xtime(249u8) ^ 249u8 == 153u8 &&
        xtime(xtime(xtime(250u8))) ^ xtime(250u8) ^ 250u8 == 132u8 &&
        xtime(xtime(xtime(251u8))) ^ xtime(251u8) ^ 251u8 == 143u8 &&
        xtime(xtime(xtime(252u8))) ^ xtime(252u8) ^ 252u8 == 190u8 &&
        xtime(xtime(xtime(253u8))) ^ xtime(253u8) ^ 253u8 == 181u8 &&
        xtime(xtime(xtime(254u8))) ^ xtime(254u8) ^ 254u8 == 168u8 &&
        xtime(xtime(xtime(255u8))) ^ xtime(255u8) ^ 255u8 == 163u8
    ) by (bit_vector);
}

/// The table of products by 11 holds `gf_mul(x, 11)` at index `x`.
pub proof fn lemma_gmul11_table()
    ensures
        forall|x: u8| #[trigger] GMUL11[x as int] == gf_mul(x, 11),
{
    lemma_gmul11_values();
    assert forall|x: u8| #[trigger] GMUL11[x as int] == gf_mul(x, 11) by {
        lemma_gf_mul_11(x);
        lemma_u8_cases(x);
    }
}

/// Products by 13, written with doublings.
pub proof fn lemma_gf_mul_13(x: u8)
    ensures
        gf_mul(x, 13) == xtime(xtime(xtime(x))) ^ xtime(xtime(x)) ^ x,
{
    reveal_with_fuel(gf_mul, 5);
    let x2 = xtime(x);
    let x4 = xtime(x2);
    let x8 = xtime(x4);
    lemma_xor_zero(x);
    lemma_xor_zero(x2);
    lemma_xor_zero(x4);
    lemma_xor_zero(x8);
    assert(x ^ (x4 ^ x8) == x8 ^ x4 ^ x) by (bit_vector);
}

/// The entries of the table of products by 13, computed with doublings.
proof fn lemma_gmul13_values()
    ensures
        xtime(xtime(xtime(0u8))) ^ xtime(xtime(0u8)) ^ 0u8 == 0u8 &&
        xtime(xtime(xtime(1u8))) ^ xtime(xtime(1u8)) ^ 1u8 == 13u8 &&
        xtime(xtime(xtime(2u8))) ^ xtime(xtime(2u8)) ^ 2u8 == 26u8 &&
        xtime(xtime(xtime(3u8))) ^ xtime(xtime(3u8)) ^ 3u8 == 23u8 &&
        xtime(xtime(xtime(4u8))) ^ xtime(xtime(4u8)) ^ 4u8 == 52u8 &&
        xtime(xtime(xtime(5u8))) ^ xtime(xtime(5u8)) ^ 5u8 == 57u8 &&
        xtime(xtime(xtime(6u8))) ^ xtime(xtime(6u8)) ^ 6u8 == 46u8 &&
        xtime(xtime(xtime(7u8))) ^ xtime(xtime(7u8)) ^ 7u8 == 35u8 &&
        xtime(xtime(xtime(8u8))) ^ xtime(xtime(8u8)) ^ 8u8 == 104u8 &&
        xtime(xtime(xtime(9u8))) ^ xtime(xtime(9u8)) ^ 9u8 == 101u8 &&
        xtime(xtime(xtime(10u8))) ^ xtime(xtime(10u8)) ^ 10u8 == 114u8 &&
        xtime(xtime(xtime(11u8))) ^ xtime(xtime(11u8)) ^ 11u8 == 127u8 &&
        xtime(xtime(xtime(12u8))) ^ xtime(xtime(12u8)) ^ 12u8 == 92u8 &&
        xtime(xtime(xtime(13u8))) ^ xtime(xtime(13u8)) ^ 13u8 == 81u8 &&
        xtime(xtime(xtime(14u8))) ^ xtime(xtime(14u8)) ^ 14u8 == 70u8 &&
        xtime(xtime(xtime(15u8))) ^ xtime(xtime(15u8)) ^ 15u8 == 75u8 &&
        xtime(xtime(xtime(16u8))) ^ xtime(xtime(16u8)) ^ 16u8 == 208u8 &&
        xtime(xtime(xtime(17u8))) ^ xtime(xtime(17u8)) ^ 17u8 == 221u8 &&
        xtime(xtime(xtime(18u8))) ^ xtime(xtime(18u8)) ^ 18u8 == 202u8 &&
        xtime(xtime(xtime(19u8))) ^ xtime(xtime(19u8)) ^ 19u8 == 199u8 &&
        xtime(xtime(xtime(20u8))) ^ xtime(xtime(20u8)) ^ 20u8 == 228u8 &&
        xtime(xtime(xtime(21u8))) ^ xtime(xtime(21u8)) ^ 21u8 == 233u8 &&
        xtime(xtime(xtime(22u8))) ^ xtime(xtime(22u8)) ^ 22u8 == 254u8 &&
        xtime(xtime(xtime(23u8))) ^ xtime(xtime(23u8)) ^ 23u8 == 243u8 &&
        xtime(xtime(xtime(24u8))) ^ xtime(xtime(24u8)) ^ 24u8 == 184u8 &&
        xtime(xtime(xtime(25u8))) ^ xtime(xtime(25u8)) ^ 25u8 == 181u8 &&
        xtime(xtime(xtime(26u8))) ^ xtime(xtime(26u8)) ^ 26u8 == 162u8 &&
        xtime(xtime(xtime(27u8))) ^ xtime(xtime(27u8)) ^ 27u8 == 175u8 &&
        xtime(xtime(xtime(28u8))) ^ xtime(xtime(28u8)) ^ 28u8 == 140u8 &&
        xtime(xtime(xtime(29u8))) ^ xtime(xtime(29u8)) ^ 29u8 == 129u8 &&
        xtime(xtime(xtime(30u8))) ^ xtime(xtime(30u8)) ^ 30u8 == 150u8 &&
        xtime(xtime(xtime(31u8))) ^ xtime(xtime(31u8)) ^ 31u8 == 155u8 &&
        xtime(xtime(xtime(32u8))) ^ xtime(xtime(32u8)) ^ 32u8 == 187u8 &&
        xtime(xtime(xtime(33u8))) ^ xtime(xtime(33u8)) ^ 33u8 == 182u8 &&
        xtime(xtime(xtime(34u8))) ^ xtime(xtime(34u8)) ^ 34u8 == 161u8 &&
        xtime(xtime(xtime(35u8))) ^ xtime(xtime(35u8)) ^ 35u8 == 172u8 &&
        xtime(xtime(xtime(36u8))) ^ xtime(xtime(36u8)) ^ 36u8 == 143u8 &&
        xtime(xtime(xtime(37u8))) ^ xtime(xtime(37u8)) ^ 37u8 == 130u8 &&
        xtime(xtime(xtime(38u8))) ^ xtime(xtime(38u8)) ^ 38u8 == 149u8 &&
        xtime(xtime(xtime(39u8))) ^ xtime(xtime(39u8)) ^ 39u8 == 152u8 &&
        xtime(xtime(xtime(40u8))) ^ xtime(xtime(40u8)) ^ 40u8 == 211u8 &&
        xtime(xtime(xtime(41u8))) ^ xtime(xtime(41u8)) ^ 41u8 == 222u8 &&
        xtime(xtime(xtime(42u8))) ^ xtime(xtime(42u8)) ^ 42u8 == 201u8 &&
        xtime(xtime(xtime(43u8))) ^ xtime(xtime(43u8)) ^ 43u8 == 196u8 &&
        xtime(xtime(xtime(44u8))) ^ xtime(xtime(44u8)) ^ 44u8 == 231u8 &&
        xtime(xtime(xtime(45u8))) ^ xtime(xtime(45u8)) ^ 45u8 == 234u8 &&
        xtime(xtime(xtime(46u8))) ^ xtime(xtime(46u8)) ^ 46u8 == 253u8 &&
        xtime(xtime(xtime(47u8))) ^ xtime(xtime(47u8)) ^ 47u8 == 240u8 &&
        xtime(xtime(xtime(48u8))) ^ xtime(xtime(48u8)) ^ 48u8 == 107u8 &&
        xtime(xtime(xtime(49u8))) ^ xtime(xtime(49u8)) ^ 49u8 == 102u8 &&
        xtime(xtime(xtime(50u8))) ^ xtime(xtime(50u8)) ^ 50u8 == 113u8 &&
        xtime(xtime(xtime(51u8))) ^ xtime(xtime(51u8)) ^ 51u8 == 124u8 &&
        xtime(xtime(xtime(52u8))) ^ xtime(xtime(52u8)) ^ 52u8 == 95u8 &&
        xtime(xtime(xtime(53u8))) ^ xtime(xtime(53u8)) ^ 53u8 == 82u8 &&
        xtime(xtime(xtime(54u8))) ^ xtime(xtime(54u8)) ^ 54u8 == 69u8 &&
        xtime(xtime(xtime(55u8))) ^ xtime(xtime(55u8)) ^ 55u8 == 72u8 &&
        xtime(xtime(xtime(56u8))) ^ xtime(xtime(56u8)) ^ 56u8 == 3u8 &&
        xtime(xtime(xtime(57u8))) ^ xtime(xtime(57u8)) ^ 57u8 == 14u8 &&
        xtime(xtime(xtime(58u8))) ^ xtime(xtime(58u8)) ^ 58u8 == 25u8 &&
        xtime(xtime(xtime(59u8))) ^ xtime(xtime(59u8)) ^ 59u8 == 20u8 &&
        xtime(xtime(xtime(60u8))) ^ xtime(xtime(60u8)) ^ 60u8 == 55u8 &&
        xtime(xtime(xtime(61u8))) ^ xtime(xtime(61u8)) ^ 61u8 == 58u8 &&
        xtime(xtime(xtime(62u8))) ^ xtime(xtime(62u8)) ^ 62u8 == 45u8 &&
        xtime(xtime(xtime(63u8))) ^ xtime(xtime(63u8)) ^ 63u8 == 32u8 &&
        xtime(xtime(xtime(64u8))) ^ xtime(xtime(64u8)) ^ 64u8 == 109u8 &&
        xtime(xtime(xtime(65u8))) ^ xtime(xtime(65u8)) ^ 65u8 == 96u8 &&
        xtime(xtime(xtime(66u8))) ^ xtime(xtime(66u8)) ^ 66u8 == 119u8 &&
        xtime(xtime(xtime(67u8))) ^ xtime(xtime(67u8)) ^ 67u8 == 122u8 &&
        xtime(xtime(xtime(68u8))) ^ xtime(xtime(68u8)) ^ 68u8 == 89u8 &&
        xtime(xtime(xtime(69u8))) ^ xtime(xtime(69u8)) ^ 69u8 == 84u8 &&
        xtime(xtime(xtime(70u8))) ^ xtime(xtime(70u8)) ^ 70u8 == 67u8 &&
        xtime(xtime(xtime(71u8))) ^ xtime(xtime(71u8)) ^ 71u8 == 78u8 &&
        xtime(xtime(xtime(72u8))) ^ xtime(xtime(72u8)) ^ 72u8 == 5u8 &&
        xtime(xtime(xtime(73u8))) ^ xtime(xtime(73u8)) ^ 73u8 == 8u8 &&
        xtime(xtime(xtime(74u8))) ^ xtime(xtime(74u8)) ^ 74u8 == 31u8 &&
        xtime(xtime(xtime(75u8))) ^ xtime(xtime(75u8)) ^ 75u8 == 18u8 &&
        xtime(xtime(xtime(76u8))) ^ xtime(xtime(76u8)) ^ 76u8 == 49u8 &&
        xtime(xtime(xtime(77u8))) ^ xtime(xtime(77u8)) ^ 77u8 == 60u8 &&
        xtime(xtime(xtime(78u8))) ^ xtime(xtime(78u8)) ^ 78u8 == 43u8 &&
        xtime(xtime(xtime(79u8))) ^ xtime(xtime(79u8)) ^ 79u8 == 38u8 &&
        xtime(xtime(xtime(80u8))) ^ xtime(xtime(80u8)) ^ 80u8 == 189u8 &&
        xtime(xtime(xtime(81u8))) ^ xtime(xtime(81u8)) ^ 81u8 == 176u8 &&
        xtime(xtime(xtime(82u8))) ^ xtime(xtime(82u8)) ^ 82u8 == 167u8 &&
        xtime(xtime(xtime(83u8))) ^ xtime(xtime(83u8)) ^ 83u8 == 170u8 &&
        xtime(xtime(xtime(84u8))) ^ xtime(xtime(84u8)) ^ 84u8 == 137u8 &&
        xtime(xtime(xtime(85u8))) ^ xtime(xtime(85u8)) ^ 85u8 == 132u8 &&
        xtime(xtime(xtime(86u8))) ^ xtime(xtime(86u8)) ^ 86u8 == 147u8 &&
        xtime(xtime(xtime(87u8))) ^ xtime(xtime(87u8)) ^ 87u8 == 158u8 &&
        xtime(xtime(xtime(88u8))) ^ xtime(xtime(88u8)) ^ 88u8 == 213u8 &&
        xtime(xtime(xtime(89u8))) ^ xtime(xtime(89u8)) ^ 89u8 == 216u8 &&
        xtime(xtime(xtime(90u8))) ^ xtime(xtime(90u8)) ^ 90u8 == 207u8 &&
        xtime(xtime(xtime(91u8))) ^ xtime(xtime(91u8)) ^ 91u8 == 194u8 &&
        xtime(xtime(xtime(92u8))) ^ xtime(xtime(92u8)) ^ 92u8 == 225u8 &&
        xtime(xtime(xtime(93u8))) ^ xtime(xtime(93u8)) ^ 93u8 == 236u8 &&
        xtime(xtime(xtime(94u8))) ^ xtime(xtime(94u8)) ^ 94u8 == 251u8 &&
        xtime(xtime(xtime(95u8))) ^ xtime(xtime(95u8)) ^ 95u8 == 246u8 &&
        xtime(xtime(xtime(96u8))) ^ xtime(xtime(96u8)) ^ 96u8 == 214u8 &&
        xtime(xtime(xtime(97u8))) ^ xtime(xtime(97u8)) ^ 97u8 == 219u8 &&
        xtime(xtime(xtime(98u8))) ^ xtime(xtime(98u8)) ^ 98u8 == 204u8 &&
        xtime(xtime(xtime(99u8))) ^ xtime(xtime(99u8)) ^ 99u8 == 193u8 &&
        xtime(xtime(xtime(100u8))) ^ xtime(xtime(100u8)) ^ 100u8 == 226u8 &&
        xtime(xtime(xtime(101u8))) ^ xtime(xtime(101u8)) ^ 101u8 == 239u8 &&
        xtime(xtime(xtime(102u8))) ^ xtime(xtime(102u8)) ^ 102u8 == 248u8 &&
        xtime(xtime(xtime(103u8))) ^ xtime(xtime(103u8)) ^ 103u8 == 245u8 &&
        xtime(xtime(xtime(104u8))) ^ xtime(xtime(104u8)) ^ 104u8 == 190u8 &&
        xtime(xtime(xtime(105u8))) ^ xtime(xtime(105u8)) ^ 105u8 == 179u8 &&
        xtime(xtime(xtime(106u8))) ^ xtime(xtime(106u8)) ^ 106u8 == 164u8 &&
        xtime(xtime(xtime(107u8))) ^ xtime(xtime(107u8)) ^ 107u8 == 169u8 &&
        xtime(xtime(xtime(108u8))) ^ xtime(xtime(108u8)) ^ 108u8 == 138u8 &&
        xtime(xtime(xtime(109u8))) ^ xtime(xtime(109u8)) ^ 109u8 == 135u8 &&
        xtime(xtime(xtime(110u8))) ^ xtime(xtime(110u8)) ^ 110u8 == 144u8 &&
        xtime(xtime(xtime(111u8))) ^ xtime(xtime(111u8)) ^ 111u8 == 157u8 &&
        xtime(xtime(xtime(112u8))) ^ xtime(xtime(112u8)) ^ 112u8 == 6u8 &&
        xtime(xtime(xtime(113u8))) ^ xtime(xtime(113u8)) ^ 113u8 == 11u8 &&
        xtime(xtime(xtime(114u8))) ^ xtime(xtime(114u8)) ^ 114u8 == 28u8 &&
        xtime(xtime(xtime(115u8))) ^ xtime(xtime(115u8)) ^ 115u8 == 17u8 &&
        xtime(xtime(xtime(116u8))) ^ xtime(xtime(116u8)) ^ 116u8 == 50u8 &&
        xtime(xtime(xtime(117u8))) ^ xtime(xtime(117u8)) ^ 117u8 == 63u8 &&
        xtime(xtime(xtime(118u8))) ^ xtime(xtime(118u8)) ^ 118u8 == 40u8 &&
        xtime(xtime(xtime(119u8))) ^ xtime(xtime(119u8)) ^ 119u8 == 37u8 &&
        xtime(xtime(xtime(120u8))) ^ xtime(xtime(120u8)) ^ 120u8 == 110u8 &&
        xtime(xtime(xtime(121u8))) ^ xtime(xtime(121u8)) ^ 121u8 == 99u8 &&
        xtime(xtime(xtime(122u8))) ^ xtime(xtime(122u8)) ^ 122u8 == 116u8 &&
        xtime(xtime(xtime(123u8))) ^ xtime(xtime(123u8)) ^ 123u8 == 121u8 &&
        xtime(xtime(xtime(124u8))) ^ xtime(xtime(124u8)) ^ 124u8 == 90u8 &&
        xtime(xtime(xtime(125u8))) ^ xtime(xtime(125u8)) ^ 125u8 == 87u8 &&
        xtime(xtime(xtime(126u8))) ^ xtime(xtime(126u8)) ^ 126u8 == 64u8 &&
        xtime(xtime(xtime(127u8))) ^ xtime(xtime(127u8)) ^ 127u8 == 77u8 &&
        xtime(xtime(xtime(128u8))) ^ xtime(xtime(128u8)) ^ 128u8 == 218u8 &&
        xtime(xtime(xtime(129u8))) ^ xtime(xtime(129u8)) ^ 129u8 == 215u8 &&
        xtime(xtime(xtime(130u8))) ^ xtime(xtime(130u8)) ^ 130u8 == 192u8 &&
        xtime(xtime(xtime(131u8))) ^ xtime(xtime(131u8)) ^ 131u8 == 205u8 &&
        xtime(xtime(xtime(132u8))) ^ xtime(xtime(132u8)) ^ 132u8 == 238u8 &&
        xtime(xtime(xtime(133u8))) ^ xtime(xtime(133u8)) ^ 133u8 == 227u8 &&
        xtime(xtime(xtime(134u8))) ^ xtime(xtime(134u8)) ^ 134u8 == 244u8 &&
        xtime(xtime(xtime(135u8))) ^ xtime(xtime(135u8)) ^ 135u8 == 249u8 &&
        xtime(xtime(xtime(136u8))) ^ xtime(xtime(136u8)) ^ 136u8 == 178u8 &&
        xtime(xtime(xtime(137u8))) ^ xtime(xtime(137u8)) ^ 137u8 == 191u8 &&
        xtime(xtime(xtime(138u8))) ^ xtime(xtime(138u8)) ^ 138u8 == 168u8 &&
        xtime(xtime(xtime(139u8))) ^ xtime(xtime(139u8)) ^ 139u8 == 165u8 &&
        xtime(xtime(xtime(140u8))) ^ xtime(xtime(140u8)) ^ 140u8 == 134u8 &&
        xtime(xtime(xtime(141u8))) ^ xtime(xtime(141u8)) ^ 141u8 == 139u8 &&
        xtime(xtime(xtime(142u8))) ^ xtime(xtime(142u8)) ^ 142u8 == 156u8 &&
        xtime(xtime(xtime(143u8))) ^ xtime(xtime(143u8)) ^ 143u8 == 145u8 &&
        xtime(xtime(xtime(144u8))) ^ xtime(xtime(144u8)) ^ 144u8 == 10u8 &&
        xtime(xtime(xtime(145u8))) ^ xtime(xtime(145u8)) ^ 145u8 == 7u8 &&
        xtime(xtime(xtime(146u8))) ^ xtime(xtime(146u8)) ^ 146u8 == 16u8 &&
        xtime(xtime(xtime(147u8))) ^ xtime(xtime(147u8)) ^ 147u8 == 29u8 &&
        xtime(xtime(xtime(148u8))) ^ xtime(xtime(148u8)) ^ 148u8 == 62u8 &&
        xtime(xtime(xtime(149u8))) ^ xtime(xtime(149u8)) ^ 149u8 == 51u8 &&
        xtime(xtime(xtime(150u8))) ^ xtime(xtime(150u8)) ^ 150u8 == 36u8 &&
        xtime(xtime(xtime(151u8))) ^ xtime(xtime(151u8)) ^ 151u8 == 41u8 &&
        xtime(xtime(xtime(152u8))) ^ xtime(xtime(152u8)) ^ 152u8 == 98u8 &&
        xtime(xtime(xtime(153u8))) ^ xtime(xtime(153u8)) ^ 153u8 == 111u8 &&
        xtime(xtime(xtime(154u8))) ^ xtime(xtime(154u8)) ^ 154u8 == 120u8 &&
        xtime(xtime(xtime(155u8))) ^ xtime(xtime(155u8)) ^ 155u8 == 117u8 &&
        xtime(xtime(xtime(156u8))) ^ xtime(xtime(156u8)) ^ 156u8 == 86u8 &&
        xtime(xtime(xtime(157u8))) ^ xtime(xtime(157u8)) ^ 157u8 == 91u8 &&
        xtime(xtime(xtime(158u8))) ^ xtime(xtime(158u8)) ^ 158u8 == 76u8 &&
        xtime(xtime(xtime(159u8))) ^ xtime(xtime(159u8)) ^ 159u8 == 65u8 &&
        xtime(xtime(xtime(160u8))) ^ xtime(xtime(160u8)) ^ 160u8 == 97u8 &&
        xtime(xtime(xtime(161u8))) ^ xtime(xtime(161u8)) ^ 161u8 == 108u8 &&
        xtime(xtime(xtime(162u8))) ^ xtime(xtime(162u8)) ^ 162u8 == 123u8 &&
        xtime(xtime(xtime(163u8))) ^ xtime(xtime(163u8)) ^ 163u8 == 118u8 &&
        xtime(xtime(xtime(164u8))) ^ xtime(xtime(164u8)) ^ 164u8 == 85u8 &&
        xtime(xtime(xtime(165u8))) ^ xtime(xtime(165u8)) ^ 165u8 == 88u8 &&
        xtime(xtime(xtime(166u8))) ^ xtime(xtime(166u8)) ^ 166u8 == 79u8 &&
        xtime(xtime(xtime(167u8))) ^ xtime(xtime(167u8)) ^ 167u8 == 66u8 &&
        xtime(xtime(xtime(168u8))) ^ xtime(xtime(168u8)) ^ 168u8 == 9u8 &&
        xtime(xtime(xtime(169u8))) ^ xtime(xtime(169u8)) ^ 169u8 == 4u8 &&
        xtime(xtime(xtime(170u8))) ^ xtime(xtime(170u8)) ^ 170u8 == 19u8 &&
        xtime(xtime(xtime(171u8))) ^ xtime(xtime(171u8)) ^ 171u8 == 30u8 &&
        xtime(xtime(xtime(172u8))) ^ xtime(xtime(172u8)) ^ 172u8 == 61u8 &&
        xtime(xtime(xtime(173u8))) ^ xtime(xtime(173u8)) ^ 173u8 == 48u8 &&
        xtime(xtime(xtime(174u8))) ^ xtime(xtime(174u8)) ^ 174u8 == 39u8 &&
        xtime(xtime(xtime(175u8))) ^ xtime(xtime(175u8)) ^ 175u8 == 42u8 &&
        xtime(xtime(xtime(176u8))) ^ xtime(xtime(176u8)) ^ 176u8 == 177u8 &&
        xtime(xtime(xtime(177u8))) ^ xtime(xtime(177u8)) ^ 177u8 == 188u8 &&
        xtime(xtime(xtime(178u8))) ^ xtime(xtime(178u8)) ^ 178u8 == 171u8 &&
        xtime(xtime(xtime(179u8))) ^ xtime(xtime(179u8)) ^ 179u8 == 166u8 &&
        xtime(xtime(xtime(180u8))) ^ xtime(xtime(180u8)) ^ 180u8 == 133u8 &&
        xtime(xtime(xtime(181u8))) ^ xtime(xtime(181u8)) ^ 181u8 == 136u8 &&
        xtime(xtime(xtime(182u8))) ^ xtime(xtime(182u8)) ^ 182u8 == 159u8 &&
        xtime(xtime(xtime(183u8))) ^ xtime(xtime(183u8)) ^ 183u8 == 146u8 &&
        xtime(xtime(xtime(184u8))) ^ xtime(xtime(184u8)) ^ 184u8 == 217u8 &&
        xtime(xtime(xtime(185u8))) ^ xtime(xtime(185u8)) ^ 185u8 == 212u8 &&
        xtime(xtime(xtime(186u8))) ^ xtime(xtime(186u8)) ^ 186u8 == 195u8 &&
        xtime(xtime(xtime(187u8))) ^ xtime(xtime(187u8)) ^ 187u8 == 206u8 &&
        xtime(xtime(xtime(188u8))) ^ xtime(xtime(188u8)) ^ 188u8 == 237u8 &&
        xtime(xtime(xtime(189u8))) ^ xtime(xtime(189u8)) ^ 189u8 == 224u8 &&
        xtime(xtime(xtime(190u8))) ^ xtime(xtime(190u8)) ^ 190u8 == 247u8 &&
        xtime(xtime(xtime(191u8))) ^ xtime(xtime(191u8)) ^ 191u8 == 250u8 &&
        xtime(xtime(xtime(192u8))) ^ xtime(xtime(192u8)) ^ 192u8 == 183u8 &&
        xtime(xtime(xtime(193u8))) ^ xtime(xtime(193u8)) ^ 193u8 == 186u8 &&
        xtime(xtime(xtime(194u8))) ^ xtime(xtime(194u8)) ^ 194u8 == 173u8 &&
        xtime(xtime(xtime(195u8))) ^ xtime(xtime(195u8)) ^ 195u8 == 160u8 &&
        xtime(xtime(xtime(196u8))) ^ xtime(xtime(196u8)) ^ 196u8 == 131u8 &&
        xtime(xtime(xtime(197u8))) ^ xtime(xtime(197u8)) ^ 197u8 == 142u8 &&
        xtime(xtime(xtime(198u8))) ^ xtime(xtime(198u8)) ^ 198u8 == 153u8 &&
        xtime(xtime(xtime(199u8))) ^ xtime(xtime(199u8)) ^ 199u8 == 148u8 &&
        xtime(xtime(xtime(200u8))) ^ xtime(xtime(200u8)) ^ 200u8 == 223u8 &&
        xtime(xtime(xtime(201u8))) ^ xtime(xtime(201u8)) ^ 201u8 == 210u8 &&
        xtime(xtime(xtime(202u8))) ^ xtime(xtime(202u8)) ^ 202u8 == 197u8 &&
        xtime(xtime(xtime(203u8))) ^ xtime(xtime(203u8)) ^ 203u8 == 200u8 &&
        xtime(xtime(xtime(204u8))) ^ xtime(xtime(204u8)) ^ 204u8 == 235u8 &&
        xtime(xtime(xtime(205u8))) ^ xtime(xtime(205u8)) ^ 205u8 == 230u8 &&
        xtime(xtime(xtime(206u8))) ^ xtime(xtime(206u8)) ^ 206u8 == 241u8 &&
        xtime(xtime(xtime(207u8))) ^ xtime(xtime(207u8)) ^ 207u8 == 252u8 &&
        xtime(xtime(xtime(208u8))) ^ xtime(xtime(208u8)) ^ 208u8 == 103u8 &&
        xtime(xtime(xtime(209u8))) ^ xtime(xtime(209u8)) ^ 209u8 == 106u8 &&
        xtime(xtime(xtime(210u8))) ^ xtime(xtime(210u8)) ^ 210u8 == 125u8 &&
        xtime(xtime(xtime(211u8))) ^ xtime(xtime(211u8)) ^ 211u8 == 112u8 &&
        xtime(xtime(xtime(212u8))) ^ xtime(xtime(212u8)) ^ 212u8 == 83u8 &&
        xtime(xtime(xtime(213u8))) ^ xtime(xtime(213u8)) ^ 213u8 == 94u8 &&
        xtime(xtime(xtime(214u8))) ^ xtime(xtime(214u8)) ^ 214u8 == 73u8 &&
        xtime(xtime(xtime(215u8))) ^ xtime(xtime(215u8)) ^ 215u8 == 68u8 &&
        xtime(xtime(xtime(216u8))) ^ xtime(xtime(216u8)) ^ 216u8 == 15u8 &&
        xtime(xtime(xtime(217u8))) ^ xtime(xtime(217u8)) ^ 217u8 == 2u8 &&
        xtime(xtime(xtime(218u8))) ^ xtime(xtime(218u8)) ^ 218u8 == 21u8 &&
        xtime(xtime(xtime(219u8))) ^ xtime(xtime(219u8)) ^ 219u8 == 24u8 &&
        xtime(xtime(xtime(220u8))) ^ xtime(xtime(220u8)) ^ 220u8 == 59u8 &&
        xtime(xtime(xtime(221u8))) ^ xtime(xtime(221u8)) ^ 221u8 == 54u8 &&
        xtime(xtime(xtime(222u8))) ^ xtime(xtime(222u8)) ^ 222u8 == 33u8 &&
        xtime(xtime(xtime(223u8))) ^ xtime(xtime(223u8)) ^ 223u8 == 44u8 &&
        xtime(xtime(xtime(224u8))) ^ xtime(xtime(224u8)) ^ 224u8 == 12u8 &&
        xtime(xtime(xtime(225u8))) ^ xtime(xtime(225u8)) ^ 225u8 == 1u8 &&
        xtime(xtime(xtime(226u8))) ^ xtime(xtime(226u8)) ^ 226u8 == 22u8 &&
        xtime(xtime(xtime(227u8))) ^ xtime(xtime(227u8)) ^ 227u8 == 27u8 &&
        xtime(xtime(xtime(228u8))) ^ xtime(xtime(228u8)) ^ 228u8 == 56u8 &&
        xtime(xtime(xtime(229u8))) ^ xtime(xtime(229u8)) ^ 229u8 == 53u8 &&
        xtime(xtime(xtime(230u8))) ^ xtime(xtime(230u8)) ^ 230u8 == 34u8 &&
        xtime(xtime(xtime(231u8))) ^ xtime(xtime(231u8)) ^ 231u8 == 47u8 &&
        xtime(xtime(xtime(232u8))) ^ xtime(xtime(232u8)) ^ 232u8 == 100u8 &&
        xtime(xtime(xtime(233u8))) ^ xtime(xtime(233u8)) ^ 233u8 == 105u8 &&
        xtime(xtime(xtime(234u8))) ^ xtime(xtime(234u8)) ^ 234u8 == 126u8 &&
        xtime(xtime(xtime(235u8))) ^ xtime(xtime(235u8)) ^ 235u8 == 115u8 &&
        xtime(xtime(xtime(236u8))) ^ xtime(xtime(236u8)) ^ 236u8 == 80u8 &&
        xtime(xtime(xtime(237u8))) ^ xtime(xtime(237u8)) ^ 237u8 == 93u8 &&
        xtime(xtime(xtime(238u8))) ^ xtime(xtime(238u8)) ^ 238u8 == 74u8 &&
        xtime(xtime(xtime(239u8))) ^ xtime(xtime(239u8)) ^ 239u8 == 71u8 &&
        xtime(xtime(xtime(240u8))) ^ xtime(xtime(240u8)) ^ 240u8 == 220u8 &&
        xtime(xtime(xtime(241u8))) ^ xtime(xtime(241u8)) ^ 241u8 == 209u8 &&
        xtime(xtime(xtime(242u8))) ^ xtime(xtime(242u8)) ^ 242u8 == 198u8 &&
        xtime(xtime(xtime(243u8))) ^ xtime(xtime(243u8)) ^ 243u8 == 203u8 &&
        xtime(xtime(xtime(244u8))) ^ xtime(xtime(244u8)) ^ 244u8 == 232u8 &&
        xtime(xtime(xtime(245u8))) ^ xtime(xtime(245u8)) ^ 245u8 == 229u8 &&
        xtime(xtime(xtime(246u8))) ^ xtime(xtime(246u8)) ^ 246u8 == 242u8 &&
        xtime(xtime(xtime(247u8))) ^ xtime(xtime(247u8)) ^ 247u8 == 255u8 &&
        xtime(xtime(xtime(248u8))) ^ xtime(xtime(248u8)) ^ 248u8 == 180u8 &&
        xtime(xtime(xtime(249u8))) ^ xtime(xtime(249u8)) ^ 249u8 == 185u8 &&
        xtime(xtime(xtime(250u8))) ^ xtime(xtime(250u8)) ^ 250u8 == 174u8 &&
        xtime(xtime(xtime(251u8))) ^ xtime(xtime(251u8)) ^ 251u8 == 163u8 &&
        xtime(xtime(xtime(252u8))) ^ xtime(xtime(252u8)) ^ 252u8 == 128u8 &&
        xtime(xtime(xtime(253u8))) ^ xtime(xtime(253u8)) ^ 253u8 == 141u8 &&
        xtime(xtime(xtime(254u8))) ^ xtime(xtime(254u8)) ^ 254u8 == 154u8 &&
        xtime(xtime(xtime(255u8))) ^ xtime(xtime(255u8)) ^ 255u8 == 151u8,
{
    reveal(xtime);
    assert(
        xtime(xtime(xtime(0u8))) ^ xtime(xtime(0u8)) ^ 0u8 == 0u8 &&
        xtime(xtime(xtime(1u8))) ^ xtime(xtime(1u8)) ^ 1u8 == 13u8 &&
        xtime(xtime(xtime(2u8))) ^ xtime(xtime(2u8)) ^ 2u8 == 26u8 &&
        xtime(xtime(xtime(3u8))) ^ xtime(xtime(3u8)) ^ 3u8 == 23u8 &&
        xtime(xtime(xtime(4u8))) ^ xtime(xtime(4u8)) ^ 4u8 == 52u8 &&
        xtime(xtime(xtime(5u8))) ^ xtime(xtime(5u8)) ^ 5u8 == 57u8 &&
        xtime(xtime(xtime(6u8))) ^ xtime(xtime(6u8)) ^ 6u8 == 46u8 &&
        xtime(xtime(xtime(7u8))) ^ xtime(xtime(7u8)) ^ 7u8 == 35u8 &&
        xtime(xtime(xtime(8u8))) ^ xtime(xtime(8u8)) ^ 8u8 == 104u8 &&
        xtime(xtime(xtime(9u8))) ^ xtime(xtime(9u8)) ^ 9u8 == 101u8 &&
        xtime(xtime(xtime(10u8))) ^ xtime(xtime(10u8)) ^ 10u8 == 114u8 &&
        xtime(xtime(xtime(11u8))) ^ xtime(xtime(11u8)) ^ 11u8 == 127u8 &&
        xtime(xtime(xtime(12u8))) ^ xtime(xtime(12u8)) ^ 12u8 == 92u8 &&
        xtime(xtime(xtime(13u8))) ^ xtime(xtime(13u8)) ^ 13u8 == 81u8 &&
        xtime(xtime(xtime(14u8))) ^ xtime(xtime(14u8)) ^ 14u8 == 70u8 &&
        xtime(xtime(xtime(15u8))) ^ xtime(xtime(15u8)) ^ 15u8 == 75u8 &&
        xtime(xtime(xtime(16u8))) ^ xtime(xtime(16u8)) ^ 16u8 == 208u8 &&
        xtime(xtime(xtime(17u8))) ^ xtime(xtime(17u8)) ^ 17u8 == 221u8 &&
        xtime(xtime(xtime(18u8))) ^ xtime(xtime(18u8)) ^ 18u8 == 202u8 &&
        xtime(xtime(xtime(19u8))) ^ xtime(xtime(19u8)) ^ 19u8 == 199u8 &&
        xtime(xtime(xtime(20u8))) ^ xtime(xtime(20u8)) ^ 20u8 == 228u8 &&
        xtime(xtime(xtime(21u8))) ^ xtime(xtime(21u8)) ^ 21u8 == 233u8 &&
        xtime(xtime(xtime(22u8))) ^ xtime(xtime(22u8)) ^ 22u8 == 254u8 &&
        xtime(xtime(xtime(23u8))) ^ xtime(xtime(23u8)) ^ 23u8 == 243u8 &&
        xtime(xtime(xtime(24u8))) ^ xtime(xtime(24u8)) ^ 24u8 == 184u8 &&
        xtime(xtime(xtime(25u8))) ^ xtime(xtime(25u8)) ^ 25u8 == 181u8 &&
        xtime(xtime(xtime(26u8))) ^ xtime(xtime(26u8)) ^ 26u8 == 162u8 &&
        xtime(xtime(xtime(27u8))) ^ xtime(xtime(27u8)) ^ 27u8 == 175u8 &&
        xtime(xtime(xtime(28u8))) ^ xtime(xtime(28u8)) ^ 28u8 == 140u8 &&
        xtime(xtime(xtime(29u8))) ^ xtime(xtime(29u8)) ^ 29u8 == 129u8 &&
        xtime(xtime(xtime(30u8))) ^ xtime(xtime(30u8)) ^ 30u8 == 150u8 &&
        xtime(xtime(xtime(31u8))) ^ xtime(xtime(31u8)) ^ 31u8 == 155u8 &&
        xtime(xtime(xtime(32u8))) ^ xtime(xtime(32u8)) ^ 32u8 == 187u8 &&
        xtime(xtime(xtime(33u8))) ^ xtime(xtime(33u8)) ^ 33u8 == 182u8 &&
        xtime(xtime(xtime(34u8))) ^ xtime(xtime(34u8)) ^ 34u8 == 161u8 &&
        xtime(xtime(xtime(35u8))) ^ xtime(xtime(35u8)) ^ 35u8 == 172u8 &&
        xtime(xtime(xtime(36u8))) ^ xtime(xtime(36u8)) ^ 36u8 == 143u8 &&
        xtime(xtime(xtime(37u8))) ^ xtime(xtime(37u8)) ^ 37u8 == 130u8 &&
        xtime(xtime(xtime(38u8))) ^ xtime(xtime(38u8)) ^ 38u8 == 149u8 &&
        xtime(xtime(xtime(39u8))) ^ xtime(xtime(39u8)) ^ 39u8 == 152u8 &&
        xtime(xtime(xtime(40u8))) ^ xtime(xtime(40u8)) ^ 40u8 == 211u8 &&
        xtime(xtime(xtime(41u8))) ^ xtime(xtime(41u8)) ^ 41u8 == 222u8 &&
        xtime(xtime(xtime(42u8))) ^ xtime(xtime(42u8)) ^ 42u8 == 201u8 &&
        xtime(xtime(xtime(43u8))) ^ xtime(xtime(43u8)) ^ 43u8 == 196u8 &&
        xtime(xtime(xtime(44u8))) ^ xtime(xtime(44u8)) ^ 44u8 == 231u8 &&
        xtime(xtime(xtime(45u8))) ^ xtime(xtime(45u8)) ^ 45u8 == 234u8 &&
        xtime(xtime(xtime(46u8))) ^ xtime(xtime(46u8)) ^ 46u8 == 253u8 &&
        xtime(xtime(xtime(47u8))) ^ xtime(xtime(47u8)) ^ 47u8 == 240u8 &&
        xtime(xtime(xtime(48u8))) ^ xtime(xtime(48u8)) ^ 48u8 == 107u8 &&
        xtime(xtime(xtime(49u8))) ^ xtime(xtime(49u8)) ^ 49u8 == 102u8 &&
        xtime(xtime(xtime(50u8))) ^ xtime(xtime(50u8)) ^ 50u8 == 113u8 &&
        xtime(xtime(xtime(51u8))) ^ xtime(xtime(51u8)) ^ 51u8 == 124u8 &&
        xtime(xtime(xtime(52u8))) ^ xtime(xtime(52u8)) ^ 52u8 == 95u8 &&
        xtime(xtime(xtime(53u8))) ^ xtime(xtime(53u8)) ^ 53u8 == 82u8 &&
        xtime(xtime(xtime(54u8))) ^ xtime(xtime(54u8)) ^ 54u8 == 69u8 &&
        xtime(xtime(xtime(55u8))) ^ xtime(xtime(55u8)) ^ 55u8 == 72u8 &&
        xtime(xtime(xtime(56u8))) ^ xtime(xtime(56u8)) ^ 56u8 == 3u8 &&
        xtime(xtime(xtime(57u8))) ^ xtime(xtime(57u8)) ^ 57u8 == 14u8 &&
        xtime(xtime(xtime(58u8))) ^ xtime(xtime(58u8)) ^ 58u8 == 25u8 &&
        xtime(xtime(xtime(59u8))) ^ xtime(xtime(59u8)) ^ 59u8 == 20u8 &&
        xtime(xtime(xtime(60u8))) ^ xtime(xtime(60u8)) ^ 60u8 == 55u8 &&
        xtime(xtime(xtime(61u8))) ^ xtime(xtime(61u8)) ^ 61u8 == 58u8 &&
        xtime(xtime(xtime(62u8))) ^ xtime(xtime(62u8)) ^ 62u8 == 45u8 &&
        xtime(xtime(xtime(63u8))) ^ xtime(xtime(63u8)) ^ 63u8 == 32u8 &&
        xtime(xtime(xtime(64u8))) ^ xtime(xtime(64u8)) ^ 64u8 == 109u8 &&
        xtime(xtime(xtime(65u8))) ^ xtime(xtime(65u8)) ^ 65u8 == 96u8 &&
        xtime(xtime(xtime(66u8))) ^ xtime(xtime(66u8)) ^ 66u8 == 119u8 &&
        xtime(xtime(xtime(67u8))) ^ xtime(xtime(67u8)) ^ 67u8 == 122u8 &&
        xtime(xtime(xtime(68u8))) ^ xtime(xtime(68u8)) ^ 68u8 == 89u8 &&
        xtime(xtime(xtime(69u8))) ^ xtime(xtime(69u8)) ^ 69u8 == 84u8 &&
        xtime(xtime(xtime(70u8))) ^ xtime(xtime(70u8)) ^ 70u8 == 67u8 &&
        xtime(xtime(xtime(71u8))) ^ xtime(xtime(71u8)) ^ 71u8 == 78u8 &&
        xtime(xtime(xtime(72u8))) ^ xtime(xtime(72u8)) ^ 72u8 == 5u8 &&
        xtime(xtime(xtime(73u8))) ^ xtime(xtime(73u8)) ^ 73u8 == 8u8 &&
        xtime(xtime(xtime(74u8))) ^ xtime(xtime(74u8)) ^ 74u8 == 31u8 &&
        xtime(xtime(xtime(75u8))) ^ xtime(xtime(75u8)) ^ 75u8 == 18u8 &&
        xtime(xtime(xtime(76u8))) ^ xtime(xtime(76u8)) ^ 76u8 == 49u8 &&
        xtime(xtime(xtime(77u8))) ^ xtime(xtime(77u8)) ^ 77u8 == 60u8 &&
        xtime(xtime(xtime(78u8))) ^ xtime(xtime(78u8)) ^ 78u8 == 43u8 &&
        xtime(xtime(xtime(79u8))) ^ xtime(xtime(79u8)) ^ 79u8 == 38u8 &&
        xtime(xtime(xtime(80u8))) ^ xtime(xtime(80u8)) ^ 80u8 == 189u8 &&
        xtime(xtime(xtime(81u8))) ^ xtime(xtime(81u8)) ^ 81u8 == 176u8 &&
        xtime(xtime(xtime(82u8))) ^ xtime(xtime(82u8)) ^ 82u8 == 167u8 &&
        xtime(xtime(xtime(83u8))) ^ xtime(xtime(83u8)) ^ 83u8 == 170u8 &&
        xtime(xtime(xtime(84u8))) ^ xtime(xtime(84u8)) ^ 84u8 == 137u8 &&
        xtime(xtime(xtime(85u8))) ^ xtime(xtime(85u8)) ^ 85u8 == 132u8 &&
        xtime(xtime(xtime(86u8))) ^ xtime(xtime(86u8)) ^ 86u8 == 147u8 &&
        xtime(xtime(xtime(87u8))) ^ xtime(xtime(87u8)) ^ 87u8 == 158u8 &&
        xtime(xtime(xtime(88u8))) ^ xtime(xtime(88u8)) ^ 88u8 == 213u8 &&
        xtime(xtime(xtime(89u8))) ^ xtime(xtime(89u8)) ^ 89u8 == 216u8 &&
        xtime(xtime(xtime(90u8))) ^ xtime(xtime(90u8)) ^ 90u8 == 207u8 &&
        xtime(xtime(xtime(91u8))) ^ xtime(xtime(91u8)) ^ 91u8 == 194u8 &&
        xtime(xtime(xtime(92u8))) ^ xtime(xtime(92u8)) ^ 92u8 == 225u8 &&
        xtime(xtime(xtime(93u8))) ^ xtime(xtime(93u8)) ^ 93u8 == 236u8 &&
        xtime(xtime(xtime(94u8))) ^ xtime(xtime(94u8)) ^ 94u8 == 251u8 &&
        xtime(xtime(xtime(95u8))) ^ xtime(xtime(95u8)) ^ 95u8 == 246u8 &&
        xtime(xtime(xtime(96u8))) ^ xtime(xtime(96u8)) ^ 96u8 == 214u8 &&
        xtime(xtime(xtime(97u8))) ^ xtime(xtime(97u8)) ^ 97u8 == 219u8 &&
        xtime(xtime(xtime(98u8))) ^ xtime(xtime(98u8)) ^ 98u8 == 204u8 &&
        xtime(xtime(xtime(99u8))) ^ xtime(xtime(99u8)) ^ 99u8 == 193u8 &&
        xtime(xtime(xtime(100u8))) ^ xtime(xtime(100u8)) ^ 100u8 == 226u8 &&
        xtime(xtime(xtime(101u8))) ^ xtime(xtime(101u8)) ^ 101u8 == 239u8 &&
        xtime(xtime(xtime(102u8))) ^ xtime(xtime(102u8)) ^ 102u8 == 248u8 &&
        xtime(xtime(xtime(103u8))) ^ xtime(xtime(103u8)) ^ 103u8 == 245u8 &&
        xtime(xtime(xtime(104u8))) ^ xtime(xtime(104u8)) ^ 104u8 == 190u8 &&
        xtime(xtime(xtime(105u8))) ^ xtime(xtime(105u8)) ^ 105u8 == 179u8 &&
        xtime(xtime(xtime(106u8))) ^ xtime(xtime(106u8)) ^ 106u8 == 164u8 &&
        xtime(xtime(xtime(107u8))) ^ xtime(xtime(107u8)) ^ 107u8 == 169u8 &&
        xtime(xtime(xtime(108u8))) ^ xtime(xtime(108u8)) ^ 108u8 == 138u8 &&
        xtime(xtime(xtime(109u8))) ^ xtime(xtime(109u8)) ^ 109u8 == 135u8 &&
        xtime(xtime(xtime(110u8))) ^ xtime(xtime(110u8)) ^ 110u8 == 144u8 &&
        xtime(xtime(xtime(111u8))) ^ xtime(xtime(111u8)) ^ 111u8 == 157u8 &&
        xtime(xtime(xtime(112u8))) ^ xtime(xtime(112u8)) ^ 112u8 == 6u8 &&
        xtime(xtime(xtime(113u8))) ^ xtime(xtime(113u8)) ^ 113u8 == 11u8 &&
        xtime(xtime(xtime(114u8))) ^ xtime(xtime(114u8)) ^ 114u8 == 28u8 &&
        xtime(xtime(xtime(115u8))) ^ xtime(xtime(115u8)) ^ 115u8 == 17u8 &&
        xtime(xtime(xtime(116u8))) ^ xtime(xtime(116u8)) ^ 116u8 == 50u8 &&
        xtime(xtime(xtime(117u8))) ^ xtime(xtime(117u8)) ^ 117u8 == 63u8 &&
        xtime(xtime(xtime(118u8))) ^ xtime(xtime(118u8)) ^ 118u8 == 40u8 &&
        xtime(xtime(xtime(119u8))) ^ xtime(xtime(119u8)) ^ 119u8 == 37u8 &&
        xtime(xtime(xtime(120u8))) ^ xtime(xtime(120u8)) ^ 120u8 == 110u8 &&
        xtime(xtime(xtime(121u8))) ^ xtime(xtime(121u8)) ^ 121u8 == 99u8 &&
        xtime(xtime(xtime(122u8))) ^ xtime(xtime(122u8)) ^ 122u8 == 116u8 &&
        xtime(xtime(xtime(123u8))) ^ xtime(xtime(123u8)) ^ 123u8 == 121u8 &&
        xtime(xtime(xtime(124u8))) ^ xtime(xtime(124u8)) ^ 124u8 == 90u8 &&
        xtime(xtime(xtime(125u8))) ^ xtime(xtime(125u8)) ^ 125u8 == 87u8 &&
        xtime(xtime(xtime(126u8))) ^ xtime(xtime(126u8)) ^ 126u8 == 64u8 &&
        xtime(xtime(xtime(127u8))) ^ xtime(xtime(127u8)) ^ 127u8 == 77u8 &&
        xtime(xtime(xtime(128u8))) ^ xtime(xtime(128u8)) ^ 128u8 == 218u8 &&
        xtime(xtime(xtime(129u8))) ^ xtime(xtime(129u8)) ^ 129u8 == 215u8 &&
        xtime(xtime(xtime(130u8))) ^ xtime(xtime(130u8)) ^ 130u8 == 192u8 &&
        xtime(xtime(xtime(131u8))) ^ xtime(xtime(131u8)) ^ 131u8 == 205u8 &&
        xtime(xtime(xtime(132u8))) ^ xtime(xtime(132u8)) ^ 132u8 == 238u8 &&
        xtime(xtime(xtime(133u8))) ^ xtime(xtime(133u8)) ^ 133u8 == 227u8 &&
        xtime(xtime(xtime(134u8))) ^ xtime(xtime(134u8)) ^ 134u8 == 244u8 &&
        xtime(xtime(xtime(135u8))) ^ xtime(xtime(135u8)) ^ 135u8 == 249u8 &&
        xtime(xtime(xtime(136u8))) ^ xtime(xtime(136u8)) ^ 136u8 == 178u8 &&
        xtime(xtime(xtime(137u8))) ^ xtime(xtime(137u8)) ^ 137u8 == 191u8 &&
        xtime(xtime(xtime(138u8))) ^ xtime(xtime(138u8)) ^ 138u8 == 168u8 &&
        xtime(xtime(xtime(139u8))) ^ xtime(xtime(139u8)) ^ 139u8 == 165u8 &&
        xtime(xtime(xtime(140u8))) ^ xtime(xtime(140u8)) ^ 140u8 == 134u8 &&
        xtime(xtime(xtime(141u8))) ^ xtime(xtime(141u8)) ^ 141u8 == 139u8 &&
        xtime(xtime(xtime(142u8))) ^ xtime(xtime(142u8)) ^ 142u8 == 156u8 &&
        xtime(xtime(xtime(143u8))) ^ xtime(xtime(143u8)) ^ 143u8 == 145u8 &&
        xtime(xtime(xtime(144u8))) ^ xtime(xtime(144u8)) ^ 144u8 == 10u8 &&
        xtime(xtime(xtime(145u8))) ^ xtime(xtime(145u8)) ^ 145u8 == 7u8 &&
        xtime(xtime(xtime(146u8))) ^ xtime(xtime(146u8)) ^ 146u8 == 16u8 &&
        xtime(xtime(xtime(147u8))) ^ xtime(xtime(147u8)) ^ 147u8 == 29u8 &&
        xtime(xtime(xtime(148u8))) ^ xtime(xtime(148u8)) ^ 148u8 == 62u8 &&
        xtime(xtime(xtime(149u8))) ^ xtime(xtime(149u8)) ^ 149u8 == 51u8 &&
        xtime(xtime(xtime(150u8))) ^ xtime(xtime(150u8)) ^ 150u8 == 36u8 &&
        xtime(xtime(xtime(151u8))) ^ xtime(xtime(151u8)) ^ 151u8 == 41u8 &&
        xtime(xtime(xtime(152u8))) ^ xtime(xtime(152u8)) ^ 152u8 == 98u8 &&
        xtime(xtime(xtime(153u8))) ^ xtime(xtime(153u8)) ^ 153u8 == 111u8 &&
        xtime(xtime(xtime(154u8))) ^ xtime(xtime(154u8)) ^ 154u8 == 120u8 &&
        xtime(xtime(xtime(155u8))) ^ xtime(xtime(155u8)) ^ 155u8 == 117u8 &&
        xtime(xtime(xtime(156u8))) ^ xtime(xtime(156u8)) ^ 156u8 == 86u8 &&
        xtime(xtime(xtime(157u8))) ^ xtime(xtime(157u8)) ^ 157u8 == 91u8 &&
        xtime(xtime(xtime(158u8))) ^ xtime(xtime(158u8)) ^ 158u8 == 76u8 &&
        xtime(xtime(xtime(159u8))) ^ xtime(xtime(159u8)) ^ 159u8 == 65u8 &&
        xtime(xtime(xtime(160u8))) ^ xtime(xtime(160u8)) ^ 160u8 == 97u8 &&
        xtime(xtime(xtime(161u8))) ^ xtime(xtime(161u8)) ^ 161u8 == 108u8 &&
        xtime(xtime(xtime(162u8))) ^ xtime(xtime(162u8)) ^ 162u8 == 123u8 &&
        xtime(xtime(xtime(163u8))) ^ xtime(xtime(163u8)) ^ 163u8 == 118u8 &&
        xtime(xtime(xtime(164u8))) ^ xtime(xtime(164u8)) ^ 164u8 == 85u8 &&
        xtime(xtime(xtime(165u8))) ^ xtime(xtime(165u8)) ^ 165u8 == 88u8 &&
        xtime(xtime(xtime(166u8))) ^ xtime(xtime(166u8)) ^ 166u8 == 79u8 &&
        xtime(xtime(xtime(167u8))) ^ xtime(xtime(167u8)) ^ 167u8 == 66u8 &&
        xtime(xtime(xtime(168u8))) ^ xtime(xtime(168u8)) ^ 168u8 == 9u8 &&
        xtime(xtime(xtime(169u8))) ^ xtime(xtime(169u8)) ^ 169u8 == 4u8 &&
        xtime(xtime(xtime(170u8))) ^ xtime(xtime(170u8)) ^ 170u8 == 19u8 &&
        xtime(xtime(xtime(171u8))) ^ xtime(xtime(171u8)) ^ 171u8 == 30u8 &&
        xtime(xtime(xtime(172u8))) ^ xtime(xtime(172u8)) ^ 172u8 == 61u8 &&
        xtime(xtime(xtime(173u8))) ^ xtime(xtime(173u8)) ^ 173u8 == 48u8 &&
        xtime(xtime(xtime(174u8))) ^ xtime(xtime(174u8)) ^ 174u8 == 39u8 &&
        xtime(xtime(xtime(175u8))) ^ xtime(xtime(175u8)) ^ 175u8 == 42u8 &&
        xtime(xtime(xtime(176u8))) ^ xtime(xtime(176u8)) ^ 176u8 == 177u8 &&
        xtime(xtime(xtime(177u8))) ^ xtime(xtime(177u8)) ^ 177u8 == 188u8 &&
        xtime(xtime(xtime(178u8))) ^ xtime(xtime(178u8)) ^ 178u8 == 171u8 &&
        xtime(xtime(xtime(179u8))) ^ xtime(xtime(179u8)) ^ 179u8 == 166u8 &&
        xtime(xtime(xtime(180u8))) ^ xtime(xtime(180u8)) ^ 180u8 == 133u8 &&
        xtime(xtime(xtime(181u8))) ^ xtime(xtime(181u8)) ^ 181u8 == 136u8 &&
        xtime(xtime(xtime(182u8))) ^ xtime(xtime(182u8)) ^ 182u8 == 159u8 &&
        xtime(xtime(xtime(183u8))) ^ xtime(xtime(183u8)) ^ 183u8 == 146u8 &&
        xtime(xtime(xtime(184u8))) ^ xtime(xtime(184u8)) ^ 184u8 == 217u8 &&
        xtime(xtime(xtime(185u8))) ^ xtime(xtime(185u8)) ^ 185u8 == 212u8 &&
        xtime(xtime(xtime(186u8))) ^ xtime(xtime(186u8)) ^ 186u8 == 195u8 &&
        xtime(xtime(xtime(187u8))) ^ xtime(xtime(187u8)) ^ 187u8 == 206u8 &&
        xtime(xtime(xtime(188u8))) ^ xtime(xtime(188u8)) ^ 188u8 == 237u8 &&
        xtime(xtime(xtime(189u8))) ^ xtime(xtime(189u8)) ^ 189u8 == 224u8 &&
        xtime(xtime(xtime(190u8))) ^ xtime(xtime(190u8)) ^ 190u8 == 247u8 &&
        xtime(xtime(xtime(191u8))) ^ xtime(xtime(191u8)) ^ 191u8 == 250u8 &&
        xtime(xtime(xtime(192u8))) ^ xtime(xtime(192u8)) ^ 192u8 == 183u8 &&
        xtime(xtime(xtime(193u8))) ^ xtime(xtime(193u8)) ^ 193u8 == 186u8 &&
        xtime(xtime(xtime(194u8))) ^ xtime(xtime(194u8)) ^ 194u8 == 173u8 &&
        xtime(xtime(xtime(195u8))) ^ xtime(xtime(195u8)) ^ 195u8 == 160u8 &&
        xtime(xtime(xtime(196u8))) ^ xtime(xtime(196u8)) ^ 196u8 == 131u8 &&
        xtime(xtime(xtime(197u8))) ^ xtime(xtime(197u8)) ^ 197u8 == 142u8 &&
        xtime(xtime(xtime(198u8))) ^ xtime(xtime(198u8)) ^ 198u8 == 153u8 &&
        xtime(xtime(xtime(199u8))) ^ xtime(xtime(199u8)) ^ 199u8 == 148u8 &&
        xtime(xtime(xtime(200u8))) ^ xtime(xtime(200u8)) ^ 200u8 == 223u8 &&
        xtime(xtime(xtime(201u8))) ^ xtime(xtime(201u8)) ^ 201u8 == 210u8 &&
        xtime(xtime(xtime(202u8))) ^ xtime(xtime(202u8)) ^ 202u8 == 197u8 &&
        xtime(xtime(xtime(203u8))) ^ xtime(xtime(203u8)) ^ 203u8 == 200u8 &&
        xtime(xtime(xtime(204u8))) ^ xtime(xtime(204u8)) ^ 204u8 == 235u8 &&
        xtime(xtime(xtime(205u8))) ^ xtime(xtime(205u8)) ^ 205u8 == 230u8 &&
        xtime(xtime(xtime(206u8))) ^ xtime(xtime(206u8)) ^ 206u8 == 241u8 &&
        xtime(xtime(xtime(207u8))) ^ xtime(xtime(207u8)) ^ 207u8 == 252u8 &&
        xtime(xtime(xtime(208u8))) ^ xtime(xtime(208u8)) ^ 208u8 == 103u8 &&
        xtime(xtime(xtime(209u8))) ^ xtime(xtime(209u8)) ^ 209u8 == 106u8 &&
        xtime(xtime(xtime(210u8))) ^ xtime(xtime(210u8)) ^ 210u8 == 125u8 &&
        xtime(xtime(xtime(211u8))) ^ xtime(xtime(211u8)) ^ 211u8 == 112u8 &&
        xtime(xtime(xtime(212u8))) ^ xtime(xtime(212u8)) ^ 212u8 == 83u8 &&
        xtime(xtime(xtime(213u8))) ^ xtime(xtime(213u8)) ^ 213u8 == 94u8 &&
        xtime(xtime(xtime(214u8))) ^ xtime(xtime(214u8)) ^ 214u8 == 73u8 &&
        xtime(xtime(xtime(215u8))) ^ xtime(xtime(215u8)) ^ 215u8 == 68u8 &&
        xtime(xtime(xtime(216u8))) ^ xtime(xtime(216u8)) ^ 216u8 == 15u8 &&
        xtime(xtime(xtime(217u8))) ^ xtime(xtime(217u8)) ^ 217u8 == 2u8 &&
        xtime(xtime(xtime(218u8))) ^ xtime(xtime(218u8)) ^ 218u8 == 21u8 &&
        xtime(xtime(xtime(219u8))) ^ xtime(xtime(219u8)) ^ 219u8 == 24u8 &&
        xtime(xtime(xtime(220u8))) ^ xtime(xtime(220u8)) ^ 220u8 == 59u8 &&
        xtime(xtime(xtime(221u8))) ^ xtime(xtime(221u8)) ^ 221u8 == 54u8 &&
        xtime(xtime(xtime(222u8))) ^ xtime(xtime(222u8)) ^ 222u8 == 33u8 &&
        xtime(xtime(xtime(223u8))) ^ xtime(xtime(223u8)) ^ 223u8 == 44u8 &&
        xtime(xtime(xtime(224u8))) ^ xtime(xtime(224u8)) ^ 224u8 == 12u8 &&
        xtime(xtime(xtime(225u8))) ^ xtime(xtime(225u8)) ^ 225u8 == 1u8 &&
        xtime(xtime(xtime(226u8))) ^ xtime(xtime(226u8)) ^ 226u8 == 22u8 &&
        xtime(xtime(xtime(227u8))) ^ xtime(xtime(227u8)) ^ 227u8 == 27u8 &&
        xtime(xtime(xtime(228u8))) ^ xtime(xtime(228u8)) ^ 228u8 == 56u8 &&
        xtime(xtime(xtime(229u8))) ^ xtime(xtime(229u8)) ^ 229u8 == 53u8 &&
        xtime(xtime(xtime(230u8))) ^ xtime(xtime(230u8)) ^ 230u8 == 34u8 &&
        xtime(xtime(xtime(231u8))) ^ xtime(xtime(231u8)) ^ 231u8 == 47u8 &&
        xtime(xtime(xtime(232u8))) ^ xtime(xtime(232u8)) ^ 232u8 == 100u8 &&
        xtime(xtime(xtime(233u8))) ^ xtime(xtime(233u8)) ^ 233u8 == 105u8 &&
        xtime(xtime(xtime(234u8))) ^ xtime(xtime(234u8)) ^ 234u8 == 126u8 &&
        xtime(xtime(xtime(235u8))) ^ xtime(xtime(235u8)) ^ 235u8 == 115u8 &&
        xtime(xtime(xtime(236u8))) ^ xtime(xtime(236u8)) ^ 236u8 == 80u8 &&
        xtime(xtime(xtime(237u8))) ^ xtime(xtime(237u8)) ^ 237u8 == 93u8 &&
        xtime(xtime(xtime(238u8))) ^ xtime(xtime(238u8)) ^ 238u8 == 74u8 &&
        xtime(xtime(xtime(239u8))) ^ xtime(xtime(239u8)) ^ 239u8 == 71u8 &&
        xtime(xtime(xtime(240u8))) ^ xtime(xtime(240u8)) ^ 240u8 == 220u8 &&
        xtime(xtime(xtime(241u8))) ^ xtime(xtime(241u8)) ^ 241u8 == 209u8 &&
        xtime(xtime(xtime(242u8))) ^ xtime(xtime(242u8)) ^ 242u8 == 198u8 &&
        xtime(xtime(xtime(243u8))) ^ xtime(xtime(243u8)) ^ 243u8 == 203u8 &&
        xtime(xtime(xtime(244u8))) ^ xtime(xtime(244u8)) ^ 244u8 == 232u8 &&
        xtime(xtime(xtime(245u8))) ^ xtime(xtime(245u8)) ^ 245u8 == 229u8 &&
        xtime(xtime(xtime(246u8))) ^ xtime(xtime(246u8)) ^ 246u8 == 242u8 &&
        xtime(xtime(xtime(247u8))) ^ xtime(xtime(247u8)) ^ 247u8 == 255u8 &&
        xtime(xtime(xtime(248u8))) ^ xtime(xtime(248u8)) ^ 248u8 == 180u8 &&
        xtime(xtime(xtime(249u8))) ^ xtime(xtime(249u8)) ^ 249u8 == 185u8 &&
        xtime(xtime(xtime(250u8))) ^ xtime(xtime(250u8)) ^ 250u8 == 174u8 &&
        xtime(xtime(xtime(251u8))) ^ xtime(xtime(251u8)) ^ 251u8 == 163u8 &&
        xtime(xtime(xtime(252u8))) ^ xtime(xtime(252u8)) ^ 252u8 == 128u8 &&
        xtime(xtime(xtime(253u8))) ^ xtime(xtime(253u8)) ^ 253u8 == 141u8 &&
        xtime(xtime(xtime(254u8))) ^ xtime(xtime(254u8)) ^ 254u8 == 154u8 &&
        xtime(xtime(xtime(255u8))) ^ xtime(xtime(255u8)) ^ 255u8 == 151u8
    ) by (bit_vector);
}

/// The table of products by 13 holds `gf_mul(x, 13)` at index `x`.
pub proof fn lemma_gmul13_table()
    ensures
        forall|x: u8| #[trigger] GMUL13[x as int] == gf_mul(x, 13),
{
    lemma_gmul13_values();
    assert forall|x: u8| #[trigger] GMUL13[x as int] == gf_mul(x, 13) by {
        lemma_gf_mul_13(x);
        lemma_u8_cases(x);
    }
}

/// Products by 14, written with doublings.
pub proof fn lemma_gf_mul_14(x: u8)
    ensures
        gf_mul(x, 14) == xtime(xtime(xtime(x))) ^ xtime(xtime(x)) ^ xtime(x),
{
    reveal_with_fuel(gf_mul, 5);
    let x2 = xtime(x);
    let x4 = xtime(x2);
    let x8 = xtime(x4);
    lemma_xor_zero(x);
    lemma_xor_zero(x2);
    lemma_xor_zero(x4);
    lemma_xor_zero(x8);
    assert(x2 ^ (x4 ^ x8) == x8 ^ x4 ^ x2) by (bit_vector);
}

/// The entries of the table of products by 14, computed with doublings.
proof fn lemma_gmul14_values()
    ensures
        xtime(xtime(xtime(0u8))) ^ xtime(xtime(0u8)) ^ xtime(0u8) == 0u8 &&
        xtime(xtime(xtime(1u8))) ^ xtime(xtime(1u8)) ^ xtime(1u8) == 14u8 &&
        xtime(xtime(xtime(2u8))) ^ xtime(xtime(2u8)) ^ xtime(2u8) == 28u8 &&
        xtime(xtime(xtime(3u8))) ^ xtime(xtime(3u8)) ^ xtime(3u8) == 18u8 &&
        xtime(xtime(xtime(4u8))) ^ xtime(xtime(4u8)) ^ xtime(4u8) == 56u8 &&
        xtime(xtime(xtime(5u8))) ^ xtime(xtime(5u8)) ^ xtime(5u8) == 54u8 &&
        xtime(xtime(xtime(6u8))) ^ xtime(xtime(6u8)) ^ xtime(6u8) == 36u8 &&
        xtime(xtime(xtime(7u8))) ^ xtime(xtime(7u8)) ^ xtime(7u8) == 42u8 &&
        xtime(xtime(xtime(8u8))) ^ xtime(xtime(8u8)) ^ xtime(8u8) == 112u8 &&
        xtime(xtime(xtime(9u8))) ^ xtime(xtime(9u8)) ^ xtime(9u8) == 126u8 &&
        xtime(xtime(xtime(10u8))) ^ xtime(xtime(10u8)) ^ xtime(10u8) == 108u8 &&
        xtime(xtime(xtime(11u8))) ^ xtime(xtime(11u8)) ^ xtime(11u8) == 98u8 &&
        xtime(xtime(xtime(12u8))) ^ xtime(xtime(12u8)) ^ xtime(12u8) == 72u8 &&
        xtime(xtime(xtime(13u8))) ^ xtime(xtime(13u8)) ^ xtime(13u8) == 70u8 &&
        xtime(xtime(xtime(14u8))) ^ xtime(xtime(14u8)) ^ xtime(14u8) == 84u8 &&
        xtime(xtime(xtime(15u8))) ^ xtime(xtime(15u8)) ^ xtime(15u8) == 90u8 &&
        xtime(xtime(xtime(16u8))) ^ xtime(xtime(16u8)) ^ xtime(16u8) == 224u8 &&
        xtime(xtime(xtime(17u8))) ^ xtime(xtime(17u8)) ^ xtime(17u8) == 238u8 &&
        xtime(xtime(xtime(18u8))) ^ xtime(xtime(18u8)) ^ xtime(18u8) == 252u8 &&
        xtime(xtime(xtime(19u8))) ^ xtime(xtime(19u8)) ^ xtime(19u8) == 242u8 &&
        xtime(xtime(xtime(20u8))) ^ xtime(xtime(20u8)) ^ xtime(20u8) == 216u8 &&
        xtime(xtime(xtime(21u8))) ^ xtime(xtime(21u8)) ^ xtime(21u8) == 214u8 &&
        xtime(xtime(xtime(22u8))) ^ xtime(xtime(22u8)) ^ xtime(22u8) == 196u8 &&
        xtime(xtime(xtime(23u8))) ^ xtime(xtime(23u8)) ^ xtime(23u8) == 202u8 &&
        xtime(xtime(xtime(24u8))) ^ xtime(xtime(24u8)) ^ xtime(24u8) == 144u8 &&
        xtime(xtime(xtime(25u8))) ^ xtime(xtime(25u8)) ^ xtime(25u8) == 158u8 &&
        xtime(xtime(xtime(26u8))) ^ xtime(xtime(26u8)) ^ xtime(26u8) == 140u8 &&
        xtime(xtime(xtime(27u8))) ^ xtime(xtime(27u8)) ^ xtime(27u8) == 130u8 &&
        xtime(xtime(xtime(28u8))) ^ xtime(xtime(28u8)) ^ xtime(28u8) == 168u8 &&
        xtime(xtime(xtime(29u8))) ^ xtime(xtime(29u8)) ^ xtime(29u8) == 166u8 &&
        xtime(xtime(xtime(30u8))) ^ xtime(xtime(30u8)) ^ xtime(30u8) == 180u8 &&
        xtime(xtime(xtime(31u8))) ^ xtime(xtime(31u8)) ^ xtime(31u8) == 186u8 &&
        xtime(xtime(xtime(32u8))) ^ xtime(xtime(32u8)) ^ xtime(32u8) == 219u8 &&
        xtime(xtime(xtime(33u8))) ^ xtime(xtime(33u8)) ^ xtime(33u8) == 213u8 &&
        xtime(xtime(xtime(34u8))) ^ xtime(xtime(34u8)) ^ xtime(34u8) == 199u8 &&
        xtime(xtime(xtime(35u8))) ^ xtime(xtime(35u8)) ^ xtime(35u8) == 201u8 &&
        xtime(xtime(xtime(36u8))) ^ xtime(xtime(36u8)) ^ xtime(36u8) == 227u8 &&
        xtime(xtime(xtime(37u8))) ^ xtime(xtime(37u8)) ^ xtime(37u8) == 237u8 &&
        xtime(xtime(xtime(38u8))) ^ xtime(xtime(38u8)) ^ xtime(38u8) == 255u8 &&
        xtime(xtime(xtime(39u8))) ^ xtime(xtime(39u8)) ^ xtime(39u8) == 241u8 &&
        xtime(xtime(xtime(40u8))) ^ xtime(xtime(40u8)) ^ xtime(40u8) == 171u8 &&
        xtime(xtime(xtime(41u8))) ^ xtime(xtime(41u8)) ^ xtime(41u8) == 165u8 &&
        xtime(xtime(xtime(42u8))) ^ xtime(xtime(42u8)) ^ xtime(42u8) == 183u8 &&
        xtime(xtime(xtime(43u8))) ^ xtime(xtime(43u8)) ^ xtime(43u8) == 185u8 &&
        xtime(xtime(xtime(44u8))) ^ xtime(xtime(44u8)) ^ xtime(44u8) == 147u8 &&
        xtime(xtime(xtime(45u8))) ^ xtime(xtime(45u8)) ^ xtime(45u8) == 157u8 &&
        xtime(xtime(xtime(46u8))) ^ xtime(xtime(46u8)) ^ xtime(46u8) == 143u8 &&
        xtime(xtime(xtime(47u8))) ^ xtime(xtime(47u8)) ^ xtime(47u8) == 129u8 &&
        xtime(xtime(xtime(48u8))) ^ xtime(xtime(48u8)) ^ xtime(48u8) == 59u8 &&
        xtime(xtime(xtime(49u8))) ^ xtime(xtime(49u8)) ^ xtime(49u8) == 53u8 &&
        xtime(xtime(xtime(50u8))) ^ xtime(xtime(50u8)) ^ xtime(50u8) == 39u8 &&
        xtime(xtime(xtime(51u8))) ^ xtime(xtime(51u8)) ^ xtime(51u8) == 41u8 &&
        xtime(xtime(xtime(52u8))) ^ xtime(xtime(52u8)) ^ xtime(52u8) == 3u8 &&
        xtime(xtime(xtime(53u8))) ^ xtime(xtime(53u8)) ^ xtime(53u8) == 13u8 &&
        xtime(xtime(xtime(54u8))) ^ xtime(xtime(54u8)) ^ xtime(54u8) == 31u8 &&
        xtime(xtime(xtime(55u8))) ^ xtime(xtime(55u8)) ^ xtime(55u8) == 17u8 &&
        xtime(xtime(xtime(56u8))) ^ xtime(xtime(56u8)) ^ xtime(56u8) == 75u8 &&
        xtime(xtime(xtime(57u8))) ^ xtime(xtime(57u8)) ^ xtime(57u8) == 69u8 &&
        xtime(xtime(xtime(58u8))) ^ xtime(xtime(58u8)) ^ xtime(58u8) == 87u8 &&
        xtime(xtime(xtime(59u8))) ^ xtime(xtime(59u8)) ^ xtime(59u8) == 89u8 &&
        xtime(xtime(xtime(60u8))) ^ xtime(xtime(60u8)) ^ xtime(60u8) == 115u8 &&
        xtime(xtime(xtime(61u8))) ^ xtime(xtime(61u8)) ^ xtime(61u8) == 125u8 &&
        xtime(xtime(xtime(62u8))) ^ xtime(xtime(62u8)) ^ xtime(62u8) == 111u8 &&
        xtime(xtime(xtime(63u8))) ^ xtime(xtime(63u8)) ^ xtime(63u8) == 97u8 &&
        xtime(xtime(xtime(64u8))) ^ xtime(xtime(64u8)) ^ xtime(64u8) == 173u8 &&
        xtime(xtime(xtime(65u8))) ^ xtime(xtime(65u8)) ^ xtime(65u8) == 163u8 &&
        xtime(xtime(xtime(66u8))) ^ xtime(xtime(66u8)) ^ xtime(66u8) == 177u8 &&
        xtime(xtime(xtime(67u8))) ^ xtime(xtime(67u8)) ^ xtime(67u8) == 191u8 &&
        xtime(xtime(xtime(68u8))) ^ xtime(xtime(68u8)) ^ xtime(68u8) == 149u8 &&
        xtime(xtime(xtime(69u8))) ^ xtime(xtime(69u8)) ^ xtime(69u8) == 155u8 &&
        xtime(xtime(xtime(70u8))) ^ xtime(xtime(70u8)) ^ xtime(70u8) == 137u8 &&
        xtime(xtime(xtime(71u8))) ^ xtime(xtime(71u8)) ^ xtime(71u8) == 135u8 &&
        xtime(xtime(xtime(72u8))) ^ xtime(xtime(72u8)) ^ xtime(72u8) == 221u8 &&
        xtime(xtime(xtime(73u8))) ^ xtime(xtime(73u8)) ^ xtime(73u8) == 211u8 &&
        xtime(xtime(xtime(74u8))) ^ xtime(xtime(74u8)) ^ xtime(74u8) == 193u8 &&
        xtime(xtime(xtime(75u8))) ^ xtime(xtime(75u8)) ^ xtime(75u8) == 207u8 &&
        xtime(xtime(xtime(76u8))) ^ xtime(xtime(76u8)) ^ xtime(76u8) == 229u8 &&
        xtime(xtime(xtime(77u8))) ^ xtime(xtime(77u8)) ^ xtime(77u8) == 235u8 &&
        xtime(xtime(xtime(78u8))) ^ xtime(xtime(78u8)) ^ xtime(78u8) == 249u8 &&
        xtime(xtime(xtime(79u8))) ^ xtime(xtime(79u8)) ^ xtime(79u8) == 247u8 &&
        xtime(xtime(xtime(80u8))) ^ xtime(xtime(80u8)) ^ xtime(80u8) == 77u8 &&
        xtime(xtime(xtime(81u8))) ^ xtime(xtime(81u8)) ^ xtime(81u8) == 67u8 &&
        xtime(xtime(xtime(82u8))) ^ xtime(xtime(82u8)) ^ xtime(82u8) == 81u8 &&
        xtime(xtime(xtime(83u8))) ^ xtime(xtime(83u8)) ^ xtime(83u8) == 95u8 &&
        xtime(xtime(xtime(84u8))) ^ xtime(xtime(84u8)) ^ xtime(84u8) == 117u8 &&
        xtime(xtime(xtime(85u8))) ^ xtime(xtime(85u8)) ^ xtime(85u8) == 123u8 &&
        xtime(xtime(xtime(86u8))) ^ xtime(xtime(86u8)) ^ xtime(86u8) == 105u8 &&
        xtime(xtime(xtime(87u8))) ^ xtime(xtime(87u8)) ^ xtime(87u8) == 103u8 &&
        xtime(xtime(xtime(88u8))) ^ xtime(xtime(88u8)) ^ xtime(88u8) == 61u8 &&
        xtime(xtime(xtime(89u8))) ^ xtime(xtime(89u8)) ^ xtime(89u8) == 51u8 &&
        xtime(xtime(xtime(90u8))) ^ xtime(xtime(90u8)) ^ xtime(90u8) == 33u8 &&
        xtime(xtime(xtime(91u8))) ^ xtime(xtime(91u8)) ^ xtime(91u8) == 47u8 &&
        xtime(xtime(xtime(92u8))) ^ xtime(xtime(92u8)) ^ xtime(92u8) == 5u8 &&
        xtime(xtime(xtime(93u8))) ^ xtime(xtime(93u8)) ^ xtime(93u8) == 11u8 &&
        xtime(xtime(xtime(94u8))) ^ xtime(xtime(94u8)) ^ xtime(94u8) == 25u8 &&
        xtime(xtime(xtime(95u8))) ^ xtime(xtime(95u8)) ^ xtime(95u8) == 23u8 &&
        xtime(xtime(xtime(96u8))) ^ xtime(xtime(96u8)) ^ xtime(96u8) == 118u8 &&
        xtime(xtime(xtime(97u8))) ^ xtime(xtime(97u8)) ^ xtime(97u8) == 120u8 &&
        xtime(xtime(xtime(98u8))) ^ xtime(xtime(98u8)) ^ xtime(98u8) == 106u8 &&
        xtime(xtime(xtime(99u8))) ^ xtime(xtime(99u8)) ^ xtime(99u8) == 100u8 &&
        xtime(xtime(xtime(100u8))) ^ xtime(xtime(100u8)) ^ xtime(100u8) == 78u8 &&
        xtime(xtime(xtime(101u8))) ^ xtime(xtime(101u8)) ^ xtime(101u8) == 64u8 &&
        xtime(xtime(xtime(102u8))) ^ xtime(xtime(102u8)) ^ xtime(102u8) == 82u8 &&
        xtime(xtime(xtime(103u8))) ^ xtime(xtime(103u8)) ^ xtime(103u8) == 92u8 &&
        xtime(xtime(xtime(104u8))) ^ xtime(xtime(104u8)) ^ xtime(104u8) == 6u8 &&
        xtime(xtime(xtime(105u8))) ^ xtime(xtime(105u8)) ^ xtime(105u8) == 8u8 &&
        xtime(xtime(xtime(106u8))) ^ xtime(xtime(106u8)) ^ xtime(106u8) == 26u8 &&
        xtime(xtime(xtime(107u8))) ^ xtime(xtime(107u8)) ^ xtime(107u8) == 20u8 &&
        xtime(xtime(xtime(108u8))) ^ xtime(xtime(108u8)) ^ xtime(108u8) == 62u8 &&
        xtime(xtime(xtime(109u8))) ^ xtime(xtime(109u8)) ^ xtime(109u8) == 48u8 &&
        xtime(xtime(xtime(110u8))) ^ xtime(xtime(110u8)) ^ xtime(110u8) == 34u8 &&
        xtime(xtime(xtime(111u8))) ^ xtime(xtime(111u8)) ^ xtime(111u8) == 44u8 &&
        xtime(xtime(xtime(112u8))) ^ xtime(xtime(112u8)) ^ xtime(112u8) == 150u8 &&
        xtime(xtime(xtime(113u8))) ^ xtime(xtime(113u8)) ^ xtime(113u8) == 152u8 &&
        xtime(xtime(xtime(114u8))) ^ xtime(xtime(114u8)) ^ xtime(114u8) == 138u8 &&
        xtime(xtime(xtime(115u8))) ^ xtime(xtime(115u8)) ^ xtime(115u8) == 132u8 &&
        xtime(xtime(xtime(116u8))) ^ xtime(xtime(116u8)) ^ xtime(116u8) == 174u8 &&
        xtime(xtime(xtime(117u8))) ^ xtime(xtime(117u8)) ^ xtime(117u8) == 160u8 &&
        xtime(xtime(xtime(118u8))) ^ xtime(xtime(118u8)) ^ xtime(118u8) == 178u8 &&
        xtime(xtime(xtime(119u8))) ^ xtime(xtime(119u8)) ^ xtime(119u8) == 188u8 &&
        xtime(xtime(xtime(120u8))) ^ xtime(xtime(120u8)) ^ xtime(120u8) == 230u8 &&
        xtime(xtime(xtime(121u8))) ^ xtime(xtime(121u8)) ^ xtime(121u8) == 232u8 &&
        xtime(xtime(xtime(122u8))) ^ xtime(xtime(122u8)) ^ xtime(122u8) == 250u8 &&
        xtime(xtime(xtime(123u8))) ^ xtime(xtime(123u8)) ^ xtime(123u8) == 244u8 &&
        xtime(xtime(xtime(124u8))) ^ xtime(xtime(124u8)) ^ xtime(124u8) == 222u8 &&
        xtime(xtime(xtime(125u8))) ^ xtime(xtime(125u8)) ^ xtime(125u8) == 208u8 &&
        xtime(xtime(xtime(126u8))) ^ xtime(xtime(126u8)) ^ xtime(126u8) == 194u8 &&
        xtime(xtime(xtime(127u8))) ^ xtime(xtime(127u8)) ^ xtime(127u8) == 204u8 &&
        xtime(xtime(xtime(128u8))) ^ xtime(xtime(128u8)) ^ xtime(128u8) == 65u8 &&
        xtime(xtime(xtime(129u8))) ^ xtime(xtime(129u8)) ^ xtime(129u8) == 79u8 &&
        xtime(xtime(xtime(130u8))) ^ xtime(xtime(130u8)) ^ xtime(130u8) == 93u8 &&
        xtime(xtime(xtime(131u8))) ^ xtime(xtime(131u8)) ^ xtime(131u8) == 83u8 &&
        xtime(xtime(xtime(132u8))) ^ xtime(xtime(132u8)) ^ xtime(132u8) == 121u8 &&
        xtime(xtime(xtime(133u8))) ^ xtime(xtime(133u8)) ^ xtime(133u8) == 119u8 &&
        xtime(xtime(xtime(134u8))) ^ xtime(xtime(134u8)) ^ xtime(134u8) == 101u8 &&
        xtime(xtime(xtime(135u8))) ^ xtime(xtime(135u8)) ^ xtime(135u8) == 107u8 &&
        xtime(xtime(xtime(136u8))) ^ xtime(xtime(136u8)) ^ xtime(136u8) == 49u8 &&
        xtime(xtime(xtime(137u8))) ^ xtime(xtime(137u8)) ^ xtime(137u8) == 63u8 &&
        xtime(xtime(xtime(138u8))) ^ xtime(xtime(138u8)) ^ xtime(138u8) == 45u8 &&
        xtime(xtime(xtime(139u8))) ^ xtime(xtime(139u8)) ^ xtime(139u8) == 35u8 &&
        xtime(xtime(xtime(140u8))) ^ xtime(xtime(140u8)) ^ xtime(140u8) == 9u8 &&
        xtime(xtime(xtime(141u8))) ^ xtime(xtime(141u8)) ^ xtime(141u8) == 7u8 &&
        xtime(xtime(xtime(142u8))) ^ xtime(xtime(142u8)) ^ xtime(142u8) == 21u8 &&
        xtime(xtime(xtime(143u8))) ^ xtime(xtime(143u8)) ^ xtime(143u8) == 27u8 &&
        xtime(xtime(xtime(144u8))) ^ xtime(xtime(144u8)) ^ xtime(144u8) == 161u8 &&
        xtime(xtime(xtime(145u8))) ^ xtime(xtime(145u8)) ^ xtime(145u8) == 175u8 &&
        xtime(xtime(xtime(146u8))) ^ xtime(xtime(146u8)) ^ xtime(146u8) == 189u8 &&
        xtime(xtime(xtime(147u8))) ^ xtime(xtime(147u8)) ^ xtime(147u8) == 179u8 &&
        xtime(xtime(xtime(148u8))) ^ xtime(xtime(148u8)) ^ xtime(148u8) == 153u8 &&
        xtime(xtime(xtime(149u8))) ^ xtime(xtime(149u8)) ^ xtime(149u8) == 151u8 &&
        xtime(xtime(xtime(150u8))) ^ xtime(xtime(150u8)) ^ xtime(150u8) == 133u8 &&
        xtime(xtime(xtime(151u8))) ^ xtime(xtime(151u8)) ^ xtime(151u8) == 139u8 &&
        xtime(xtime(xtime(152u8))) ^ xtime(xtime(152u8)) ^ xtime(152u8) == 209u8 &&
        xtime(xtime(xtime(153u8))) ^ xtime(xtime(153u8)) ^ xtime(153u8) == 223u8 &&
        xtime(xtime(xtime(154u8))) ^ xtime(xtime(154u8)) ^ xtime(154u8) == 205u8 &&
        xtime(xtime(xtime(155u8))) ^ xtime(xtime(155u8)) ^ xtime(155u8) == 195u8 &&
        xtime(xtime(xtime(156u8))) ^ xtime(xtime(156u8)) ^ xtime(156u8) == 233u8 &&
        xtime(xtime(xtime(157u8))) ^ xtime(xtime(157u8)) ^ xtime(157u8) == 231u8 &&
        xtime(xtime(xtime(158u8))) ^ xtime(xtime(158u8)) ^ xtime(158u8) == 245u8 &&
        xtime(xtime(xtime(159u8))) ^ xtime(xtime(159u8)) ^ xtime(159u8) == 251u8 &&
        xtime(xtime(xtime(160u8))) ^ xtime(xtime(160u8)) ^ xtime(160u8) == 154u8 &&
        xtime(xtime(xtime(161u8))) ^ xtime(xtime(161u8)) ^ xtime(161u8) == 148u8 &&
        xtime(xtime(xtime(162u8))) ^ xtime(xtime(162u8)) ^ xtime(162u8) == 134u8 &&
        xtime(xtime(xtime(163u8))) ^ xtime(xtime(163u8)) ^ xtime(163u8) == 136u8 &&
        xtime(xtime(xtime(164u8))) ^ xtime(xtime(164u8)) ^ xtime(164u8) == 162u8 &&
        xtime(xtime(xtime(165u8))) ^ xtime(xtime(165u8)) ^ xtime(165u8) == 172u8 &&
        xtime(xtime(xtime(166u8))) ^ xtime(xtime(166u8)) ^ xtime(166u8) == 190u8 &&
        xtime(xtime(xtime(167u8))) ^ xtime(xtime(167u8)) ^ xtime(167u8) == 176u8 &&
        xtime(xtime(xtime(168u8))) ^ xtime(xtime(168u8)) ^ xtime(168u8) == 234u8 &&
        xtime(xtime(xtime(169u8))) ^ xtime(xtime(169u8)) ^ xtime(169u8) == 228u8 &&
        xtime(xtime(xtime(170u8))) ^ xtime(xtime(170u8)) ^ xtime(170u8) == 246u8 &&
        xtime(xtime(xtime(171u8))) ^ xtime(xtime(171u8)) ^ xtime(171u8) == 248u8 &&
        xtime(xtime(xtime(172u8))) ^ xtime(xtime(172u8)) ^ xtime(172u8) == 210u8 &&
        xtime(xtime(xtime(173u8))) ^ xtime(xtime(173u8)) ^ xtime(173u8) == 220u8 &&
        xtime(xtime(xtime(174u8))) ^ xtime(xtime(174u8)) ^ xtime(174u8) == 206u8 &&
        xtime(xtime(xtime(175u8))) ^ xtime(xtime(175u8)) ^ xtime(175u8) == 192u8 &&
        xtime(xtime(xtime(176u8))) ^ xtime(xtime(176u8)) ^ xtime(176u8) == 122u8 &&
        xtime(xtime(xtime(177u8))) ^ xtime(xtime(177u8)) ^ xtime(177u8) == 116u8 &&
        xtime(xtime(xtime(178u8))) ^ xtime(xtime(178u8)) ^ xtime(178u8) == 102u8 &&
        xtime(xtime(xtime(179u8))) ^ xtime(xtime(179u8)) ^ xtime(179u8) == 104u8 &&
        xtime(xtime(xtime(180u8))) ^ xtime(xtime(180u8)) ^ xtime(180u8) == 66u8 &&
        xtime(xtime(xtime(181u8))) ^ xtime(xtime(181u8)) ^ xtime(181u8) == 76u8 &&
        xtime(xtime(xtime(182u8))) ^ xtime(xtime(182u8)) ^ xtime(182u8) == 94u8 &&
        xtime(xtime(xtime(183u8))) ^ xtime(xtime(183u8)) ^ xtime(183u8) == 80u8 &&
        xtime(xtime(xtime(184u8))) ^ xtime(xtime(184u8)) ^ xtime(184u8) == 10u8 &&
        xtime(xtime(xtime(185u8))) ^ xtime(xtime(185u8)) ^ xtime(185u8) == 4u8 &&
        xtime(xtime(xtime(186u8))) ^ xtime(xtime(186u8)) ^ xtime(186u8) == 22u8 &&
        xtime(xtime(xtime(187u8))) ^ xtime(xtime(187u8)) ^ xtime(187u8) == 24u8 &&
        xtime(xtime(xtime(188u8))) ^ xtime(xtime(188u8)) ^ xtime(188u8) == 50u8 &&
        xtime(xtime(xtime(189u8))) ^ xtime(xtime(189u8)) ^ xtime(189u8) == 60u8 &&
        xtime(xtime(xtime(190u8))) ^ xtime(xtime(190u8)) ^ xtime(190u8) == 46u8 &&
        xtime(xtime(xtime(191u8))) ^ xtime(xtime(191u8)) ^ xtime(191u8) == 32u8 &&
        xtime(xtime(xtime(192u8))) ^ xtime(xtime(192u8)) ^ xtime(192u8) == 236u8 &&
        xtime(xtime(xtime(193u8))) ^ xtime(xtime(193u8)) ^ xtime(193u8) == 226u8 &&
        xtime(xtime(xtime(194u8))) ^ xtime(xtime(194u8)) ^ xtime(194u8) == 240u8 &&
        xtime(xtime(xtime(195u8))) ^ xtime(xtime(195u8)) ^ xtime(195u8) == 254u8 &&
        xtime(xtime(xtime(196u8))) ^ xtime(xtime(196u8)) ^ xtime(196u8) == 212u8 &&
        xtime(xtime(xtime(197u8))) ^ xtime(xtime(197u8)) ^ xtime(197u8) == 218u8 &&
        xtime(xtime(xtime(198u8))) ^ xtime(xtime(198u8)) ^ xtime(198u8) == 200u8 &&
        xtime(xtime(xtime(199u8))) ^ xtime(xtime(199u8)) ^ xtime(199u8) == 198u8 &&
        xtime(xtime(xtime(200u8))) ^ xtime(xtime(200u8)) ^ xtime(200u8) == 156u8 &&
        xtime(xtime(xtime(201u8))) ^ xtime(xtime(201u8)) ^ xtime(201u8) == 146u8 &&
        xtime(xtime(xtime(202u8))) ^ xtime(xtime(202u8)) ^ xtime(202u8) == 128u8 &&
        xtime(xtime(xtime(203u8))) ^ xtime(xtime(203u8)) ^ xtime(203u8) == 142u8 &&
        xtime(xtime(xtime(204u8))) ^ xtime(xtime(204u8)) ^ xtime(204u8) == 164u8 &&
        xtime(xtime(xtime(205u8))) ^ xtime(xtime(205u8)) ^ xtime(205u8) == 170u8 &&
        xtime(xtime(xtime(206u8))) ^ xtime(xtime(206u8)) ^ xtime(206u8) == 184u8 &&
        xtime(xtime(xtime(207u8))) ^ xtime(xtime(207u8)) ^ xtime(207u8) == 182u8 &&
        xtime(xtime(xtime(208u8))) ^ xtime(xtime(208u8)) ^ xtime(208u8) == 12u8 &&
        xtime(xtime(xtime(209u8))) ^ xtime(xtime(209u8)) ^ xtime(209u8) == 2u8 &&
        xtime(xtime(xtime(210u8))) ^ xtime(xtime(210u8)) ^ xtime(210u8) == 16u8 &&
        xtime(xtime(xtime(211u8))) ^ xtime(xtime(211u8)) ^ xtime(211u8) == 30u8 &&
        xtime(xtime(xtime(212u8))) ^ xtime(xtime(212u8)) ^ xtime(212u8) == 52u8 &&
        xtime(xtime(xtime(213u8))) ^ xtime(xtime(213u8)) ^ xtime(213u8) == 58u8 &&
        xtime(xtime(xtime(214u8))) ^ xtime(xtime(214u8)) ^ xtime(214u8) == 40u8 &&
        xtime(xtime(xtime(215u8))) ^ xtime(xtime(215u8)) ^ xtime(215u8) == 38u8 &&
        xtime(xtime(xtime(216u8))) ^ xtime(xtime(216u8)) ^ xtime(216u8) == 124u8 &&
        xtime(xtime(xtime(217u8))) ^ xtime(xtime(217u8)) ^ xtime(217u8) == 114u8 &&
        xtime(xtime(xtime(218u8))) ^ xtime(xtime(218u8)) ^ xtime(218u8) == 96u8 &&
        xtime(xtime(xtime(219u8))) ^ xtime(xtime(219u8)) ^ xtime(219u8) == 110u8 &&
        xtime(xtime(xtime(220u8))) ^ xtime(xtime(220u8)) ^ xtime(220u8) == 68u8 &&
        xtime(xtime(xtime(221u8))) ^ xtime(xtime(221u8)) ^ xtime(221u8) == 74u8 &&
        xtime(xtime(xtime(222u8))) ^ xtime(xtime(222u8)) ^ xtime(222u8) == 88u8 &&
        xtime(xtime(xtime(223u8))) ^ xtime(xtime(223u8)) ^ xtime(223u8) == 86u8 &&
        xtime(xtime(xtime(224u8))) ^ xtime(xtime(224u8)) ^ xtime(224u8) == 55u8 &&
        xtime(xtime(xtime(225u8))) ^ xtime(xtime(225u8)) ^ xtime(225u8) == 57u8 &&
        xtime(xtime(xtime(226u8))) ^ xtime(xtime(226u8)) ^ xtime(226u8) == 43u8 &&
        xtime(xtime(xtime(227u8))) ^ xtime(xtime(227u8)) ^ xtime(227u8) == 37u8 &&
        xtime(xtime(xtime(228u8))) ^ xtime(xtime(228u8)) ^ xtime(228u8) == 15u8 &&
        xtime(xtime(xtime(229u8))) ^ xtime(xtime(229u8)) ^ xtime(229u8) == 1u8 &&
        xtime(xtime(xtime(230u8))) ^ xtime(xtime(230u8)) ^ xtime(230u8) == 19u8 &&
        xtime(xtime(xtime(231u8))) ^ xtime(xtime(231u8)) ^ xtime(231u8) == 29u8 &&
        xtime(xtime(xtime(232u8))) ^ xtime(xtime(232u8)) ^ xtime(232u8) == 71u8 &&
        xtime(xtime(xtime(233u8))) ^ xtime(xtime(233u8)) ^ xtime(233u8) == 73u8 &&
        xtime(xtime(xtime(234u8))) ^ xtime(xtime(234u8)) ^ xtime(234u8) == 91u8 &&
        xtime(xtime(xtime(235u8))) ^ xtime(xtime(235u8)) ^ xtime(235u8) == 85u8 &&
        xtime(xtime(xtime(236u8))) ^ xtime(xtime(236u8)) ^ xtime(236u8) == 127u8 &&
        xtime(xtime(xtime(237u8))) ^ xtime(xtime(237u8)) ^ xtime(237u8) == 113u8 &&
        xtime(xtime(xtime(238u8))) ^ xtime(xtime(238u8)) ^ xtime(238u8) == 99u8 &&
        xtime(xtime(xtime(239u8))) ^ xtime(xtime(239u8)) ^ xtime(239u8) == 109u8 &&
        xtime(xtime(xtime(240u8))) ^ xtime(xtime(240u8)) ^ xtime(240u8) == 215u8 &&
        xtime(xtime(xtime(241u8))) ^ xtime(xtime(241u8)) ^ xtime(241u8) == 217u8 &&
        xtime(xtime(xtime(242u8))) ^ xtime(xtime(242u8)) ^ xtime(242u8) == 203u8 &&
        xtime(xtime(xtime(243u8))) ^ xtime(xtime(243u8)) ^ xtime(243u8) == 197u8 &&
        xtime(xtime(xtime(244u8))) ^ xtime(xtime(244u8)) ^ xtime(244u8) == 239u8 &&
        xtime(xtime(xtime(245u8))) ^ xtime(xtime(245u8)) ^ xtime(245u8) == 225u8 &&
        xtime(xtime(xtime(246u8))) ^ xtime(xtime(246u8)) ^ xtime(246u8) == 243u8 &&
        xtime(xtime(xtime(247u8))) ^ xtime(xtime(247u8)) ^ xtime(247u8) == 253u8 &&
        xtime(xtime(xtime(248u8))) ^ xtime(xtime(248u8)) ^ xtime(248u8) == 167u8 &&
        xtime(xtime(xtime(249u8))) ^ xtime(xtime(249u8)) ^ xtime(249u8) == 169u8 &&
        xtime(xtime(xtime(250u8))) ^ xtime(xtime(250u8)) ^ xtime(250u8) == 187u8 &&
        xtime(xtime(xtime(251u8))) ^ xtime(xtime(251u8)) ^ xtime(251u8) == 181u8 &&
        xtime(xtime(xtime(252u8))) ^ xtime(xtime(252u8)) ^ xtime(252u8) == 159u8 &&
        xtime(xtime(xtime(253u8))) ^ xtime(xtime(253u8)) ^ xtime(253u8) == 145u8 &&
        xtime(xtime(xtime(254u8))) ^ xtime(xtime(254u8)) ^ xtime(254u8) == 131u8 &&
        xtime(xtime(xtime(255u8))) ^ xtime(xtime(255u8)) ^ xtime(255u8) == 141u8,
{
    reveal(xtime);
    assert(
        xtime(xtime(xtime(0u8))) ^ xtime(xtime(0u8)) ^ xtime(0u8) == 0u8 &&
        xtime(xtime(xtime(1u8))) ^ xtime(xtime(1u8)) ^ xtime(1u8) == 14u8 &&
        xtime(xtime(xtime(2u8))) ^ xtime(xtime(2u8)) ^ xtime(2u8) == 28u8 &&
        xtime(xtime(xtime(3u8))) ^ xtime(xtime(3u8)) ^ xtime(3u8) == 18u8 &&
        xtime(xtime(xtime(4u8))) ^ xtime(xtime(4u8)) ^ xtime(4u8) == 56u8 &&
        xtime(xtime(xtime(5u8))) ^ xtime(xtime(5u8)) ^ xtime(5u8) == 54u8 &&
        xtime(xtime(xtime(6u8))) ^ xtime(xtime(6u8)) ^ xtime(6u8) == 36u8 &&
        xtime(xtime(xtime(7u8))) ^ xtime(xtime(7u8)) ^ xtime(7u8) == 42u8 &&
        xtime(xtime(xtime(8u8))) ^ xtime(xtime(8u8)) ^ xtime(8u8) == 112u8 &&
        xtime(xtime(xtime(9u8))) ^ xtime(xtime(9u8)) ^ xtime(9u8) == 126u8 &&
        xtime(xtime(xtime(10u8))) ^ xtime(xtime(10u8)) ^ xtime(10u8) == 108u8 &&
        xtime(xtime(xtime(11u8))) ^ xtime(xtime(11u8)) ^ xtime(11u8) == 98u8 &&
        xtime(xtime(xtime(12u8))) ^ xtime(xtime(12u8)) ^ xtime(12u8) == 72u8 &&
        xtime(xtime(xtime(13u8))) ^ xtime(xtime(13u8)) ^ xtime(13u8) == 70u8 &&
        xtime(xtime(xtime(14u8))) ^ xtime(xtime(14u8)) ^ xtime(14u8) == 84u8 &&
        xtime(xtime(xtime(15u8))) ^ xtime(xtime(15u8)) ^ xtime(15u8) == 90u8 &&
        xtime(xtime(xtime(16u8))) ^ xtime(xtime(16u8)) ^ xtime(16u8) == 224u8 &&
        xtime(xtime(xtime(17u8))) ^ xtime(xtime(17u8)) ^ xtime(17u8) == 238u8 &&
        xtime(xtime(xtime(18u8))) ^ xtime(xtime(18u8)) ^ xtime(18u8) == 252u8 &&
        xtime(xtime(xtime(19u8))) ^ xtime(xtime(19u8)) ^ xtime(19u8) == 242u8 &&
        xtime(xtime(xtime(20u8))) ^ xtime(xtime(20u8)) ^ xtime(20u8) == 216u8 &&
        xtime(xtime(xtime(21u8))) ^ xtime(xtime(21u8)) ^ xtime(21u8) == 214u8 &&
        xtime(xtime(xtime(22u8))) ^ xtime(xtime(22u8)) ^ xtime(22u8) == 196u8 &&
        xtime(xtime(xtime(23u8))) ^ xtime(xtime(23u8)) ^ xtime(23u8) == 202u8 &&
        xtime(xtime(xtime(24u8))) ^ xtime(xtime(24u8)) ^ xtime(24u8) == 144u8 &&
        xtime(xtime(xtime(25u8))) ^ xtime(xtime(25u8)) ^ xtime(25u8) == 158u8 &&
        xtime(xtime(xtime(26u8))) ^ xtime(xtime(26u8)) ^ xtime(26u8) == 140u8 &&
        xtime(xtime(xtime(27u8))) ^ xtime(xtime(27u8)) ^ xtime(27u8) == 130u8 &&
        xtime(xtime(xtime(28u8))) ^ xtime(xtime(28u8)) ^ xtime(28u8) == 168u8 &&
        xtime(xtime(xtime(29u8))) ^ xtime(xtime(29u8)) ^ xtime(29u8) == 166u8 &&
        xtime(xtime(xtime(30u8))) ^ xtime(xtime(30u8)) ^ xtime(30u8) == 180u8 &&
        xtime(xtime(xtime(31u8))) ^ xtime(xtime(31u8)) ^ xtime(31u8) == 186u8 &&
        xtime(xtime(xtime(32u8))) ^ xtime(xtime(32u8)) ^ xtime(32u8) == 219u8 &&
        xtime(xtime(xtime(33u8))) ^ xtime(xtime(33u8)) ^ xtime(33u8) == 213u8 &&
        xtime(xtime(xtime(34u8))) ^ xtime(xtime(34u8)) ^ xtime(34u8) == 199u8 &&
        xtime(xtime(xtime(35u8))) ^ xtime(xtime(35u8)) ^ xtime(35u8) == 201u8 &&
        xtime(xtime(xtime(36u8))) ^ xtime(xtime(36u8)) ^ xtime(36u8) == 227u8 &&
        xtime(xtime(xtime(37u8))) ^ xtime(xtime(37u8)) ^ xtime(37u8) == 237u8 &&
        xtime(xtime(xtime(38u8))) ^ xtime(xtime(38u8)) ^ xtime(38u8) == 255u8 &&
        xtime(xtime(xtime(39u8))) ^ xtime(xtime(39u8)) ^ xtime(39u8) == 241u8 &&
        xtime(xtime(xtime(40u8))) ^ xtime(xtime(40u8)) ^ xtime(40u8) == 171u8 &&
        xtime(xtime(xtime(41u8))) ^ xtime(xtime(41u8)) ^ xtime(41u8) == 165u8 &&
        xtime(xtime(xtime(42u8))) ^ xtime(xtime(42u8)) ^ xtime(42u8) == 183u8 &&
        xtime(xtime(xtime(43u8))) ^ xtime(xtime(43u8)) ^ xtime(43u8) == 185u8 &&
        xtime(xtime(xtime(44u8))) ^ xtime(xtime(44u8)) ^ xtime(44u8) == 147u8 &&
        xtime(xtime(xtime(45u8))) ^ xtime(xtime(45u8)) ^ xtime(45u8) == 157u8 &&
        xtime(xtime(xtime(46u8))) ^ xtime(xtime(46u8)) ^ xtime(46u8) == 143u8 &&
        xtime(xtime(xtime(47u8))) ^ xtime(xtime(47u8)) ^ xtime(47u8) == 129u8 &&
        xtime(xtime(xtime(48u8))) ^ xtime(xtime(48u8)) ^ xtime(48u8) == 59u8 &&
        xtime(xtime(xtime(49u8))) ^ xtime(xtime(49u8)) ^ xtime(49u8) == 53u8 &&
        xtime(xtime(xtime(50u8))) ^ xtime(xtime(50u8)) ^ xtime(50u8) == 39u8 &&
        xtime(xtime(xtime(51u8))) ^ xtime(xtime(51u8)) ^ xtime(51u8) == 41u8 &&
        xtime(xtime(xtime(52u8))) ^ xtime(xtime(52u8)) ^ xtime(52u8) == 3u8 &&
        xtime(xtime(xtime(53u8))) ^ xtime(xtime(53u8)) ^ xtime(53u8) == 13u8 &&
        xtime(xtime(xtime(54u8))) ^ xtime(xtime(54u8)) ^ xtime(54u8) == 31u8 &&
        xtime(xtime(xtime(55u8))) ^ xtime(xtime(55u8)) ^ xtime(55u8) == 17u8 &&
        xtime(xtime(xtime(56u8))) ^ xtime(xtime(56u8)) ^ xtime(56u8) == 75u8 &&
        xtime(xtime(xtime(57u8))) ^ xtime(xtime(57u8)) ^ xtime(57u8) == 69u8 &&
        xtime(xtime(xtime(58u8))) ^ xtime(xtime(58u8)) ^ xtime(58u8) == 87u8 &&
        xtime(xtime(xtime(59u8))) ^ xtime(xtime(59u8)) ^ xtime(59u8) == 89u8 &&
        xtime(xtime(xtime(60u8))) ^ xtime(xtime(60u8)) ^ xtime(60u8) == 115u8 &&
        xtime(xtime(xtime(61u8))) ^ xtime(xtime(61u8)) ^ xtime(61u8) == 125u8 &&
        xtime(xtime(xtime(62u8))) ^ xtime(xtime(62u8)) ^ xtime(62u8) == 111u8 &&
        xtime(xtime(xtime(63u8))) ^ xtime(xtime(63u8)) ^ xtime(63u8) == 97u8 &&
        xtime(xtime(xtime(64u8))) ^ xtime(xtime(64u8)) ^ xtime(64u8) == 173u8 &&
        xtime(xtime(xtime(65u8))) ^ xtime(xtime(65u8)) ^ xtime(65u8) == 163u8 &&
        xtime(xtime(xtime(66u8))) ^ xtime(xtime(66u8)) ^ xtime(66u8) == 177u8 &&
        xtime(xtime(xtime(67u8))) ^ xtime(xtime(67u8)) ^ xtime(67u8) == 191u8 &&
        xtime(xtime(xtime(68u8))) ^ xtime(xtime(68u8)) ^ xtime(68u8) == 149u8 &&
        xtime(xtime(xtime(69u8))) ^ xtime(xtime(69u8)) ^ xtime(69u8) == 155u8 &&
        xtime(xtime(xtime(70u8))) ^ xtime(xtime(70u8)) ^ xtime(70u8) == 137u8 &&
        xtime(xtime(xtime(71u8))) ^ xtime(xtime(71u8)) ^ xtime(71u8) == 135u8 &&
        xtime(xtime(xtime(72u8))) ^ xtime(xtime(72u8)) ^ xtime(72u8) == 221u8 &&
        xtime(xtime(xtime(73u8))) ^ xtime(xtime(73u8)) ^ xtime(73u8) == 211u8 &&
        xtime(xtime(xtime(74u8))) ^ xtime(xtime(74u8)) ^ xtime(74u8) == 193u8 &&
        xtime(xtime(xtime(75u8))) ^ xtime(xtime(75u8)) ^ xtime(75u8) == 207u8 &&
        xtime(xtime(xtime(76u8))) ^ xtime(xtime(76u8)) ^ xtime(76u8) == 229u8 &&
        xtime(xtime(xtime(77u8))) ^ xtime(xtime(77u8)) ^ xtime(77u8) == 235u8 &&
        xtime(xtime(xtime(78u8))) ^ xtime(xtime(78u8)) ^ xtime(78u8) == 249u8 &&
        xtime(xtime(xtime(79u8))) ^ xtime(xtime(79u8)) ^ xtime(79u8) == 247u8 &&
        xtime(xtime(xtime(80u8))) ^ xtime(xtime(80u8)) ^ xtime(80u8) == 77u8 &&
        xtime(xtime(xtime(81u8))) ^ xtime(xtime(81u8)) ^ xtime(81u8) == 67u8 &&
        xtime(xtime(xtime(82u8))) ^ xtime(xtime(82u8)) ^ xtime(82u8) == 81u8 &&
        xtime(xtime(xtime(83u8))) ^ xtime(xtime(83u8)) ^ xtime(83u8) == 95u8 &&
        xtime(xtime(xtime(84u8))) ^ xtime(xtime(84u8)) ^ xtime(84u8) == 117u8 &&
        xtime(xtime(xtime(85u8))) ^ xtime(xtime(85u8)) ^ xtime(85u8) == 123u8 &&
        xtime(xtime(xtime(86u8))) ^ xtime(xtime(86u8)) ^ xtime(86u8) == 105u8 &&
        xtime(xtime(xtime(87u8))) ^ xtime(xtime(87u8)) ^ xtime(87u8) == 103u8 &&
        xtime(xtime(xtime(88u8))) ^ xtime(xtime(88u8)) ^ xtime(88u8) == 61u8 &&
        xtime(xtime(xtime(89u8))) ^ xtime(xtime(89u8)) ^ xtime(89u8) == 51u8 &&
        xtime(xtime(xtime(90u8))) ^ xtime(xtime(90u8)) ^ xtime(90u8) == 33u8 &&
        xtime(xtime(xtime(91u8))) ^ xtime(xtime(91u8)) ^ xtime(91u8) == 47u8 &&
        xtime(xtime(xtime(92u8))) ^ xtime(xtime(92u8)) ^ xtime(92u8) == 5u8 &&
        xtime(xtime(xtime(93u8))) ^ xtime(xtime(93u8)) ^ xtime(93u8) == 11u8 &&
        xtime(xtime(xtime(94u8))) ^ xtime(xtime(94u8)) ^ xtime(94u8) == 25u8 &&
        xtime(xtime(xtime(95u8))) ^ xtime(xtime(95u8)) ^ xtime(95u8) == 23u8 &&
        xtime(xtime(xtime(96u8))) ^ xtime(xtime(96u8)) ^ xtime(96u8) == 118u8 &&
        xtime(xtime(xtime(97u8))) ^ xtime(xtime(97u8)) ^ xtime(97u8) == 120u8 &&
        xtime(xtime(xtime(98u8))) ^ xtime(xtime(98u8)) ^ xtime(98u8) == 106u8 &&
        xtime(xtime(xtime(99u8))) ^ xtime(xtime(99u8)) ^ xtime(99u8) == 100u8 &&
        xtime(xtime(xtime(100u8))) ^ xtime(xtime(100u8)) ^ xtime(100u8) == 78u8 &&
        xtime(xtime(xtime(101u8))) ^ xtime(xtime(101u8)) ^ xtime(101u8) == 64u8 &&
        xtime(xtime(xtime(102u8))) ^ xtime(xtime(102u8)) ^ xtime(102u8) == 82u8 &&
        xtime(xtime(xtime(103u8))) ^ xtime(xtime(103u8)) ^ xtime(103u8) == 92u8 &&
        xtime(xtime(xtime(104u8))) ^ xtime(xtime(104u8)) ^ xtime(104u8) == 6u8 &&
        xtime(xtime(xtime(105u8))) ^ xtime(xtime(105u8)) ^ xtime(105u8) == 8u8 &&
        xtime(xtime(xtime(106u8))) ^ xtime(xtime(106u8)) ^ xtime(106u8) == 26u8 &&
        xtime(xtime(xtime(107u8))) ^ xtime(xtime(107u8)) ^ xtime(107u8) == 20u8 &&
        xtime(xtime(xtime(108u8))) ^ xtime(xtime(108u8)) ^ xtime(108u8) == 62u8 &&
        xtime(xtime(xtime(109u8))) ^ xtime(xtime(109u8)) ^ xtime(109u8) == 48u8 &&
        xtime(xtime(xtime(110u8))) ^ xtime(xtime(110u8)) ^ xtime(110u8) == 34u8 &&
        xtime(xtime(xtime(111u8))) ^ xtime(xtime(111u8)) ^ xtime(111u8) == 44u8 &&
        xtime(xtime(xtime(112u8))) ^ xtime(xtime(112u8)) ^ xtime(112u8) == 150u8 &&
        xtime(xtime(xtime(113u8))) ^ xtime(xtime(113u8)) ^ xtime(113u8) == 152u8 &&
        xtime(xtime(xtime(114u8))) ^ xtime(xtime(114u8)) ^ xtime(114u8) == 138u8 &&
        xtime(xtime(xtime(115u8))) ^ xtime(xtime(115u8)) ^ xtime(115u8) == 132u8 &&
        xtime(xtime(xtime(116u8))) ^ xtime(xtime(116u8)) ^ xtime(116u8) == 174u8 &&
        xtime(xtime(xtime(117u8))) ^ xtime(xtime(117u8)) ^ xtime(117u8) == 160u8 &&
        xtime(xtime(xtime(118u8))) ^ xtime(xtime(118u8)) ^ xtime(118u8) == 178u8 &&
        xtime(xtime(xtime(119u8))) ^ xtime(xtime(119u8)) ^ xtime(119u8) == 188u8 &&
        xtime(xtime(xtime(120u8))) ^ xtime(xtime(120u8)) ^ xtime(120u8) == 230u8 &&
        xtime(xtime(xtime(121u8))) ^ xtime(xtime(121u8)) ^ xtime(121u8) == 232u8 &&
        xtime(xtime(xtime(122u8))) ^ xtime(xtime(122u8)) ^ xtime(122u8) == 250u8 &&
        xtime(xtime(xtime(123u8))) ^ xtime(xtime(123u8)) ^ xtime(123u8) == 244u8 &&
        xtime(xtime(xtime(124u8))) ^ xtime(xtime(124u8)) ^ xtime(124u8) == 222u8 &&
        xtime(xtime(xtime(125u8))) ^ xtime(xtime(125u8)) ^ xtime(125u8) == 208u8 &&
        xtime(xtime(xtime(126u8))) ^ xtime(xtime(126u8)) ^ xtime(126u8) == 194u8 &&
        xtime(xtime(xtime(127u8))) ^ xtime(xtime(127u8)) ^ xtime(127u8) == 204u8 &&
        xtime(xtime(xtime(128u8))) ^ xtime(xtime(128u8)) ^ xtime(128u8) == 65u8 &&
        xtime(xtime(xtime(129u8))) ^ xtime(xtime(129u8)) ^ xtime(129u8) == 79u8 &&
        xtime(xtime(xtime(130u8))) ^ xtime(xtime(130u8)) ^ xtime(130u8) == 93u8 &&
        xtime(xtime(xtime(131u8))) ^ xtime(xtime(131u8)) ^ xtime(131u8) == 83u8 &&
        xtime(xtime(xtime(132u8))) ^ xtime(xtime(132u8)) ^ xtime(132u8) == 121u8 &&
        xtime(xtime(xtime(133u8))) ^ xtime(xtime(133u8)) ^ xtime(133u8) == 119u8 &&
        xtime(xtime(xtime(134u8))) ^ xtime(xtime(134u8)) ^ xtime(134u8) == 101u8 &&
        xtime(xtime(xtime(135u8))) ^ xtime(xtime(135u8)) ^ xtime(135u8) == 107u8 &&
        xtime(xtime(xtime(136u8))) ^ xtime(xtime(136u8)) ^ xtime(136u8) == 49u8 &&
        xtime(xtime(xtime(137u8))) ^ xtime(xtime(137u8)) ^ xtime(137u8) == 63u8 &&
        xtime(xtime(xtime(138u8))) ^ xtime(xtime(138u8)) ^ xtime(138u8) == 45u8 &&
        xtime(xtime(xtime(139u8))) ^ xtime(xtime(139u8)) ^ xtime(139u8) == 35u8 &&
        xtime(xtime(xtime(140u8))) ^ xtime(xtime(140u8)) ^ xtime(140u8) == 9u8 &&
        xtime(xtime(xtime(141u8))) ^ xtime(xtime(141u8)) ^ xtime(141u8) == 7u8 &&
        xtime(xtime(xtime(142u8))) ^ xtime(xtime(142u8)) ^ xtime(142u8) == 21u8 &&
        xtime(xtime(xtime(143u8))) ^ xtime(xtime(143u8)) ^ xtime(143u8) == 27u8 &&
        xtime(xtime(xtime(144u8))) ^ xtime(xtime(144u8)) ^ xtime(144u8) == 161u8 &&
        xtime(xtime(xtime(145u8))) ^ xtime(xtime(145u8)) ^ xtime(145u8) == 175u8 &&
        xtime(xtime(xtime(146u8))) ^ xtime(xtime(146u8)) ^ xtime(146u8) == 189u8 &&
        xtime(xtime(xtime(147u8))) ^ xtime(xtime(147u8)) ^ xtime(147u8) == 179u8 &&
        xtime(xtime(xtime(148u8))) ^ xtime(xtime(148u8)) ^ xtime(148u8) == 153u8 &&
        xtime(xtime(xtime(149u8))) ^ xtime(xtime(149u8)) ^ xtime(149u8) == 151u8 &&
        xtime(xtime(xtime(150u8))) ^ xtime(xtime(150u8)) ^ xtime(150u8) == 133u8 &&
        xtime(xtime(xtime(151u8))) ^ xtime(xtime(151u8)) ^ xtime(151u8) == 139u8 &&
        xtime(xtime(xtime(152u8))) ^ xtime(xtime(152u8)) ^ xtime(152u8) == 209u8 &&
        xtime(xtime(xtime(153u8))) ^ xtime(xtime(153u8)) ^ xtime(153u8) == 223u8 &&
        xtime(xtime(xtime(154u8))) ^ xtime(xtime(154u8)) ^ xtime(154u8) == 205u8 &&
        xtime(xtime(xtime(155u8))) ^ xtime(xtime(155u8)) ^ xtime(155u8) == 195u8 &&
        xtime(xtime(xtime(156u8))) ^ xtime(xtime(156u8)) ^ xtime(156u8) == 233u8 &&
        xtime(xtime(xtime(157u8))) ^ xtime(xtime(157u8)) ^ xtime(157u8) == 231u8 &&
        xtime(xtime(xtime(158u8))) ^ xtime(xtime(158u8)) ^ xtime(158u8) == 245u8 &&
        xtime(xtime(xtime(159u8))) ^ xtime(xtime(159u8)) ^ xtime(159u8) == 251u8 &&
        xtime(xtime(xtime(160u8))) ^ xtime(xtime(160u8)) ^ xtime(160u8) == 154u8 &&
        xtime(xtime(xtime(161u8))) ^ xtime(xtime(161u8)) ^ xtime(161u8) == 148u8 &&
        xtime(xtime(xtime(162u8))) ^ xtime(xtime(162u8)) ^ xtime(162u8) == 134u8 &&
        xtime(xtime(xtime(163u8))) ^ xtime(xtime(163u8)) ^ xtime(163u8) == 136u8 &&
        xtime(xtime(xtime(164u8))) ^ xtime(xtime(164u8)) ^ xtime(164u8) == 162u8 &&
        xtime(xtime(xtime(165u8))) ^ xtime(xtime(165u8)) ^ xtime(165u8) == 172u8 &&
        xtime(xtime(xtime(166u8))) ^ xtime(xtime(166u8)) ^ xtime(166u8) == 190u8 &&
        xtime(xtime(xtime(167u8))) ^ xtime(xtime(167u8)) ^ xtime(167u8) == 176u8 &&
        xtime(xtime(xtime(168u8))) ^ xtime(xtime(168u8)) ^ xtime(168u8) == 234u8 &&
        xtime(xtime(xtime(169u8))) ^ xtime(xtime(169u8)) ^ xtime(169u8) == 228u8 &&
        xtime(xtime(xtime(170u8))) ^ xtime(xtime(170u8)) ^ xtime(170u8) == 246u8 &&
        xtime(xtime(xtime(171u8))) ^ xtime(xtime(171u8)) ^ xtime(171u8) == 248u8 &&
        xtime(xtime(xtime(172u8))) ^ xtime(xtime(172u8)) ^ xtime(172u8) == 210u8 &&
        xtime(xtime(xtime(173u8))) ^ xtime(xtime(173u8)) ^ xtime(173u8) == 220u8 &&
        xtime(xtime(xtime(174u8))) ^ xtime(xtime(174u8)) ^ xtime(174u8) == 206u8 &&
        xtime(xtime(xtime(175u8))) ^ xtime(xtime(175u8)) ^ xtime(175u8) == 192u8 &&
        xtime(xtime(xtime(176u8))) ^ xtime(xtime(176u8)) ^ xtime(176u8) == 122u8 &&
        xtime(xtime(xtime(177u8))) ^ xtime(xtime(177u8)) ^ xtime(177u8) == 116u8 &&
        xtime(xtime(xtime(178u8))) ^ xtime(xtime(178u8)) ^ xtime(178u8) == 102u8 &&
        xtime(xtime(xtime(179u8))) ^ xtime(xtime(179u8)) ^ xtime(179u8) == 104u8 &&
        xtime(xtime(xtime(180u8))) ^ xtime(xtime(180u8)) ^ xtime(180u8) == 66u8 &&
        xtime(xtime(xtime(181u8))) ^ xtime(xtime(181u8)) ^ xtime(181u8) == 76u8 &&
        xtime(xtime(xtime(182u8))) ^ xtime(xtime(182u8)) ^ xtime(182u8) == 94u8 &&
        xtime(xtime(xtime(183u8))) ^ xtime(xtime(183u8)) ^ xtime(183u8) == 80u8 &&
        xtime(xtime(xtime(184u8))) ^ xtime(xtime(184u8)) ^ xtime(184u8) == 10u8 &&
        xtime(xtime(xtime(185u8))) ^ xtime(xtime(185u8)) ^ xtime(185u8) == 4u8 &&
        xtime(xtime(xtime(186u8))) ^ xtime(xtime(186u8)) ^ xtime(186u8) == 22u8 &&
        xtime(xtime(xtime(187u8))) ^ xtime(xtime(187u8)) ^ xtime(187u8) == 24u8 &&
        xtime(xtime(xtime(188u8))) ^ xtime(xtime(188u8)) ^ xtime(188u8) == 50u8 &&
        xtime(xtime(xtime(189u8))) ^ xtime(xtime(189u8)) ^ xtime(189u8) == 60u8 &&
        xtime(xtime(xtime(190u8))) ^ xtime(xtime(190u8)) ^ xtime(190u8) == 46u8 &&
        xtime(xtime(xtime(191u8))) ^ xtime(xtime(191u8)) ^ xtime(191u8) == 32u8 &&
        xtime(xtime(xtime(192u8))) ^ xtime(xtime(192u8)) ^ xtime(192u8) == 236u8 &&
        xtime(xtime(xtime(193u8))) ^ xtime(xtime(193u8)) ^ xtime(193u8) == 226u8 &&
        xtime(xtime(xtime(194u8))) ^ xtime(xtime(194u8)) ^ xtime(194u8) == 240u8 &&
        xtime(xtime(xtime(195u8))) ^ xtime(xtime(195u8)) ^ xtime(195u8) == 254u8 &&
        xtime(xtime(xtime(196u8))) ^ xtime(xtime(196u8)) ^ xtime(196u8) == 212u8 &&
        xtime(xtime(xtime(197u8))) ^ xtime(xtime(197u8)) ^ xtime(197u8) == 218u8 &&
        xtime(xtime(xtime(198u8))) ^ xtime(xtime(198u8)) ^ xtime(198u8) == 200u8 &&
        xtime(xtime(xtime(199u8))) ^ xtime(xtime(199u8)) ^ xtime(199u8) == 198u8 &&
        xtime(xtime(xtime(200u8))) ^ xtime(xtime(200u8)) ^ xtime(200u8) == 156u8 &&
        xtime(xtime(xtime(201u8))) ^ xtime(xtime(201u8)) ^ xtime(201u8) == 146u8 &&
        xtime(xtime(xtime(202u8))) ^ xtime(xtime(202u8)) ^ xtime(202u8) == 128u8 &&
        xtime(xtime(xtime(203u8))) ^ xtime(xtime(203u8)) ^ xtime(203u8) == 142u8 &&
        xtime(xtime(xtime(204u8))) ^ xtime(xtime(204u8)) ^ xtime(204u8) == 164u8 &&
        xtime(xtime(xtime(205u8))) ^ xtime(xtime(205u8)) ^ xtime(205u8) == 170u8 &&
        xtime(xtime(xtime(206u8))) ^ xtime(xtime(206u8)) ^ xtime(206u8) == 184u8 &&
        xtime(xtime(xtime(207u8))) ^ xtime(xtime(207u8)) ^ xtime(207u8) == 182u8 &&
        xtime(xtime(xtime(208u8))) ^ xtime(xtime(208u8)) ^ xtime(208u8) == 12u8 &&
        xtime(xtime(xtime(209u8))) ^ xtime(xtime(209u8)) ^ xtime(209u8) == 2u8 &&
        xtime(xtime(xtime(210u8))) ^ xtime(xtime(210u8)) ^ xtime(210u8) == 16u8 &&
        xtime(xtime(xtime(211u8))) ^ xtime(xtime(211u8)) ^ xtime(211u8) == 30u8 &&
        xtime(xtime(xtime(212u8))) ^ xtime(xtime(212u8)) ^ xtime(212u8) == 52u8 &&
        xtime(xtime(xtime(213u8))) ^ xtime(xtime(213u8)) ^ xtime(213u8) == 58u8 &&
        xtime(xtime(xtime(214u8))) ^ xtime(xtime(214u8)) ^ xtime(214u8) == 40u8 &&
        xtime(xtime(xtime(215u8))) ^ xtime(xtime(215u8)) ^ xtime(215u8) == 38u8 &&
        xtime(xtime(xtime(216u8))) ^ xtime(xtime(216u8)) ^ xtime(216u8) == 124u8 &&
        xtime(xtime(xtime(217u8))) ^ xtime(xtime(217u8)) ^ xtime(217u8) == 114u8 &&
        xtime(xtime(xtime(218u8))) ^ xtime(xtime(218u8)) ^ xtime(218u8) == 96u8 &&
        xtime(xtime(xtime(219u8))) ^ xtime(xtime(219u8)) ^ xtime(219u8) == 110u8 &&
        xtime(xtime(xtime(220u8))) ^ xtime(xtime(220u8)) ^ xtime(220u8) == 68u8 &&
        xtime(xtime(xtime(221u8))) ^ xtime(xtime(221u8)) ^ xtime(221u8) == 74u8 &&
        xtime(xtime(xtime(222u8))) ^ xtime(xtime(222u8)) ^ xtime(222u8) == 88u8 &&
        xtime(xtime(xtime(223u8))) ^ xtime(xtime(223u8)) ^ xtime(223u8) == 86u8 &&
        xtime(xtime(xtime(224u8))) ^ xtime(xtime(224u8)) ^ xtime(224u8) == 55u8 &&
        xtime(xtime(xtime(225u8))) ^ xtime(xtime(225u8)) ^ xtime(225u8) == 57u8 &&
        xtime(xtime(xtime(226u8))) ^ xtime(xtime(226u8)) ^ xtime(226u8) == 43u8 &&
        xtime(xtime(xtime(227u8))) ^ xtime(xtime(227u8)) ^ xtime(227u8) == 37u8 &&
        xtime(xtime(xtime(228u8))) ^ xtime(xtime(228u8)) ^ xtime(228u8) == 15u8 &&
        xtime(xtime(xtime(229u8))) ^ xtime(xtime(229u8)) ^ xtime(229u8) == 1u8 &&
        xtime(xtime(xtime(230u8))) ^ xtime(xtime(230u8)) ^ xtime(230u8) == 19u8 &&
        xtime(xtime(xtime(231u8))) ^ xtime(xtime(231u8)) ^ xtime(231u8) == 29u8 &&
        xtime(xtime(xtime(232u8))) ^ xtime(xtime(232u8)) ^ xtime(232u8) == 71u8 &&
        xtime(xtime(xtime(233u8))) ^ xtime(xtime(233u8)) ^ xtime(233u8) == 73u8 &&
        xtime(xtime(xtime(234u8))) ^ xtime(xtime(234u8)) ^ xtime(234u8) == 91u8 &&
        xtime(xtime(xtime(235u8))) ^ xtime(xtime(235u8)) ^ xtime(235u8) == 85u8 &&
        xtime(xtime(xtime(236u8))) ^ xtime(xtime(236u8)) ^ xtime(236u8) == 127u8 &&
        xtime(xtime(xtime(237u8))) ^ xtime(xtime(237u8)) ^ xtime(237u8) == 113u8 &&
        xtime(xtime(xtime(238u8))) ^ xtime(xtime(238u8)) ^ xtime(238u8) == 99u8 &&
        xtime(xtime(xtime(239u8))) ^ xtime(xtime(239u8)) ^ xtime(239u8) == 109u8 &&
        xtime(xtime(xtime(240u8))) ^ xtime(xtime(240u8)) ^ xtime(240u8) == 215u8 &&
        xtime(xtime(xtime(241u8))) ^ xtime(xtime(241u8)) ^ xtime(241u8) == 217u8 &&
        xtime(xtime(xtime(242u8))) ^ xtime(xtime(242u8)) ^ xtime(242u8) == 203u8 &&
        xtime(xtime(xtime(243u8))) ^ xtime(xtime(243u8)) ^ xtime(243u8) == 197u8 &&
        xtime(xtime(xtime(244u8))) ^ xtime(xtime(244u8)) ^ xtime(244u8) == 239u8 &&
        xtime(xtime(xtime(245u8))) ^ xtime(xtime(245u8)) ^ xtime(245u8) == 225u8 &&
        xtime(xtime(xtime(246u8))) ^ xtime(xtime(246u8)) ^ xtime(246u8) == 243u8 &&
        xtime(xtime(xtime(247u8))) ^ xtime(xtime(247u8)) ^ xtime(247u8) == 253u8 &&
        xtime(xtime(xtime(248u8))) ^ xtime(xtime(248u8)) ^ xtime(248u8) == 167u8 &&
        xtime(xtime(xtime(249u8))) ^ xtime(xtime(249u8)) ^ xtime(249u8) == 169u8 &&
        xtime(xtime(xtime(250u8))) ^ xtime(xtime(250u8)) ^ xtime(250u8) == 187u8 &&
        xtime(xtime(xtime(251u8))) ^ xtime(xtime(251u8)) ^ xtime(251u8) == 181u8 &&
        xtime(xtime(xtime(252u8))) ^ xtime(xtime(252u8)) ^ xtime(252u8) == 159u8 &&
        xtime(xtime(xtime(253u8))) ^ xtime(xtime(253u8)) ^ xtime(253u8) == 145u8 &&
        xtime(xtime(xtime(254u8))) ^ xtime(xtime(254u8)) ^ xtime(254u8) == 131u8 &&
        xtime(xtime(xtime(255u8))) ^ xtime(xtime(255u8)) ^ xtime(255u8) == 141u8
    ) by (bit_vector);
}

/// The table of products by 14 holds `gf_mul(x, 14)` at index `x`.
pub proof fn lemma_gmul14_table()
    ensures
        forall|x: u8| #[trigger] GMUL14[x as int] == gf_mul(x, 14),
{
    lemma_gmul14_values();
    assert forall|x: u8| #[trigger] GMUL14[x as int] == gf_mul(x, 14) by {
        lemma_gf_mul_14(x);
        lemma_u8_cases(x);
    }
}

/// Multiplication by a constant distributes over addition (XOR) in GF(2^8).
pub proof fn lemma_gf_mul_xor(x: u8, y: u8, k: u8)
    requires
        k == 2 || k == 3 || k == 9 || k == 11 || k == 13 || k == 14,
    ensures
        gf_mul(x ^ y, k) == gf_mul(x, k) ^ gf_mul(y, k),
{
    let z = x ^ y;
    reveal(xtime);
    if k == 2 {
        lemma_gf_mul_2(x);
        lemma_gf_mul_2(y);
        lemma_gf_mul_2(z);
        assert((xtime(z)) == (xtime(x)) ^ (xtime(y))) by (bit_vector) requires z == x ^ y;
    } else if k == 3 {
        lemma_gf_mul_3(x);
        lemma_gf_mul_3(y);
        lemma_gf_mul_3(z);
        assert((xtime(z) ^ z) == (xtime(x) ^ x) ^ (xtime(y) ^ y)) by (bit_vector) requires z == x ^ y;
    } else if k == 9 {
        lemma_gf_mul_9(x);
        lemma_gf_mul_9(y);
        lemma_gf_mul_9(z);
        assert((xtime(xtime(xtime(z))) ^ z) == (xtime(xtime(xtime(x))) ^ x) ^ (xtime(xtime(xtime(y))) ^ y)) by (bit_vector) requires z == x ^ y;
    } else if k == 11 {
        lemma_gf_mul_11(x);
        lemma_gf_mul_11(y);
        lemma_gf_mul_11(z);
        assert((xtime(xtime(xtime(z))) ^ xtime(z) ^ z) == (xtime(xtime(xtime(x))) ^ xtime(x) ^ x) ^ (xtime(xtime(xtime(y))) ^ xtime(y) ^ y)) by (bit_vector) requires z == x ^ y;
    } else if k == 13 {
        lemma_gf_mul_13(x);
        lemma_gf_mul_13(y);
        lemma_gf_mul_13(z);
        assert((xtime(xtime(xtime(z))) ^ xtime(xtime(z)) ^ z) == (xtime(xtime(xtime(x))) ^ xtime(xtime(x)) ^ x) ^ (xtime(xtime(xtime(y))) ^ xtime(xtime(y)) ^ y)) by (bit_vector) requires z == x ^ y;
    } else {
        lemma_gf_mul_14(x);
        lemma_gf_mul_14(y);
        lemma_gf_mul_14(z);
        assert((xtime(xtime(xtime(z))) ^ xtime(xtime(z)) ^ xtime(z)) == (xtime(xtime(xtime(x))) ^ xtime(xtime(x)) ^ xtime(x)) ^ (xtime(xtime(xtime(y))) ^ xtime(xtime(y)) ^ xtime(y))) by (bit_vector) requires z == x ^ y;
    }
}

/// One coefficient of the product of the inverse mixing matrix and the
/// mixing matrix: the sum of products here is the byte itself.
pub proof fn lemma_mix_coefficient_0(x: u8)
    ensures
        gf_mul(gf_mul(x, 2), 14) ^ gf_mul(x, 11) ^ gf_mul(x, 13) ^ gf_mul(gf_mul(x, 3), 9) == x,
{
    lemma_gf_mul_2(x);
    lemma_gf_mul_14(gf_mul(x, 2));
    lemma_gf_mul_11(x);
    lemma_gf_mul_13(x);
    lemma_gf_mul_3(x);
    lemma_gf_mul_9(gf_mul(x, 3));
    reveal(xtime);
    assert((xtime(xtime(xtime((xtime(x))))) ^ xtime(xtime((xtime(x)))) ^ xtime((xtime(x)))) ^ (xtime(xtime(xtime(x))) ^ xtime(x) ^ x) ^ (xtime(xtime(xtime(x))) ^ xtime(xtime(x)) ^ x) ^ (xtime(xtime(xtime((xtime(x) ^ x)))) ^ (xtime(x) ^ x)) == x) by (bit_vector);
}

/// One coefficient of the product of the inverse mixing matrix and the
/// mixing matrix: the sum of products here is zero.
pub proof fn lemma_mix_coefficient_1(x: u8)
    ensures
        gf_mul(gf_mul(x, 3), 14) ^ gf_mul(gf_mul(x, 2), 11) ^ gf_mul(x, 13) ^ gf_mul(x, 9) == 0u8,
{
    lemma_gf_mul_3(x);
    lemma_gf_mul_14(gf_mul(x, 3));
    lemma_gf_mul_2(x);
    lemma_gf_mul_11(gf_mul(x, 2));
    lemma_gf_mul_13(x);
    lemma_gf_mul_9(x);
    reveal(xtime);
    assert((xtime(xtime(xtime((xtime(x) ^ x)))) ^ xtime(xtime((xtime(x) ^ x))) ^ xtime((xtime(x) ^ x))) ^ (xtime(xtime(xtime((xtime(x))))) ^ xtime((xtime(x))) ^ (xtime(x))) ^ (xtime(xtime(xtime(x))) ^ xtime(xtime(x)) ^ x) ^ (xtime(xtime(xtime(x))) ^ x) == 0u8) by (bit_vector);
}

/// One coefficient of the product of the inverse mixing matrix and the
/// mixing matrix: the sum of products here is zero.
pub proof fn lemma_mix_coefficient_2(x: u8)
    ensures
        gf_mul(x, 14) ^ gf_mul(gf_mul(x, 3), 11) ^ gf_mul(gf_mul(x, 2), 13) ^ gf_mul(x, 9) == 0u8,
{
    lemma_gf_mul_14(x);
    lemma_gf_mul_3(x);
    lemma_gf_mul_11(gf_mul(x, 3));
    lemma_gf_mul_2(x);
    lemma_gf_mul_13(gf_mul(x, 2));
    lemma_gf_mul_9(x);
    reveal(xtime);
    assert((xtime(xtime(xtime(x))) ^ xtime(xtime(x)) ^ xtime(x)) ^ (xtime(xtime(xtime((xtime(x) ^ x)))) ^ xtime((xtime(x) ^ x)) ^ (xtime(x) ^ x)) ^ (xtime(xtime(xtime((xtime(x))))) ^ xtime(xtime((xtime(x)))) ^ (xtime(x))) ^ (xtime(xtime(xtime(x))) ^ x) == 0u8) by (bit_vector);
}

/// One coefficient of the product of the inverse mixing matrix and the
/// mixing matrix: the sum of products here is zero.
pub proof fn lemma_mix_coefficient_3(x: u8)
    ensures
        gf_mul(x, 14) ^ gf_mul(x, 11) ^ gf_mul(gf_mul(x, 3), 13) ^ gf_mul(gf_mul(x, 2), 9) == 0u8,
{
    lemma_gf_mul_14(x);
    lemma_gf_mul_11(x);
    lemma_gf_mul_3(x);
    lemma_gf_mul_13(gf_mul(x, 3));
    lemma_gf_mul_2(x);
    lemma_gf_mul_9(gf_mul(x, 2));
    reveal(xtime);
    assert((xtime(xtime(xtime(x))) ^ xtime(xtime(x)) ^ xtime(x)) ^ (xtime(xtime(xtime(x))) ^ xtime(x) ^ x) ^ (xtime(xtime(xtime((xtime(x) ^ x)))) ^ xtime(xtime((xtime(x) ^ x))) ^ (xtime(x) ^ x)) ^ (xtime(xtime(xtime((xtime(x))))) ^ (xtime(x))) == 0u8) by (bit_vector);
}

/// Product of `x` and 2, read from its table.
pub fn mul2(x: u8) -> (r: u8)
    ensures
        r == gf_mul(x, 2),
{
    proof {
        lemma_gmul2_table();
    }
    GMUL2[x as usize]
}

/// Product of `x` and 3, read from its table.
pub fn mul3(x: u8) -> (r: u8)
    ensures
        r == gf_mul(x, 3),
{
    proof {
        lemma_gmul3_table();
    }
    GMUL3[x as usize]
}

/// Product of `x` and 9, read from its table.
pub fn mul9(x: u8) -> (r: u8)
    ensures
        r == gf_mul(x, 9),
{
    proof {
        lemma_gmul9_table();
    }
    GMUL9[x as usize]
}

/// Product of `x` and 11, read from its table.
pub fn mul11(x: u8) -> (r: u8)
    ensures
        r == gf_mul(x, 11),
{
    proof {
        lemma_gmul11_table();
    }
    GMUL11[x as usize]
}

/// Product of `x` and 13, read from its table.
pub fn mul13(x: u8) -> (r: u8)
    ensures
        r == gf_mul(x, 13),
{
    proof {
        lemma_gmul13_table();
    }
    GMUL13[x as usize]
}

/// Product of `x` and 14, read from its table.
pub fn mul14(x: u8) -> (r: u8)
    ensures
        r == gf_mul(x, 14),
{
    proof {
        lemma_gmul14_table();
    }
    GMUL14[x as usize]
}

} // verus!
