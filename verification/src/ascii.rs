//! Byte values of the ASCII characters that the redirector's paths and
//! diagnostic messages are made of.

use vstd::prelude::*;

verus! {

pub const NUL: u8 = 0;
pub const NEWLINE: u8 = 10;
pub const SPACE: u8 = 32;
pub const HYPHEN: u8 = 45;
pub const DOT: u8 = 46;
pub const SLASH: u8 = 47;
pub const DIGIT_0: u8 = 48;
pub const DIGIT_1: u8 = 49;
pub const DIGIT_2: u8 = 50;
pub const DIGIT_3: u8 = 51;
pub const DIGIT_4: u8 = 52;
pub const DIGIT_5: u8 = 53;
pub const DIGIT_6: u8 = 54;
pub const DIGIT_8: u8 = 56;
pub const COLON: u8 = 58;
pub const UPPER_E: u8 = 69;
pub const UPPER_P: u8 = 80;
pub const LOWER_A: u8 = 97;
pub const LOWER_B: u8 = 98;
pub const LOWER_C: u8 = 99;
pub const LOWER_D: u8 = 100;
pub const LOWER_E: u8 = 101;
pub const LOWER_F: u8 = 102;
pub const LOWER_H: u8 = 104;
pub const LOWER_I: u8 = 105;
pub const LOWER_L: u8 = 108;
pub const LOWER_N: u8 = 110;
pub const LOWER_O: u8 = 111;
pub const LOWER_P: u8 = 112;
pub const LOWER_R: u8 = 114;
pub const LOWER_S: u8 = 115;
pub const LOWER_T: u8 = 116;
pub const LOWER_U: u8 = 117;
pub const LOWER_V: u8 = 118;
pub const LOWER_W: u8 = 119;
pub const LOWER_X: u8 = 120;
pub const PIPE: u8 = 124;

} // verus!
