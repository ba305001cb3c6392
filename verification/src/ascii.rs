//! The bytes of ASCII that the format is written in.

use vstd::prelude::*;

verus! {

pub const LINE_FEED: u8 = 10;

pub const CARRIAGE_RETURN: u8 = 13;

pub const SPACE: u8 = 32;

pub const COMMA: u8 = 44;

pub const MINUS: u8 = 45;

pub const DIGIT_0: u8 = 48;

pub const DIGIT_1: u8 = 49;

pub const DIGIT_2: u8 = 50;

pub const DIGIT_3: u8 = 51;

pub const DIGIT_4: u8 = 52;

pub const DIGIT_5: u8 = 53;

pub const DIGIT_6: u8 = 54;

pub const DIGIT_7: u8 = 55;

pub const DIGIT_8: u8 = 56;

pub const DIGIT_9: u8 = 57;

pub const COLON: u8 = 58;

pub const LETTER_A: u8 = 65;

pub const LETTER_B: u8 = 66;

pub const LETTER_C: u8 = 67;

pub const LETTER_D: u8 = 68;

pub const LETTER_E: u8 = 69;

pub const LETTER_F: u8 = 70;

pub const LETTER_G: u8 = 71;

pub const LETTER_H: u8 = 72;

pub const LETTER_I: u8 = 73;

pub const LETTER_J: u8 = 74;

pub const LETTER_K: u8 = 75;

pub const LETTER_L: u8 = 76;

pub const LETTER_M: u8 = 77;

pub const LETTER_N: u8 = 78;

pub const LETTER_O: u8 = 79;

pub const LETTER_P: u8 = 80;

pub const LETTER_Q: u8 = 81;

pub const LETTER_R: u8 = 82;

pub const LETTER_S: u8 = 83;

pub const LETTER_T: u8 = 84;

pub const LETTER_U: u8 = 85;

pub const LETTER_V: u8 = 86;

pub const LETTER_W: u8 = 87;

pub const LETTER_X: u8 = 88;

pub const LETTER_Y: u8 = 89;

pub const LETTER_Z: u8 = 90;

pub const LEFT_BRACKET: u8 = 91;

pub const RIGHT_BRACKET: u8 = 93;

} // verus!
