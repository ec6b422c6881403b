//! The jamo model: the three closed sets of jamo, how two jamo of one set
//! fuse, how a final consonant crosses over to the next syllable, and how
//! jamo are shown, alone or as a syllable block.

use vstd::prelude::*;

verus! {

/// First code point of the precomposed syllable blocks, `가`.
pub const SYLLABLE_BASE: u32 = 0xAC00;

/// Last code point of the precomposed syllable blocks, `힣`.
pub const SYLLABLE_LAST: u32 = 0xD7A3;

/// First code point of the letters that show a jamo on its own, `ㄱ`: the
/// first of the consonant letters.
pub const FIRST_LETTER: u32 = 0x3131;

/// Code point of `ㅏ`, the first of the vowel letters, which follow the
/// consonant letters.
pub const FIRST_VOWEL_LETTER: u32 = 0x314F;

/// Last code point of the letters that show a jamo on its own, `ㅣ`.
pub const LAST_LETTER: u32 = 0x3163;

/// Number of blocks that share one initial consonant: 21 medials times 28
/// finals (the absent final included).
pub const BLOCKS_PER_INITIAL: u32 = 588;

/// Number of blocks that share one initial and one medial: the absent final
/// and the 27 final consonants.
pub const BLOCKS_PER_MEDIAL: u32 = 28;

/// An initial consonant. The variants stand in the order of the syllable blocks.
#[derive(Clone, Copy, Debug, PartialEq, Eq, Structural, Hash)]
pub enum Choseong {
    /// ㄱ
    Giyeok,
    /// ㄲ
    SsangGiyeok,
    /// ㄴ
    Nieun,
    /// ㄷ
    Digeut,
    /// ㄸ
    SsangDigeut,
    /// ㄹ
    Rieul,
    /// ㅁ
    Mieum,
    /// ㅂ
    Bieup,
    /// ㅃ
    SsangBieup,
    /// ㅅ
    Siot,
    /// ㅆ
    SsangSiot,
    /// ㅇ
    Ieung,
    /// ㅈ
    Jieut,
    /// ㅉ
    SsangJieut,
    /// ㅊ
    Chieut,
    /// ㅋ
    Kieuk,
    /// ㅌ
    Tieut,
    /// ㅍ
    Pieup,
    /// ㅎ
    Hieut,
}

/// A medial vowel. The variants stand in the order of the syllable blocks.
#[derive(Clone, Copy, Debug, PartialEq, Eq, Structural, Hash)]
pub enum Jungseong {
    /// ㅏ
    A,
    /// ㅐ
    AE,
    /// ㅑ
    YA,
    /// ㅒ
    YAE,
    /// ㅓ
    EO,
    /// ㅔ
    E,
    /// ㅕ
    YEO,
    /// ㅖ
    YE,
    /// ㅗ
    O,
    /// ㅘ
    WA,
    /// ㅙ
    WAE,
    /// ㅚ
    OE,
    /// ㅛ
    YO,
    /// ㅜ
    U,
    /// ㅝ
    WEO,
    /// ㅞ
    WE,
    /// ㅟ
    WI,
    /// ㅠ
    YU,
    /// ㅡ
    EU,
    /// ㅢ
    YI,
    /// ㅣ
    I,
}

/// A final consonant. The variants stand in the order of the syllable blocks.
#[derive(Clone, Copy, Debug, PartialEq, Eq, Structural, Hash)]
pub enum Jongseong {
    /// ㄱ
    Giyeok,
    /// ㄲ
    SsangGiyeok,
    /// ㄳ
    GiyeokSiot,
    /// ㄴ
    Nieun,
    /// ㄵ
    NieunJieut,
    /// ㄶ
    NieunHieut,
    /// ㄷ
    Digeut,
    /// ㄹ
    Rieul,
    /// ㄺ
    RieulGiyeok,
    /// ㄻ
    RieulMieum,
    /// ㄼ
    RieulBieup,
    /// ㄽ
    RieulSiot,
    /// ㄾ
    RieulTieut,
    /// ㄿ
    RieulPieup,
    /// ㅀ
    RieulHieut,
    /// ㅁ
    Mieum,
    /// ㅂ
    Bieup,
    /// ㅄ
    BieupSiot,
    /// ㅅ
    Siot,
    /// ㅆ
    SsangSiot,
    /// ㅇ
    Ieung,
    /// ㅈ
    Jieut,
    /// ㅊ
    Chieut,
    /// ㅋ
    Kieuk,
    /// ㅌ
    Tieut,
    /// ㅍ
    Pieup,
    /// ㅎ
    Hieut,
}

/// What becomes of a held final consonant when the syllable after it needs an
/// initial.
#[derive(Clone, Copy, Debug, PartialEq, Eq, Structural, Hash)]
pub enum JongToCho {
    /// The whole final is this initial.
    Direct(Choseong),
    /// The final is a cluster: the first part stays behind as a final, the
    /// second part is this initial.
    Compose(Jongseong, Choseong),
}

/// Whether `code` is a Unicode scalar value: a code point that is no
/// surrogate.
pub open spec fn is_scalar_value(code: u32) -> bool {
    code <= 0xD7FF || (0xE000 <= code && code <= 0x10FFFF)
}

/// `char::from_u32` of the standard library: `Some` of the character whose
/// code point is `code` when `code` is a Unicode scalar value, `None` for a
/// surrogate and for anything above `0x10FFFF`.
pub assume_specification[ char::from_u32 ](i: u32) -> (r: Option<char>)
    ensures
        is_scalar_value(i) ==> r == Some(i as char),
        !is_scalar_value(i) ==> r is None,
;

/// Whether `c` is one of the letters that show a consonant on its own.
pub open spec fn is_consonant_letter(c: char) -> bool {
    FIRST_LETTER <= c as u32 && (c as u32) < FIRST_VOWEL_LETTER
}

/// Position of an optional final among the 28 finals of a syllable block:
/// 0 for the absent final.
pub open spec fn spec_final_index(jong: Option<Jongseong>) -> int {
    match jong {
        Some(j) => j.spec_index(),
        None => 0,
    }
}

impl Choseong {
    /// Position among the 19 initials of a syllable block, from 0.
    pub open spec fn spec_index(self) -> int {
        match self {
            Choseong::Giyeok => 0,
            Choseong::SsangGiyeok => 1,
            Choseong::Nieun => 2,
            Choseong::Digeut => 3,
            Choseong::SsangDigeut => 4,
            Choseong::Rieul => 5,
            Choseong::Mieum => 6,
            Choseong::Bieup => 7,
            Choseong::SsangBieup => 8,
            Choseong::Siot => 9,
            Choseong::SsangSiot => 10,
            Choseong::Ieung => 11,
            Choseong::Jieut => 12,
            Choseong::SsangJieut => 13,
            Choseong::Chieut => 14,
            Choseong::Kieuk => 15,
            Choseong::Tieut => 16,
            Choseong::Pieup => 17,
            Choseong::Hieut => 18,
        }
    }

    /// Position within a syllable block, as a number to compute with.
    pub fn index(self) -> (r: u32)
        ensures
            r == self.spec_index(),
            r <= 18,
    {
        match self {
            Choseong::Giyeok => 0,
            Choseong::SsangGiyeok => 1,
            Choseong::Nieun => 2,
            Choseong::Digeut => 3,
            Choseong::SsangDigeut => 4,
            Choseong::Rieul => 5,
            Choseong::Mieum => 6,
            Choseong::Bieup => 7,
            Choseong::SsangBieup => 8,
            Choseong::Siot => 9,
            Choseong::SsangSiot => 10,
            Choseong::Ieung => 11,
            Choseong::Jieut => 12,
            Choseong::SsangJieut => 13,
            Choseong::Chieut => 14,
            Choseong::Kieuk => 15,
            Choseong::Tieut => 16,
            Choseong::Pieup => 17,
            Choseong::Hieut => 18,
        }
    }

    /// The letter shown for this initial while it stands alone.
    pub open spec fn spec_jamo(self) -> char {
        match self {
            Choseong::Giyeok => 'ㄱ',
            Choseong::SsangGiyeok => 'ㄲ',
            Choseong::Nieun => 'ㄴ',
            Choseong::Digeut => 'ㄷ',
            Choseong::SsangDigeut => 'ㄸ',
            Choseong::Rieul => 'ㄹ',
            Choseong::Mieum => 'ㅁ',
            Choseong::Bieup => 'ㅂ',
            Choseong::SsangBieup => 'ㅃ',
            Choseong::Siot => 'ㅅ',
            Choseong::SsangSiot => 'ㅆ',
            Choseong::Ieung => 'ㅇ',
            Choseong::Jieut => 'ㅈ',
            Choseong::SsangJieut => 'ㅉ',
            Choseong::Chieut => 'ㅊ',
            Choseong::Kieuk => 'ㅋ',
            Choseong::Tieut => 'ㅌ',
            Choseong::Pieup => 'ㅍ',
            Choseong::Hieut => 'ㅎ',
        }
    }

    /// The letter shown for this initial while it stands alone.
    pub fn jamo(self) -> (c: char)
        ensures
            c == self.spec_jamo(),
    {
        match self {
            Choseong::Giyeok => 'ㄱ',
            Choseong::SsangGiyeok => 'ㄲ',
            Choseong::Nieun => 'ㄴ',
            Choseong::Digeut => 'ㄷ',
            Choseong::SsangDigeut => 'ㄸ',
            Choseong::Rieul => 'ㄹ',
            Choseong::Mieum => 'ㅁ',
            Choseong::Bieup => 'ㅂ',
            Choseong::SsangBieup => 'ㅃ',
            Choseong::Siot => 'ㅅ',
            Choseong::SsangSiot => 'ㅆ',
            Choseong::Ieung => 'ㅇ',
            Choseong::Jieut => 'ㅈ',
            Choseong::SsangJieut => 'ㅉ',
            Choseong::Chieut => 'ㅊ',
            Choseong::Kieuk => 'ㅋ',
            Choseong::Tieut => 'ㅌ',
            Choseong::Pieup => 'ㅍ',
            Choseong::Hieut => 'ㅎ',
        }
    }

    /// Whether this is a plain consonant that has a tense counterpart.
    pub open spec fn can_double(self) -> bool {
        self == Choseong::Giyeok || self == Choseong::Digeut || self == Choseong::Bieup
            || self == Choseong::Siot || self == Choseong::Jieut
    }

    /// The tense counterpart of a plain consonant: the initial that follows
    /// it in the order of the blocks.
    pub open spec fn doubled(self) -> Choseong
        recommends
            self.can_double(),
    {
        match self {
            Choseong::Giyeok => Choseong::SsangGiyeok,
            Choseong::Digeut => Choseong::SsangDigeut,
            Choseong::Bieup => Choseong::SsangBieup,
            Choseong::Siot => Choseong::SsangSiot,
            _ => Choseong::SsangJieut,
        }
    }

    /// The fused initial of two initials typed in a row: a plain consonant
    /// typed twice gives its tense counterpart, and no other pair fuses.
    pub open spec fn spec_try_add(self, other: Choseong) -> Option<Choseong> {
        if self == other && self.can_double() {
            Some(self.doubled())
        } else {
            None
        }
    }

    /// Fuses `self` and `other`, typed in this order, where they fuse.
    pub fn try_add(self, other: Choseong) -> (r: Option<Choseong>)
        ensures
            r == self.spec_try_add(other),
    {
        match (self, other) {
            (Choseong::Giyeok, Choseong::Giyeok) => Some(Choseong::SsangGiyeok),
            (Choseong::Digeut, Choseong::Digeut) => Some(Choseong::SsangDigeut),
            (Choseong::Bieup, Choseong::Bieup) => Some(Choseong::SsangBieup),
            (Choseong::Siot, Choseong::Siot) => Some(Choseong::SsangSiot),
            (Choseong::Jieut, Choseong::Jieut) => Some(Choseong::SsangJieut),
            _ => None,
        }
    }

    /// The syllable block of this initial, `jung` and `jong`: blocks are laid
    /// out by initial, then medial, then final.
    pub open spec fn spec_compose(self, jung: Jungseong, jong: Option<Jongseong>) -> char {
        (SYLLABLE_BASE + self.spec_index() * BLOCKS_PER_INITIAL + jung.spec_index()
            * BLOCKS_PER_MEDIAL + spec_final_index(jong)) as char
    }

    /// The syllable block of this initial, `jung` and `jong`.
    pub fn compose(self, jung: Jungseong, jong: Option<Jongseong>) -> (c: char)
        ensures
            c == self.spec_compose(jung, jong),
            SYLLABLE_BASE <= c as u32 <= SYLLABLE_LAST,
    {
        let tail: u32 = match jong {
            Some(j) => j.index(),
            None => 0,
        };
        let code: u32 = SYLLABLE_BASE + self.index() * BLOCKS_PER_INITIAL + jung.index()
            * BLOCKS_PER_MEDIAL + tail;
        char::from_u32(code).unwrap()
    }
}

impl Jungseong {
    /// Position among the 21 medials of a syllable block, from 0.
    pub open spec fn spec_index(self) -> int {
        match self {
            Jungseong::A => 0,
            Jungseong::AE => 1,
            Jungseong::YA => 2,
            Jungseong::YAE => 3,
            Jungseong::EO => 4,
            Jungseong::E => 5,
            Jungseong::YEO => 6,
            Jungseong::YE => 7,
            Jungseong::O => 8,
            Jungseong::WA => 9,
            Jungseong::WAE => 10,
            Jungseong::OE => 11,
            Jungseong::YO => 12,
            Jungseong::U => 13,
            Jungseong::WEO => 14,
            Jungseong::WE => 15,
            Jungseong::WI => 16,
            Jungseong::YU => 17,
            Jungseong::EU => 18,
            Jungseong::YI => 19,
            Jungseong::I => 20,
        }
    }

    /// Position within a syllable block, as a number to compute with.
    pub fn index(self) -> (r: u32)
        ensures
            r == self.spec_index(),
            r <= 20,
    {
        match self {
            Jungseong::A => 0,
            Jungseong::AE => 1,
            Jungseong::YA => 2,
            Jungseong::YAE => 3,
            Jungseong::EO => 4,
            Jungseong::E => 5,
            Jungseong::YEO => 6,
            Jungseong::YE => 7,
            Jungseong::O => 8,
            Jungseong::WA => 9,
            Jungseong::WAE => 10,
            Jungseong::OE => 11,
            Jungseong::YO => 12,
            Jungseong::U => 13,
            Jungseong::WEO => 14,
            Jungseong::WE => 15,
            Jungseong::WI => 16,
            Jungseong::YU => 17,
            Jungseong::EU => 18,
            Jungseong::YI => 19,
            Jungseong::I => 20,
        }
    }

    /// The letter shown for this medial while it stands alone: the vowel
    /// letters follow one another in the order of the blocks, from `ㅏ`.
    pub open spec fn spec_jamo(self) -> char {
        (FIRST_VOWEL_LETTER + self.spec_index()) as char
    }

    /// The letter shown for this medial while it stands alone.
    pub fn jamo(self) -> (c: char)
        ensures
            c == self.spec_jamo(),
    {
        match self {
            Jungseong::A => 'ㅏ',
            Jungseong::AE => 'ㅐ',
            Jungseong::YA => 'ㅑ',
            Jungseong::YAE => 'ㅒ',
            Jungseong::EO => 'ㅓ',
            Jungseong::E => 'ㅔ',
            Jungseong::YEO => 'ㅕ',
            Jungseong::YE => 'ㅖ',
            Jungseong::O => 'ㅗ',
            Jungseong::WA => 'ㅘ',
            Jungseong::WAE => 'ㅙ',
            Jungseong::OE => 'ㅚ',
            Jungseong::YO => 'ㅛ',
            Jungseong::U => 'ㅜ',
            Jungseong::WEO => 'ㅝ',
            Jungseong::WE => 'ㅞ',
            Jungseong::WI => 'ㅟ',
            Jungseong::YU => 'ㅠ',
            Jungseong::EU => 'ㅡ',
            Jungseong::YI => 'ㅢ',
            Jungseong::I => 'ㅣ',
        }
    }

    /// The diphthong of two medials typed in a row, if the pair has one.
    pub open spec fn spec_try_add(self, other: Jungseong) -> Option<Jungseong> {
        match (self, other) {
            (Jungseong::O, Jungseong::A) => Some(Jungseong::WA),
            (Jungseong::O, Jungseong::AE) => Some(Jungseong::WAE),
            (Jungseong::O, Jungseong::I) => Some(Jungseong::OE),
            (Jungseong::U, Jungseong::EO) => Some(Jungseong::WEO),
            (Jungseong::U, Jungseong::E) => Some(Jungseong::WE),
            (Jungseong::U, Jungseong::I) => Some(Jungseong::WI),
            (Jungseong::EU, Jungseong::I) => Some(Jungseong::YI),
            _ => None,
        }
    }

    /// Fuses `self` and `other`, typed in this order, where they fuse.
    pub fn try_add(self, other: Jungseong) -> (r: Option<Jungseong>)
        ensures
            r == self.spec_try_add(other),
    {
        match (self, other) {
            (Jungseong::O, Jungseong::A) => Some(Jungseong::WA),
            (Jungseong::O, Jungseong::AE) => Some(Jungseong::WAE),
            (Jungseong::O, Jungseong::I) => Some(Jungseong::OE),
            (Jungseong::U, Jungseong::EO) => Some(Jungseong::WEO),
            (Jungseong::U, Jungseong::E) => Some(Jungseong::WE),
            (Jungseong::U, Jungseong::I) => Some(Jungseong::WI),
            (Jungseong::EU, Jungseong::I) => Some(Jungseong::YI),
            _ => None,
        }
    }
}

impl Jongseong {
    /// Position among the 28 finals of a syllable block; 0 is the absent
    /// final, so the consonants count from 1.
    pub open spec fn spec_index(self) -> int {
        match self {
            Jongseong::Giyeok => 1,
            Jongseong::SsangGiyeok => 2,
            Jongseong::GiyeokSiot => 3,
            Jongseong::Nieun => 4,
            Jongseong::NieunJieut => 5,
            Jongseong::NieunHieut => 6,
            Jongseong::Digeut => 7,
            Jongseong::Rieul => 8,
            Jongseong::RieulGiyeok => 9,
            Jongseong::RieulMieum => 10,
            Jongseong::RieulBieup => 11,
            Jongseong::RieulSiot => 12,
            Jongseong::RieulTieut => 13,
            Jongseong::RieulPieup => 14,
            Jongseong::RieulHieut => 15,
            Jongseong::Mieum => 16,
            Jongseong::Bieup => 17,
            Jongseong::BieupSiot => 18,
            Jongseong::Siot => 19,
            Jongseong::SsangSiot => 20,
            Jongseong::Ieung => 21,
            Jongseong::Jieut => 22,
            Jongseong::Chieut => 23,
            Jongseong::Kieuk => 24,
            Jongseong::Tieut => 25,
            Jongseong::Pieup => 26,
            Jongseong::Hieut => 27,
        }
    }

    /// Position within a syllable block, as a number to compute with.
    pub fn index(self) -> (r: u32)
        ensures
            r == self.spec_index(),
            1 <= r <= 27,
    {
        match self {
            Jongseong::Giyeok => 1,
            Jongseong::SsangGiyeok => 2,
            Jongseong::GiyeokSiot => 3,
            Jongseong::Nieun => 4,
            Jongseong::NieunJieut => 5,
            Jongseong::NieunHieut => 6,
            Jongseong::Digeut => 7,
            Jongseong::Rieul => 8,
            Jongseong::RieulGiyeok => 9,
            Jongseong::RieulMieum => 10,
            Jongseong::RieulBieup => 11,
            Jongseong::RieulSiot => 12,
            Jongseong::RieulTieut => 13,
            Jongseong::RieulPieup => 14,
            Jongseong::RieulHieut => 15,
            Jongseong::Mieum => 16,
            Jongseong::Bieup => 17,
            Jongseong::BieupSiot => 18,
            Jongseong::Siot => 19,
            Jongseong::SsangSiot => 20,
            Jongseong::Ieung => 21,
            Jongseong::Jieut => 22,
            Jongseong::Chieut => 23,
            Jongseong::Kieuk => 24,
            Jongseong::Tieut => 25,
            Jongseong::Pieup => 26,
            Jongseong::Hieut => 27,
        }
    }

    /// The letter shown for this final while it stands alone.
    pub open spec fn spec_jamo(self) -> char {
        match self {
            Jongseong::Giyeok => 'ㄱ',
            Jongseong::SsangGiyeok => 'ㄲ',
            Jongseong::GiyeokSiot => 'ㄳ',
            Jongseong::Nieun => 'ㄴ',
            Jongseong::NieunJieut => 'ㄵ',
            Jongseong::NieunHieut => 'ㄶ',
            Jongseong::Digeut => 'ㄷ',
            Jongseong::Rieul => 'ㄹ',
            Jongseong::RieulGiyeok => 'ㄺ',
            Jongseong::RieulMieum => 'ㄻ',
            Jongseong::RieulBieup => 'ㄼ',
            Jongseong::RieulSiot => 'ㄽ',
            Jongseong::RieulTieut => 'ㄾ',
            Jongseong::RieulPieup => 'ㄿ',
            Jongseong::RieulHieut => 'ㅀ',
            Jongseong::Mieum => 'ㅁ',
            Jongseong::Bieup => 'ㅂ',
            Jongseong::BieupSiot => 'ㅄ',
            Jongseong::Siot => 'ㅅ',
            Jongseong::SsangSiot => 'ㅆ',
            Jongseong::Ieung => 'ㅇ',
            Jongseong::Jieut => 'ㅈ',
            Jongseong::Chieut => 'ㅊ',
            Jongseong::Kieuk => 'ㅋ',
            Jongseong::Tieut => 'ㅌ',
            Jongseong::Pieup => 'ㅍ',
            Jongseong::Hieut => 'ㅎ',
        }
    }

    /// The letter shown for this final while it stands alone.
    pub fn jamo(self) -> (c: char)
        ensures
            c == self.spec_jamo(),
    {
        match self {
            Jongseong::Giyeok => 'ㄱ',
            Jongseong::SsangGiyeok => 'ㄲ',
            Jongseong::GiyeokSiot => 'ㄳ',
            Jongseong::Nieun => 'ㄴ',
            Jongseong::NieunJieut => 'ㄵ',
            Jongseong::NieunHieut => 'ㄶ',
            Jongseong::Digeut => 'ㄷ',
            Jongseong::Rieul => 'ㄹ',
            Jongseong::RieulGiyeok => 'ㄺ',
            Jongseong::RieulMieum => 'ㄻ',
            Jongseong::RieulBieup => 'ㄼ',
            Jongseong::RieulSiot => 'ㄽ',
            Jongseong::RieulTieut => 'ㄾ',
            Jongseong::RieulPieup => 'ㄿ',
            Jongseong::RieulHieut => 'ㅀ',
            Jongseong::Mieum => 'ㅁ',
            Jongseong::Bieup => 'ㅂ',
            Jongseong::BieupSiot => 'ㅄ',
            Jongseong::Siot => 'ㅅ',
            Jongseong::SsangSiot => 'ㅆ',
            Jongseong::Ieung => 'ㅇ',
            Jongseong::Jieut => 'ㅈ',
            Jongseong::Chieut => 'ㅊ',
            Jongseong::Kieuk => 'ㅋ',
            Jongseong::Tieut => 'ㅌ',
            Jongseong::Pieup => 'ㅍ',
            Jongseong::Hieut => 'ㅎ',
        }
    }

    /// The fused final of two finals typed in a row, if the pair has one: a
    /// doubled consonant or a cluster.
    pub open spec fn spec_try_add(self, other: Jongseong) -> Option<Jongseong> {
        match (self, other) {
            (Jongseong::Giyeok, Jongseong::Giyeok) => Some(Jongseong::SsangGiyeok),
            (Jongseong::Siot, Jongseong::Siot) => Some(Jongseong::SsangSiot),
            (Jongseong::Giyeok, Jongseong::Siot) => Some(Jongseong::GiyeokSiot),
            (Jongseong::Nieun, Jongseong::Jieut) => Some(Jongseong::NieunJieut),
            (Jongseong::Nieun, Jongseong::Hieut) => Some(Jongseong::NieunHieut),
            (Jongseong::Rieul, Jongseong::Giyeok) => Some(Jongseong::RieulGiyeok),
            (Jongseong::Rieul, Jongseong::Mieum) => Some(Jongseong::RieulMieum),
            (Jongseong::Rieul, Jongseong::Bieup) => Some(Jongseong::RieulBieup),
            (Jongseong::Rieul, Jongseong::Siot) => Some(Jongseong::RieulSiot),
            (Jongseong::Rieul, Jongseong::Tieut) => Some(Jongseong::RieulTieut),
            (Jongseong::Rieul, Jongseong::Pieup) => Some(Jongseong::RieulPieup),
            (Jongseong::Rieul, Jongseong::Hieut) => Some(Jongseong::RieulHieut),
            (Jongseong::Bieup, Jongseong::Siot) => Some(Jongseong::BieupSiot),
            _ => None,
        }
    }

    /// Fuses `self` and `other`, typed in this order, where they fuse.
    pub fn try_add(self, other: Jongseong) -> (r: Option<Jongseong>)
        ensures
            r == self.spec_try_add(other),
    {
        match (self, other) {
            (Jongseong::Giyeok, Jongseong::Giyeok) => Some(Jongseong::SsangGiyeok),
            (Jongseong::Siot, Jongseong::Siot) => Some(Jongseong::SsangSiot),
            (Jongseong::Giyeok, Jongseong::Siot) => Some(Jongseong::GiyeokSiot),
            (Jongseong::Nieun, Jongseong::Jieut) => Some(Jongseong::NieunJieut),
            (Jongseong::Nieun, Jongseong::Hieut) => Some(Jongseong::NieunHieut),
            (Jongseong::Rieul, Jongseong::Giyeok) => Some(Jongseong::RieulGiyeok),
            (Jongseong::Rieul, Jongseong::Mieum) => Some(Jongseong::RieulMieum),
            (Jongseong::Rieul, Jongseong::Bieup) => Some(Jongseong::RieulBieup),
            (Jongseong::Rieul, Jongseong::Siot) => Some(Jongseong::RieulSiot),
            (Jongseong::Rieul, Jongseong::Tieut) => Some(Jongseong::RieulTieut),
            (Jongseong::Rieul, Jongseong::Pieup) => Some(Jongseong::RieulPieup),
            (Jongseong::Rieul, Jongseong::Hieut) => Some(Jongseong::RieulHieut),
            (Jongseong::Bieup, Jongseong::Siot) => Some(Jongseong::BieupSiot),
            _ => None,
        }
    }

    /// How this final crosses over to the next syllable: a cluster leaves its
    /// first consonant behind and hands on its second, every other final is
    /// handed on whole.
    pub open spec fn spec_to_cho(self) -> JongToCho {
        match self {
            Jongseong::Giyeok => JongToCho::Direct(Choseong::Giyeok),
            Jongseong::SsangGiyeok => JongToCho::Direct(Choseong::SsangGiyeok),
            Jongseong::GiyeokSiot => JongToCho::Compose(Jongseong::Giyeok, Choseong::Siot),
            Jongseong::Nieun => JongToCho::Direct(Choseong::Nieun),
            Jongseong::NieunJieut => JongToCho::Compose(Jongseong::Nieun, Choseong::Jieut),
            Jongseong::NieunHieut => JongToCho::Compose(Jongseong::Nieun, Choseong::Hieut),
            Jongseong::Digeut => JongToCho::Direct(Choseong::Digeut),
            Jongseong::Rieul => JongToCho::Direct(Choseong::Rieul),
            Jongseong::RieulGiyeok => JongToCho::Compose(Jongseong::Rieul, Choseong::Giyeok),
            Jongseong::RieulMieum => JongToCho::Compose(Jongseong::Rieul, Choseong::Mieum),
            Jongseong::RieulBieup => JongToCho::Compose(Jongseong::Rieul, Choseong::Bieup),
            Jongseong::RieulSiot => JongToCho::Compose(Jongseong::Rieul, Choseong::Siot),
            Jongseong::RieulTieut => JongToCho::Compose(Jongseong::Rieul, Choseong::Tieut),
            Jongseong::RieulPieup => JongToCho::Compose(Jongseong::Rieul, Choseong::Pieup),
            Jongseong::RieulHieut => JongToCho::Compose(Jongseong::Rieul, Choseong::Hieut),
            Jongseong::Mieum => JongToCho::Direct(Choseong::Mieum),
            Jongseong::Bieup => JongToCho::Direct(Choseong::Bieup),
            Jongseong::BieupSiot => JongToCho::Compose(Jongseong::Bieup, Choseong::Siot),
            Jongseong::Siot => JongToCho::Direct(Choseong::Siot),
            Jongseong::SsangSiot => JongToCho::Direct(Choseong::SsangSiot),
            Jongseong::Ieung => JongToCho::Direct(Choseong::Ieung),
            Jongseong::Jieut => JongToCho::Direct(Choseong::Jieut),
            Jongseong::Chieut => JongToCho::Direct(Choseong::Chieut),
            Jongseong::Kieuk => JongToCho::Direct(Choseong::Kieuk),
            Jongseong::Tieut => JongToCho::Direct(Choseong::Tieut),
            Jongseong::Pieup => JongToCho::Direct(Choseong::Pieup),
            Jongseong::Hieut => JongToCho::Direct(Choseong::Hieut),
        }
    }

    /// How this final crosses over to the next syllable.
    pub fn to_cho(self) -> (r: JongToCho)
        ensures
            r == self.spec_to_cho(),
    {
        match self {
            Jongseong::Giyeok => JongToCho::Direct(Choseong::Giyeok),
            Jongseong::SsangGiyeok => JongToCho::Direct(Choseong::SsangGiyeok),
            Jongseong::GiyeokSiot => JongToCho::Compose(Jongseong::Giyeok, Choseong::Siot),
            Jongseong::Nieun => JongToCho::Direct(Choseong::Nieun),
            Jongseong::NieunJieut => JongToCho::Compose(Jongseong::Nieun, Choseong::Jieut),
            Jongseong::NieunHieut => JongToCho::Compose(Jongseong::Nieun, Choseong::Hieut),
            Jongseong::Digeut => JongToCho::Direct(Choseong::Digeut),
            Jongseong::Rieul => JongToCho::Direct(Choseong::Rieul),
            Jongseong::RieulGiyeok => JongToCho::Compose(Jongseong::Rieul, Choseong::Giyeok),
            Jongseong::RieulMieum => JongToCho::Compose(Jongseong::Rieul, Choseong::Mieum),
            Jongseong::RieulBieup => JongToCho::Compose(Jongseong::Rieul, Choseong::Bieup),
            Jongseong::RieulSiot => JongToCho::Compose(Jongseong::Rieul, Choseong::Siot),
            Jongseong::RieulTieut => JongToCho::Compose(Jongseong::Rieul, Choseong::Tieut),
            Jongseong::RieulPieup => JongToCho::Compose(Jongseong::Rieul, Choseong::Pieup),
            Jongseong::RieulHieut => JongToCho::Compose(Jongseong::Rieul, Choseong::Hieut),
            Jongseong::Mieum => JongToCho::Direct(Choseong::Mieum),
            Jongseong::Bieup => JongToCho::Direct(Choseong::Bieup),
            Jongseong::BieupSiot => JongToCho::Compose(Jongseong::Bieup, Choseong::Siot),
            Jongseong::Siot => JongToCho::Direct(Choseong::Siot),
            Jongseong::SsangSiot => JongToCho::Direct(Choseong::SsangSiot),
            Jongseong::Ieung => JongToCho::Direct(Choseong::Ieung),
            Jongseong::Jieut => JongToCho::Direct(Choseong::Jieut),
            Jongseong::Chieut => JongToCho::Direct(Choseong::Chieut),
            Jongseong::Kieuk => JongToCho::Direct(Choseong::Kieuk),
            Jongseong::Tieut => JongToCho::Direct(Choseong::Tieut),
            Jongseong::Pieup => JongToCho::Direct(Choseong::Pieup),
            Jongseong::Hieut => JongToCho::Direct(Choseong::Hieut),
        }
    }
}

/// A jamo on its own shows as a letter of one block of code points, the
/// consonant letters before the vowel letters, so no letter is `'\0'`. An
/// initial and the final that is handed on whole as that initial show as the
/// same letter.
pub proof fn lemma_letters(cho: Choseong, jung: Jungseong, jong: Jongseong)
    ensures
        is_consonant_letter(cho.spec_jamo()),
        FIRST_VOWEL_LETTER <= jung.spec_jamo() as u32 <= LAST_LETTER,
        jung.spec_jamo() as u32 == FIRST_VOWEL_LETTER + jung.spec_index(),
        is_consonant_letter(jong.spec_jamo()),
        jong.spec_to_cho() == JongToCho::Direct(cho) ==> jong.spec_jamo() == cho.spec_jamo(),
{
}

/// A block names its parts: it lies among the syllable blocks, and two
/// blocks are the same character only if initial, medial and final are the
/// same.
pub proof fn lemma_block_of_its_parts(cho: Choseong, jung: Jungseong, jong: Option<Jongseong>)
    ensures
        SYLLABLE_BASE <= cho.spec_compose(jung, jong) as u32 <= SYLLABLE_LAST,
        forall|cho2: Choseong, jung2: Jungseong, jong2: Option<Jongseong>|
            #[trigger] cho2.spec_compose(jung2, jong2) == cho.spec_compose(jung, jong) ==> cho2
                == cho && jung2 == jung && jong2 == jong,
{
    assert forall|cho2: Choseong, jung2: Jungseong, jong2: Option<Jongseong>|
        #[trigger] cho2.spec_compose(jung2, jong2) == cho.spec_compose(
            jung,
            jong,
        ) implies cho2 == cho && jung2 == jung && jong2 == jong by {
        lemma_indices(cho, jung, jong);
        lemma_indices(cho2, jung2, jong2);
    }
    lemma_indices(cho, jung, jong);
}

/// The positions of the jamo within a block: each set is numbered without
/// gaps and without repeats.
pub proof fn lemma_indices(cho: Choseong, jung: Jungseong, jong: Option<Jongseong>)
    ensures
        0 <= cho.spec_index() <= 18,
        0 <= jung.spec_index() <= 20,
        0 <= spec_final_index(jong) <= 27,
        spec_final_index(jong) == 0 <==> jong is None,
        forall|other: Choseong| #[trigger] other.spec_index() == cho.spec_index() ==> other == cho,
        forall|other: Jungseong|
            #[trigger] other.spec_index() == jung.spec_index() ==> other == jung,
        forall|other: Option<Jongseong>|
            #[trigger] spec_final_index(other) == spec_final_index(jong) ==> other == jong,
{
}

/// A fused final crosses over as its parts: a cluster leaves behind the
/// final typed first and hands on the one typed second, and a doubled
/// consonant is handed on whole, as the doubled initial.
pub proof fn lemma_fused_final_splits_into_its_parts(first: Jongseong, second: Jongseong)
    requires
        first.spec_try_add(second) is Some,
    ensures
        match first.spec_try_add(second)->0.spec_to_cho() {
            JongToCho::Compose(left, cho) => left == first && second.spec_to_cho()
                == JongToCho::Direct(cho),
            JongToCho::Direct(cho) => {
                &&& first == second
                &&& first.spec_to_cho() matches JongToCho::Direct(plain)
                &&& plain.spec_try_add(plain) == Some(cho)
            },
        },
{
}

/// Every cluster is a fusion: of the final it leaves behind, itself no
/// cluster, and of the returned final, which is handed on whole as the
/// initial that the cluster hands on.
pub proof fn lemma_cluster_is_a_fusion(
    cluster: Jongseong,
    left: Jongseong,
    cho: Choseong,
) -> (second: Jongseong)
    requires
        cluster.spec_to_cho() == JongToCho::Compose(left, cho),
    ensures
        left.spec_try_add(second) == Some(cluster),
        second.spec_to_cho() == JongToCho::Direct(cho),
        left.spec_to_cho() is Direct,
{
    match cho {
        Choseong::Giyeok => Jongseong::Giyeok,
        Choseong::Mieum => Jongseong::Mieum,
        Choseong::Bieup => Jongseong::Bieup,
        Choseong::Siot => Jongseong::Siot,
        Choseong::Jieut => Jongseong::Jieut,
        Choseong::Tieut => Jongseong::Tieut,
        Choseong::Pieup => Jongseong::Pieup,
        _ => Jongseong::Hieut,
    }
}

/// A fused initial does not fuse again: what two keystrokes made, a third
/// never extends.
pub proof fn lemma_fused_initial_is_final_form(first: Choseong, second: Choseong, third: Choseong)
    requires
        first.spec_try_add(second) is Some,
    ensures
        first.spec_try_add(second)->0.spec_try_add(third) is None,
{
}

/// A fused medial does not fuse again.
pub proof fn lemma_fused_medial_is_final_form(
    first: Jungseong,
    second: Jungseong,
    third: Jungseong,
)
    requires
        first.spec_try_add(second) is Some,
    ensures
        first.spec_try_add(second)->0.spec_try_add(third) is None,
{
}

/// A fused final does not fuse again.
pub proof fn lemma_fused_final_is_final_form(
    first: Jongseong,
    second: Jongseong,
    third: Jongseong,
)
    requires
        first.spec_try_add(second) is Some,
    ensures
        first.spec_try_add(second)->0.spec_try_add(third) is None,
{
}

} // verus!
