//! Settings as they are written down by the user: plain values, with the
//! defaults that hold where nothing was written.

use vstd::prelude::*;

verus! {

/// Switches on fusing two keystrokes into a doubled jamo, and on typing a
/// doubled jamo as two keystrokes' worth of output, one pair for each slot.
pub struct ComposeConfig {
    pub compose_choseong_ssang: bool,
    pub decompose_choseong_ssang: bool,
    pub compose_jungseong_ssang: bool,
    pub decompose_jungseong_ssang: bool,
    pub compose_jongseong_ssang: bool,
    pub decompose_jongseong_ssang: bool,
}

impl Default for ComposeConfig {
    /// Only the fusing of doubled initials is switched on.
    fn default() -> (r: ComposeConfig)
        ensures
            r.compose_choseong_ssang,
            !r.decompose_choseong_ssang,
            !r.compose_jungseong_ssang,
            !r.decompose_jungseong_ssang,
            !r.compose_jongseong_ssang,
            !r.decompose_jongseong_ssang,
    {
        ComposeConfig {
            compose_choseong_ssang: true,
            decompose_choseong_ssang: false,
            compose_jungseong_ssang: false,
            decompose_jungseong_ssang: false,
            compose_jongseong_ssang: false,
            decompose_jongseong_ssang: false,
        }
    }
}

/// The settings file, field for field. Keys are written by name and the
/// layout by the name of its file; neither is looked up here.
pub struct RawConfig {
    pub layout: String,
    pub esc_turn_off: bool,
    pub hangul_keys: Vec<String>,
    pub xim_preedit_font: String,
    pub gtk_commit_english: bool,
    pub compose: ComposeConfig,
}

impl RawConfig {
    /// The names of the keys that switch Hangul input on and off where the
    /// settings name none: right Alt, Henkan, Hangul, and Space with Super.
    pub open spec fn default_hangul_keys() -> Seq<Seq<char>> {
        seq!["AltR"@, "Henkan"@, "Hangul"@, "Super-Space"@]
    }
}

impl Default for RawConfig {
    /// The two-set layout, the default switch keys and the default
    /// composition switches.
    fn default() -> (r: RawConfig)
        ensures
            r.layout@ == "dubeolsik"@,
            r.esc_turn_off,
            r.hangul_keys.deep_view() == RawConfig::default_hangul_keys(),
            r.xim_preedit_font@ == "D2Coding"@,
            r.gtk_commit_english,
            r.compose.compose_choseong_ssang,
            !r.compose.decompose_choseong_ssang,
            !r.compose.compose_jungseong_ssang,
            !r.compose.decompose_jungseong_ssang,
            !r.compose.compose_jongseong_ssang,
            !r.compose.decompose_jongseong_ssang,
    {
        let mut hangul_keys: Vec<String> = Vec::new();
        hangul_keys.push("AltR".to_string());
        hangul_keys.push("Henkan".to_string());
        hangul_keys.push("Hangul".to_string());
        hangul_keys.push("Super-Space".to_string());
        assert(hangul_keys.deep_view() =~= RawConfig::default_hangul_keys());
        RawConfig {
            layout: "dubeolsik".to_string(),
            esc_turn_off: true,
            hangul_keys,
            xim_preedit_font: "D2Coding".to_string(),
            gtk_commit_english: true,
            compose: ComposeConfig::default(),
        }
    }
}

} // verus!
