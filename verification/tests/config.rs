use kime_engine::{ComposeConfig, RawConfig};

#[test]
fn compose_defaults_fuse_doubled_initials_only() {
    let compose = ComposeConfig::default();
    assert!(compose.compose_choseong_ssang);
    assert!(!compose.decompose_choseong_ssang);
    assert!(!compose.compose_jungseong_ssang);
    assert!(!compose.decompose_jungseong_ssang);
    assert!(!compose.compose_jongseong_ssang);
    assert!(!compose.decompose_jongseong_ssang);
}

#[test]
fn raw_defaults() {
    let raw = RawConfig::default();
    assert_eq!("dubeolsik", raw.layout);
    assert!(raw.esc_turn_off);
    assert_eq!(vec!["AltR", "Henkan", "Hangul", "Super-Space"], raw.hangul_keys);
    assert_eq!("D2Coding", raw.xim_preedit_font);
    assert!(raw.gtk_commit_english);
    assert!(raw.compose.compose_choseong_ssang);
    assert!(!raw.compose.decompose_choseong_ssang);
    assert!(!raw.compose.compose_jungseong_ssang);
    assert!(!raw.compose.decompose_jungseong_ssang);
    assert!(!raw.compose.compose_jongseong_ssang);
    assert!(!raw.compose.decompose_jongseong_ssang);
}
