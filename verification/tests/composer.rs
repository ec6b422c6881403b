use kime_engine::{CharacterState, Choseong, InputResult, Jamo, Jongseong, Jungseong};

fn fed(keys: &[Jamo]) -> CharacterState {
    let mut state = CharacterState::default();
    state.feed_all(keys);
    state
}

#[test]
fn jong() {
    let mut state = CharacterState::default();

    assert_eq!(
        InputResult::Preedit('ㅇ'),
        state.cho_jong(Choseong::Ieung, Jongseong::Ieung)
    );
    assert_eq!(InputResult::Preedit('아'), state.jung(Jungseong::A));
    assert_eq!(
        InputResult::Preedit('앙'),
        state.cho_jong(Choseong::Ieung, Jongseong::Ieung)
    );
    assert_eq!(
        InputResult::CommitPreedit('아', '아'),
        state.jung(Jungseong::A)
    );
}

#[test]
fn empty_state_shows_no_character() {
    let state = CharacterState::default();
    assert_eq!('\0', state.to_char());
    assert_eq!('\0', fed(&[]).to_char());
}

#[test]
fn lone_jamo_show_as_letters() {
    assert_eq!('ㄱ', fed(&[Jamo::Choseong(Choseong::Giyeok)]).to_char());
    assert_eq!('ㅏ', fed(&[Jamo::Jungseong(Jungseong::A)]).to_char());
    assert_eq!('ㄳ', fed(&[Jamo::Jongseong(Jongseong::GiyeokSiot)]).to_char());
}

#[test]
fn medial_and_final_without_initial_show_nothing() {
    let mut state = CharacterState::default();
    assert_eq!(InputResult::Preedit('ㅏ'), state.jung(Jungseong::A));
    assert_eq!(InputResult::Preedit('\0'), state.jong(Jongseong::Nieun));
    assert_eq!('\0', state.to_char());
}

#[test]
fn initial_and_final_without_medial_show_the_initial() {
    let mut state = CharacterState::default();
    assert_eq!(InputResult::Preedit('ㅎ'), state.cho(Choseong::Hieut));
    assert_eq!(InputResult::Preedit('ㅎ'), state.jong(Jongseong::Nieun));
    assert_eq!(InputResult::Preedit('한'), state.jung(Jungseong::A));
}

#[test]
fn initial_and_medial_show_as_block() {
    let mut state = CharacterState::default();
    state.cho(Choseong::Giyeok);
    assert_eq!(InputResult::Preedit('그'), state.jung(Jungseong::EU));
    assert_eq!(InputResult::Preedit('글'), state.jong(Jongseong::Rieul));
    assert_eq!('글', state.to_char());
}

#[test]
fn initial_fills_empty_slot_behind_medial() {
    let mut state = CharacterState::default();
    assert_eq!(InputResult::Preedit('ㅗ'), state.jung(Jungseong::O));
    assert_eq!(InputResult::Preedit('소'), state.cho(Choseong::Siot));
}

#[test]
fn doubled_initial_fuses() {
    let mut state = CharacterState::default();
    assert_eq!(InputResult::Preedit('ㄱ'), state.cho(Choseong::Giyeok));
    assert_eq!(InputResult::Preedit('ㄲ'), state.cho(Choseong::Giyeok));
    assert_eq!(InputResult::Preedit('까'), state.jung(Jungseong::A));
}

#[test]
fn doubled_initial_fuses_under_a_medial() {
    let mut state = fed(&[
        Jamo::Choseong(Choseong::Siot),
        Jamo::Jungseong(Jungseong::A),
    ]);
    assert_eq!(InputResult::Preedit('싸'), state.cho(Choseong::Siot));
}

#[test]
fn initial_that_does_not_fuse_commits() {
    let mut state = CharacterState::default();
    state.cho(Choseong::Giyeok);
    assert_eq!(
        InputResult::CommitPreedit('ㄱ', 'ㄴ'),
        state.cho(Choseong::Nieun)
    );
    assert_eq!('ㄴ', state.to_char());
}

#[test]
fn initial_after_a_full_syllable_commits_it() {
    let mut state = fed(&[
        Jamo::Choseong(Choseong::Hieut),
        Jamo::Jungseong(Jungseong::A),
        Jamo::Jongseong(Jongseong::Nieun),
    ]);
    assert_eq!(
        InputResult::CommitPreedit('한', 'ㄱ'),
        state.cho(Choseong::Giyeok)
    );
    assert_eq!(InputResult::Preedit('그'), state.jung(Jungseong::EU));
    assert_eq!(InputResult::Preedit('글'), state.jong(Jongseong::Rieul));
}

#[test]
fn tense_initial_does_not_fuse_again() {
    let mut state = CharacterState::default();
    state.cho(Choseong::Giyeok);
    state.cho(Choseong::Giyeok);
    assert_eq!(
        InputResult::CommitPreedit('ㄲ', 'ㄱ'),
        state.cho(Choseong::Giyeok)
    );
}

#[test]
fn medials_fuse_into_diphthong() {
    let mut state = CharacterState::default();
    state.cho(Choseong::Ieung);
    assert_eq!(InputResult::Preedit('오'), state.jung(Jungseong::O));
    assert_eq!(InputResult::Preedit('와'), state.jung(Jungseong::A));
}

#[test]
fn medial_that_does_not_fuse_commits() {
    let mut state = CharacterState::default();
    state.cho(Choseong::Ieung);
    state.jung(Jungseong::A);
    assert_eq!(
        InputResult::CommitPreedit('아', 'ㅏ'),
        state.jung(Jungseong::A)
    );
    assert_eq!('ㅏ', state.to_char());
}

#[test]
fn medials_fuse_in_one_order_only() {
    let mut state = CharacterState::default();
    state.jung(Jungseong::A);
    assert_eq!(
        InputResult::CommitPreedit('ㅏ', 'ㅗ'),
        state.jung(Jungseong::O)
    );
    assert_eq!(InputResult::Preedit('ㅘ'), state.jung(Jungseong::A));
}

#[test]
fn medial_takes_whole_final_along() {
    let mut state = fed(&[
        Jamo::Choseong(Choseong::Giyeok),
        Jamo::Jungseong(Jungseong::A),
        Jamo::Jongseong(Jongseong::SsangGiyeok),
    ]);
    assert_eq!('갂', state.to_char());
    assert_eq!(
        InputResult::CommitPreedit('가', '까'),
        state.jung(Jungseong::A)
    );
}

#[test]
fn medial_takes_final_of_a_syllable_without_initial() {
    let mut state = fed(&[
        Jamo::Jungseong(Jungseong::A),
        Jamo::Jongseong(Jongseong::Nieun),
    ]);
    assert_eq!(
        InputResult::CommitPreedit('ㅏ', '니'),
        state.jung(Jungseong::I)
    );
}

#[test]
fn doubled_final_fuses() {
    let mut state = CharacterState::default();
    assert_eq!(InputResult::Preedit('ㅇ'), state.cho(Choseong::Ieung));
    assert_eq!(InputResult::Preedit('이'), state.jung(Jungseong::I));
    assert_eq!(InputResult::Preedit('익'), state.jong(Jongseong::Giyeok));
    assert_eq!(InputResult::Preedit('읶'), state.jong(Jongseong::Giyeok));
}

#[test]
fn finals_fuse_into_cluster() {
    let mut state = fed(&[
        Jamo::Choseong(Choseong::Digeut),
        Jamo::Jungseong(Jungseong::A),
    ]);
    assert_eq!(InputResult::Preedit('달'), state.jong(Jongseong::Rieul));
    assert_eq!(InputResult::Preedit('닭'), state.jong(Jongseong::Giyeok));
}

#[test]
fn medial_splits_cluster() {
    let mut state = fed(&[
        Jamo::Choseong(Choseong::Giyeok),
        Jamo::Jungseong(Jungseong::A),
        Jamo::Jongseong(Jongseong::Giyeok),
        Jamo::Jongseong(Jongseong::Siot),
    ]);
    assert_eq!('갃', state.to_char());
    assert_eq!(
        InputResult::CommitPreedit('각', '사'),
        state.jung(Jungseong::A)
    );
    assert_eq!('사', state.to_char());
}

#[test]
fn medial_splits_cluster_of_a_syllable_without_initial() {
    let mut state = fed(&[
        Jamo::Jungseong(Jungseong::A),
        Jamo::Jongseong(Jongseong::RieulMieum),
    ]);
    assert_eq!('\0', state.to_char());
    assert_eq!(
        InputResult::CommitPreedit('\0', '마'),
        state.jung(Jungseong::A)
    );
}

#[test]
fn final_behind_plain_final_keeps_both_consonants() {
    let mut state = fed(&[
        Jamo::Choseong(Choseong::Ieung),
        Jamo::Jungseong(Jungseong::A),
        Jamo::Jongseong(Jongseong::Giyeok),
    ]);
    assert_eq!('악', state.to_char());
    assert_eq!(
        InputResult::CommitPreedit('악', 'ㄱ'),
        state.jong(Jongseong::Nieun)
    );
    assert_eq!('ㄱ', state.to_char());
    assert_eq!(InputResult::Preedit('간'), state.jung(Jungseong::A));
}

#[test]
fn final_behind_cluster_starts_alone() {
    let mut state = fed(&[
        Jamo::Choseong(Choseong::Giyeok),
        Jamo::Jungseong(Jungseong::A),
        Jamo::Jongseong(Jongseong::GiyeokSiot),
    ]);
    assert_eq!(
        InputResult::CommitPreedit('갃', 'ㄴ'),
        state.jong(Jongseong::Nieun)
    );
    assert_eq!('ㄴ', state.to_char());
    assert_eq!(InputResult::Preedit('\0'), state.jung(Jungseong::A));
}

#[test]
fn lone_finals_that_do_not_fuse_commit() {
    let mut state = CharacterState::default();
    assert_eq!(InputResult::Preedit('ㄴ'), state.jong(Jongseong::Nieun));
    assert_eq!(
        InputResult::CommitPreedit('ㄴ', 'ㄴ'),
        state.jong(Jongseong::Nieun)
    );
}

#[test]
fn ambiguous_consonant_goes_to_the_open_slot() {
    let mut state = CharacterState::default();
    assert_eq!(
        InputResult::Preedit('ㄱ'),
        state.cho_jong(Choseong::Giyeok, Jongseong::Giyeok)
    );
    assert_eq!(
        InputResult::Preedit('ㄲ'),
        state.cho_jong(Choseong::Giyeok, Jongseong::Giyeok)
    );
    assert_eq!(InputResult::Preedit('까'), state.jung(Jungseong::A));
    assert_eq!(
        InputResult::Preedit('깍'),
        state.cho_jong(Choseong::Giyeok, Jongseong::Giyeok)
    );
    assert_eq!(
        InputResult::Preedit('깎'),
        state.cho_jong(Choseong::Giyeok, Jongseong::Giyeok)
    );
}

#[test]
fn feed_matches_the_operation_of_each_slot() {
    let mut by_feed = CharacterState::default();
    let mut by_slot = CharacterState::default();
    assert_eq!(
        by_slot.cho(Choseong::Bieup),
        by_feed.feed(Jamo::Choseong(Choseong::Bieup))
    );
    assert_eq!(
        by_slot.jung(Jungseong::U),
        by_feed.feed(Jamo::Jungseong(Jungseong::U))
    );
    assert_eq!(
        by_slot.jong(Jongseong::Rieul),
        by_feed.feed(Jamo::Jongseong(Jongseong::Rieul))
    );
    assert_eq!(
        by_slot.cho_jong(Choseong::Giyeok, Jongseong::Giyeok),
        by_feed.feed(Jamo::ChoJong(Choseong::Giyeok, Jongseong::Giyeok))
    );
    assert_eq!('붉', by_feed.to_char());
    assert_eq!(by_slot.to_char(), by_feed.to_char());
}

#[test]
fn feed_all_gives_one_signal_for_each_key() {
    let keys = [
        Jamo::ChoJong(Choseong::Ieung, Jongseong::Ieung),
        Jamo::Jungseong(Jungseong::A),
        Jamo::ChoJong(Choseong::Ieung, Jongseong::Ieung),
        Jamo::Jungseong(Jungseong::A),
    ];
    let mut state = CharacterState::default();
    assert_eq!(
        vec![
            InputResult::Preedit('ㅇ'),
            InputResult::Preedit('아'),
            InputResult::Preedit('앙'),
            InputResult::CommitPreedit('아', '아'),
        ],
        state.feed_all(&keys)
    );
    assert_eq!('아', state.to_char());
    assert_eq!(Vec::<InputResult>::new(), state.feed_all(&[]));
    assert_eq!('아', state.to_char());
}

#[test]
fn replaying_the_same_keys_gives_the_same_signals() {
    let keys = [
        Jamo::Choseong(Choseong::Digeut),
        Jamo::Jungseong(Jungseong::A),
        Jamo::Jongseong(Jongseong::Rieul),
        Jamo::Jongseong(Jongseong::Giyeok),
        Jamo::Jungseong(Jungseong::O),
        Jamo::Jungseong(Jungseong::A),
        Jamo::Jongseong(Jongseong::Siot),
        Jamo::Jongseong(Jongseong::Siot),
        Jamo::Jongseong(Jongseong::Siot),
        Jamo::ChoJong(Choseong::Mieum, Jongseong::Mieum),
        Jamo::Choseong(Choseong::Mieum),
    ];
    let mut first = CharacterState::default();
    let mut second = CharacterState::default();
    let signals = first.feed_all(&keys);
    assert_eq!(signals, second.feed_all(&keys));
    assert_eq!(keys.len(), signals.len());
    assert_eq!(first.to_char(), second.to_char());

    let mut stepwise = CharacterState::default();
    for (key, signal) in keys.iter().zip(signals.iter()) {
        assert_eq!(*signal, stepwise.feed(*key));
    }
    assert_eq!(
        vec![
            InputResult::Preedit('ㄷ'),
            InputResult::Preedit('다'),
            InputResult::Preedit('달'),
            InputResult::Preedit('닭'),
            InputResult::CommitPreedit('달', '고'),
            InputResult::Preedit('과'),
            InputResult::Preedit('괏'),
            InputResult::Preedit('괐'),
            InputResult::CommitPreedit('괐', 'ㅆ'),
            InputResult::CommitPreedit('ㅆ', 'ㅁ'),
            InputResult::CommitPreedit('ㅁ', 'ㅁ'),
        ],
        signals
    );
}

#[test]
fn commit_is_what_was_shown_before() {
    let starts: [&[Jamo]; 4] = [
        &[Jamo::Choseong(Choseong::Nieun)],
        &[Jamo::Choseong(Choseong::Nieun), Jamo::Jungseong(Jungseong::A)],
        &[
            Jamo::Choseong(Choseong::Nieun),
            Jamo::Jungseong(Jungseong::A),
            Jamo::Jongseong(Jongseong::Rieul),
        ],
        &[Jamo::Jungseong(Jungseong::A), Jamo::Jongseong(Jongseong::RieulHieut)],
    ];
    let keys = [
        Jamo::Choseong(Choseong::Mieum),
        Jamo::Jongseong(Jongseong::Chieut),
        Jamo::ChoJong(Choseong::Mieum, Jongseong::Mieum),
    ];
    let mut commits: u32 = 0;
    for start in starts {
        for key in keys {
            let mut state = fed(start);
            let shown = state.to_char();
            if let InputResult::CommitPreedit(committed, next) = state.feed(key) {
                assert_eq!(shown, committed);
                assert_eq!(state.to_char(), next);
                commits += 1;
            }
        }
    }
    assert_eq!(7, commits);
}
