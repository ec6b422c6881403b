//! The syllable composer: the one syllable in progress, and what each jamo
//! fed to it commits and leaves in progress.

use crate::characters::{
    lemma_block_of_its_parts, lemma_fused_final_is_final_form, lemma_fused_initial_is_final_form,
    lemma_fused_medial_is_final_form, lemma_letters, Choseong, JongToCho, Jongseong, Jungseong,
    FIRST_LETTER, LAST_LETTER, SYLLABLE_BASE, SYLLABLE_LAST,
};
use vstd::prelude::*;

verus! {

/// What stands for "no character" in a signal: the syllable has nothing to
/// show.
pub const NO_CHARACTER: char = '\0';

/// What one keystroke did.
#[derive(Clone, Copy, Debug, PartialEq, Eq, Structural)]
pub enum InputResult {
    /// Nothing was committed. The character shows the syllable in progress.
    Preedit(char),
    /// The first character was committed. The second shows the syllable that
    /// was begun after it.
    CommitPreedit(char, char),
}

/// One keystroke: a jamo together with the slot it is meant for.
#[derive(Clone, Copy, Debug, PartialEq, Eq, Structural)]
pub enum Jamo {
    /// An initial consonant.
    Choseong(Choseong),
    /// A medial vowel.
    Jungseong(Jungseong),
    /// A final consonant.
    Jongseong(Jongseong),
    /// A consonant of a key that does not say which: the initial and the
    /// final of one sound, of which the syllable in progress picks one.
    ChoJong(Choseong, Jongseong),
}

/// The three slots of a syllable, each empty or filled: what a
/// [`CharacterState`] holds.
pub struct Syllable {
    pub cho: Option<Choseong>,
    pub jung: Option<Jungseong>,
    pub jong: Option<Jongseong>,
}

impl Syllable {
    /// The syllable with nothing in it.
    pub open spec fn empty() -> Syllable {
        Syllable { cho: None, jung: None, jong: None }
    }

    /// The one character that shows this syllable. An initial with a medial
    /// shows as their block, with the final if there is one. An initial
    /// without a medial shows as its own letter, whether or not a final is
    /// held. Without an initial, a lone medial or a lone final shows as its
    /// own letter, and everything else (nothing at all, or a medial with a
    /// final) has no character.
    pub open spec fn project(self) -> char {
        match (self.cho, self.jung, self.jong) {
            (Some(cho), Some(jung), jong) => cho.spec_compose(jung, jong),
            (Some(cho), None, _) => cho.spec_jamo(),
            (None, Some(jung), None) => jung.spec_jamo(),
            (None, None, Some(jong)) => jong.spec_jamo(),
            (None, Some(_), Some(_)) => NO_CHARACTER,
            (None, None, None) => NO_CHARACTER,
        }
    }

    /// The signal of a keystroke that left `next` in progress and, if it
    /// closed a syllable, committed `committed`.
    pub open spec fn report(committed: Option<Syllable>, next: Syllable) -> InputResult {
        match committed {
            Some(done) => InputResult::CommitPreedit(done.project(), next.project()),
            None => InputResult::Preedit(next.project()),
        }
    }

    /// Whether the initial `cho` closes this syllable: an initial is held and
    /// does not fuse with it.
    pub open spec fn cho_closes(self, cho: Choseong) -> bool {
        self.cho matches Some(held) && held.spec_try_add(cho) is None
    }

    /// The syllable in progress after the initial `cho` was fed to this one:
    /// `cho` alone where it closes this syllable, else this syllable with
    /// `cho` in the initial slot, fused with what was held there.
    pub open spec fn after_cho(self, cho: Choseong) -> Syllable {
        match self.cho {
            None => Syllable { cho: Some(cho), jung: self.jung, jong: self.jong },
            Some(held) => match held.spec_try_add(cho) {
                Some(fused) => Syllable { cho: Some(fused), jung: self.jung, jong: self.jong },
                None => Syllable { cho: Some(cho), jung: None, jong: None },
            },
        }
    }

    /// The signal that feeding the initial `cho` gives. A syllable that `cho`
    /// closes is committed as it stands.
    pub open spec fn signal_cho(self, cho: Choseong) -> InputResult {
        Self::report(
            if self.cho_closes(cho) {
                Some(self)
            } else {
                None
            },
            self.after_cho(cho),
        )
    }

    /// Whether the medial `jung` closes this syllable: a medial is held and
    /// does not fuse with it.
    pub open spec fn jung_closes(self, jung: Jungseong) -> bool {
        self.jung matches Some(held) && held.spec_try_add(jung) is None
    }

    /// The final that stays in this syllable when a medial closes it: the
    /// first consonant of a cluster. Any other final leaves whole.
    pub open spec fn final_left_behind(self) -> Option<Jongseong> {
        match self.jong {
            Some(held) => match held.spec_to_cho() {
                JongToCho::Direct(_) => None,
                JongToCho::Compose(left, _) => Some(left),
            },
            None => None,
        }
    }

    /// The initial that the next syllable gets from the held final when a
    /// medial closes this syllable: the second consonant of a cluster, or
    /// the whole of any other final.
    pub open spec fn initial_carried_over(self) -> Option<Choseong> {
        match self.jong {
            Some(held) => match held.spec_to_cho() {
                JongToCho::Direct(cho) => Some(cho),
                JongToCho::Compose(_, cho) => Some(cho),
            },
            None => None,
        }
    }

    /// This syllable as it is committed when a medial closes it: without the
    /// consonant that the medial takes along as its initial.
    pub open spec fn closed_by_jung(self) -> Syllable {
        Syllable { cho: self.cho, jung: self.jung, jong: self.final_left_behind() }
    }

    /// The syllable in progress after the medial `jung` was fed to this one:
    /// where `jung` closes this syllable, `jung` after the initial carried
    /// over, else this syllable with `jung` in the medial slot, fused with
    /// what was held there.
    pub open spec fn after_jung(self, jung: Jungseong) -> Syllable {
        match self.jung {
            None => Syllable { cho: self.cho, jung: Some(jung), jong: self.jong },
            Some(held) => match held.spec_try_add(jung) {
                Some(fused) => Syllable { cho: self.cho, jung: Some(fused), jong: self.jong },
                None => Syllable { cho: self.initial_carried_over(), jung: Some(jung), jong: None },
            },
        }
    }

    /// The signal that feeding the medial `jung` gives. A syllable that
    /// `jung` closes is committed without what `jung` takes along.
    pub open spec fn signal_jung(self, jung: Jungseong) -> InputResult {
        Self::report(
            if self.jung_closes(jung) {
                Some(self.closed_by_jung())
            } else {
                None
            },
            self.after_jung(jung),
        )
    }

    /// Whether the final `jong` closes this syllable: a final is held and
    /// does not fuse with it.
    pub open spec fn jong_closes(self, jong: Jongseong) -> bool {
        self.jong matches Some(held) && held.spec_try_add(jong) is None
    }

    /// The syllable in progress after the final `jong` was fed to this one.
    /// Where `jong` closes this syllable, the next one holds `jong` as its
    /// final, and as its initial the held final if that is no cluster. Else
    /// it is this syllable with `jong` in the final slot, fused with what was
    /// held there.
    pub open spec fn after_jong(self, jong: Jongseong) -> Syllable {
        match self.jong {
            None => Syllable { cho: self.cho, jung: self.jung, jong: Some(jong) },
            Some(held) => match held.spec_try_add(jong) {
                Some(fused) => Syllable { cho: self.cho, jung: self.jung, jong: Some(fused) },
                None => Syllable {
                    cho: match held.spec_to_cho() {
                        JongToCho::Direct(cho) => Some(cho),
                        JongToCho::Compose(_, _) => None,
                    },
                    jung: None,
                    jong: Some(jong),
                },
            },
        }
    }

    /// The signal that feeding the final `jong` gives. A syllable that `jong`
    /// closes is committed as it stands.
    pub open spec fn signal_jong(self, jong: Jongseong) -> InputResult {
        Self::report(
            if self.jong_closes(jong) {
                Some(self)
            } else {
                None
            },
            self.after_jong(jong),
        )
    }

    /// Whether a key that stands for an initial and for a final goes to the
    /// initial slot: it does while no medial is held.
    pub open spec fn takes_as_initial(self) -> bool {
        self.jung is None
    }

    /// Whether `jamo` closes this syllable.
    pub open spec fn closes(self, jamo: Jamo) -> bool {
        match jamo {
            Jamo::Choseong(cho) => self.cho_closes(cho),
            Jamo::Jungseong(jung) => self.jung_closes(jung),
            Jamo::Jongseong(jong) => self.jong_closes(jong),
            Jamo::ChoJong(cho, jong) => if self.takes_as_initial() {
                self.cho_closes(cho)
            } else {
                self.jong_closes(jong)
            },
        }
    }

    /// The syllable in progress after `jamo` was fed to this one.
    pub open spec fn after(self, jamo: Jamo) -> Syllable {
        match jamo {
            Jamo::Choseong(cho) => self.after_cho(cho),
            Jamo::Jungseong(jung) => self.after_jung(jung),
            Jamo::Jongseong(jong) => self.after_jong(jong),
            Jamo::ChoJong(cho, jong) => if self.takes_as_initial() {
                self.after_cho(cho)
            } else {
                self.after_jong(jong)
            },
        }
    }

    /// The signal that feeding `jamo` to this syllable gives.
    pub open spec fn signal(self, jamo: Jamo) -> InputResult {
        match jamo {
            Jamo::Choseong(cho) => self.signal_cho(cho),
            Jamo::Jungseong(jung) => self.signal_jung(jung),
            Jamo::Jongseong(jong) => self.signal_jong(jong),
            Jamo::ChoJong(cho, jong) => if self.takes_as_initial() {
                self.signal_cho(cho)
            } else {
                self.signal_jong(jong)
            },
        }
    }

    /// The syllable in progress after every jamo of `inputs` was fed, first
    /// to last, starting from this one.
    pub open spec fn replay(self, inputs: Seq<Jamo>) -> Syllable
        decreases inputs.len(),
    {
        if inputs.len() == 0 {
            self
        } else {
            self.replay(inputs.drop_last()).after(inputs.last())
        }
    }

    /// The signals that feeding the jamo of `inputs` gives, first to last,
    /// starting from this syllable: one for each jamo, given by the syllable
    /// that the jamo before it left in progress.
    pub open spec fn signals(self, inputs: Seq<Jamo>) -> Seq<InputResult> {
        Seq::new(inputs.len(), |i: int| self.replay(inputs.take(i)).signal(inputs[i]))
    }
}

/// The syllable that is being composed.
#[derive(Clone, Copy, Debug)]
pub struct CharacterState {
    cho: Option<Choseong>,
    jung: Option<Jungseong>,
    jong: Option<Jongseong>,
}

impl View for CharacterState {
    type V = Syllable;

    closed spec fn view(&self) -> Syllable {
        Syllable { cho: self.cho, jung: self.jung, jong: self.jong }
    }
}

impl Default for CharacterState {
    /// The empty syllable, which shows no character.
    fn default() -> (r: CharacterState)
        ensures
            r@ == Syllable::empty(),
            r@.project() == NO_CHARACTER,
    {
        CharacterState { cho: None, jung: None, jong: None }
    }
}

impl CharacterState {
    /// The character that shows the syllable in progress, `NO_CHARACTER`
    /// where it has none.
    pub fn to_char(&self) -> (c: char)
        ensures
            c == self@.project(),
    {
        match (self.cho, self.jung, self.jong) {
            (None, None, None) => NO_CHARACTER,
            (Some(cho), None, None) => cho.jamo(),
            (None, Some(jung), None) => jung.jamo(),
            (None, None, Some(jong)) => jong.jamo(),
            (None, Some(_), Some(_)) => NO_CHARACTER,
            (Some(cho), None, Some(_)) => cho.jamo(),
            (Some(cho), Some(jung), jong) => cho.compose(jung, jong),
        }
    }

    /// Puts `new` in place of the syllable in progress and returns the
    /// character that showed the old one.
    fn replace(&mut self, new: CharacterState) -> (prev: char)
        ensures
            *final(self) == new,
            prev == old(self)@.project(),
    {
        let prev = *self;
        *self = new;
        prev.to_char()
    }

    /// Feeds a jamo of a key that stands for an initial and for a final of
    /// one sound: it goes to the initial while no medial is held, and to the
    /// final after.
    pub fn cho_jong(&mut self, cho: Choseong, jong: Jongseong) -> (r: InputResult)
        ensures
            final(self)@ == old(self)@.after(Jamo::ChoJong(cho, jong)),
            r == old(self)@.signal(Jamo::ChoJong(cho, jong)),
    {
        if self.jung.is_none() {
            self.cho(cho)
        } else {
            self.jong(jong)
        }
    }

    /// Feeds an initial. It fills the empty slot or fuses with the held
    /// initial; where it cannot, the syllable is committed as it stands and
    /// `cho` begins the next one.
    pub fn cho(&mut self, cho: Choseong) -> (r: InputResult)
        ensures
            final(self)@ == old(self)@.after_cho(cho),
            r == old(self)@.signal_cho(cho),
    {
        if let Some(held) = self.cho {
            match held.try_add(cho) {
                Some(fused) => {
                    self.cho = Some(fused);
                    InputResult::Preedit(self.to_char())
                },
                None => {
                    let commit = self.replace(
                        CharacterState { cho: Some(cho), jung: None, jong: None },
                    );
                    InputResult::CommitPreedit(commit, self.to_char())
                },
            }
        } else {
            self.cho = Some(cho);
            InputResult::Preedit(self.to_char())
        }
    }

    /// Feeds a medial. It fills the empty slot or fuses with the held medial;
    /// where it cannot, it takes the held final, or the second consonant of a
    /// held cluster, as the initial of the next syllable, and the rest is
    /// committed.
    pub fn jung(&mut self, jung: Jungseong) -> (r: InputResult)
        ensures
            final(self)@ == old(self)@.after_jung(jung),
            r == old(self)@.signal_jung(jung),
    {
        if let Some(held) = self.jung {
            match held.try_add(jung) {
                Some(fused) => {
                    self.jung = Some(fused);
                    InputResult::Preedit(self.to_char())
                },
                None => {
                    let new = match self.jong {
                        Some(last) => match last.to_cho() {
                            JongToCho::Direct(cho) => {
                                self.jong = None;
                                CharacterState { cho: Some(cho), jung: Some(jung), jong: None }
                            },
                            JongToCho::Compose(left, cho) => {
                                self.jong = Some(left);
                                CharacterState { cho: Some(cho), jung: Some(jung), jong: None }
                            },
                        },
                        None => CharacterState { cho: None, jung: Some(jung), jong: None },
                    };
                    let commit = self.replace(new);
                    InputResult::CommitPreedit(commit, self.to_char())
                },
            }
        } else {
            self.jung = Some(jung);
            InputResult::Preedit(self.to_char())
        }
    }

    /// Feeds a final. It fills the empty slot or fuses with the held final;
    /// where it cannot, the syllable is committed as it stands and `jong` is
    /// held as the final of the next one, after the initial that the old
    /// final handed on if it was no cluster.
    pub fn jong(&mut self, jong: Jongseong) -> (r: InputResult)
        ensures
            final(self)@ == old(self)@.after_jong(jong),
            r == old(self)@.signal_jong(jong),
    {
        if let Some(held) = self.jong {
            match held.try_add(jong) {
                Some(fused) => {
                    self.jong = Some(fused);
                    InputResult::Preedit(self.to_char())
                },
                None => {
                    let mut new = match held.to_cho() {
                        JongToCho::Direct(cho) => CharacterState {
                            cho: Some(cho),
                            jung: None,
                            jong: None,
                        },
                        JongToCho::Compose(_, _) => CharacterState::default(),
                    };
                    new.jong = Some(jong);
                    let commit = self.replace(new);
                    InputResult::CommitPreedit(commit, self.to_char())
                },
            }
        } else {
            self.jong = Some(jong);
            InputResult::Preedit(self.to_char())
        }
    }

    /// Feeds one keystroke to the slot that it names. A consonant that names
    /// none goes where `cho_jong` puts it.
    pub fn feed(&mut self, jamo: Jamo) -> (r: InputResult)
        ensures
            final(self)@ == old(self)@.after(jamo),
            r == old(self)@.signal(jamo),
    {
        match jamo {
            Jamo::Choseong(cho) => self.cho(cho),
            Jamo::Jungseong(jung) => self.jung(jung),
            Jamo::Jongseong(jong) => self.jong(jong),
            Jamo::ChoJong(cho, jong) => self.cho_jong(cho, jong),
        }
    }

    /// Feeds the keystrokes of `inputs`, first to last, and returns the
    /// signal of each.
    pub fn feed_all(&mut self, inputs: &[Jamo]) -> (signals: Vec<InputResult>)
        ensures
            final(self)@ == old(self)@.replay(inputs@),
            signals@ == old(self)@.signals(inputs@),
    {
        let ghost start = self@;
        let mut signals: Vec<InputResult> = Vec::new();
        let mut i: usize = 0;
        while i < inputs.len()
            invariant
                i <= inputs.len(),
                self@ == start.replay(inputs@.take(i as int)),
                signals@ == start.signals(inputs@.take(i as int)),
            decreases inputs.len() - i,
        {
            proof {
                let fed = inputs@.take(i as int);
                lemma_replay_one_more(start, fed, inputs@[i as int]);
                assert(fed.push(inputs@[i as int]) == inputs@.take(i as int + 1));
            }
            let signal = self.feed(inputs[i]);
            signals.push(signal);
            i += 1;
        }
        proof {
            assert(inputs@.take(i as int) == inputs@);
        }
        signals
    }
}

/// Replaying one jamo more: the syllable in progress moves on by that jamo,
/// and its signal comes behind the signals so far, which stay as they were.
pub proof fn lemma_replay_one_more(start: Syllable, inputs: Seq<Jamo>, jamo: Jamo)
    ensures
        start.replay(inputs.push(jamo)) == start.replay(inputs).after(jamo),
        start.signals(inputs.push(jamo)) == start.signals(inputs).push(
            start.replay(inputs).signal(jamo),
        ),
{
    let longer = inputs.push(jamo);
    assert(longer.drop_last() == inputs);
    assert forall|i: int| 0 <= i <= inputs.len() implies #[trigger] longer.take(i)
        == inputs.take(i) by {
        assert(longer.take(i) =~= inputs.take(i));
    }
    assert(inputs.take(inputs.len() as int) == inputs);
    assert(start.signals(longer) =~= start.signals(inputs).push(
        start.replay(inputs).signal(jamo),
    ));
}

/// What a composer signals is determined by what it was fed: two composers
/// that start empty and are fed the same jamo give the same signals, one for
/// each jamo, and end with the same syllable in progress.
pub proof fn lemma_replay_is_determined(
    a: CharacterState,
    b: CharacterState,
    fed_to_a: Seq<Jamo>,
    fed_to_b: Seq<Jamo>,
)
    requires
        a@ == Syllable::empty(),
        b@ == Syllable::empty(),
        fed_to_a == fed_to_b,
    ensures
        a@.signals(fed_to_a) == b@.signals(fed_to_b),
        a@.signals(fed_to_a).len() == fed_to_a.len(),
        a@.replay(fed_to_a) == b@.replay(fed_to_b),
{
}

/// What was signalled does not depend on what is fed later: the signals of
/// the first `n` jamo are the first `n` signals.
pub proof fn lemma_signals_of_a_prefix(start: Syllable, inputs: Seq<Jamo>, n: int)
    requires
        0 <= n <= inputs.len(),
    ensures
        start.signals(inputs.take(n)) == start.signals(inputs).take(n),
{
    assert forall|i: int| 0 <= i < n implies #[trigger] inputs.take(n).take(i) == inputs.take(
        i,
    ) by {
        assert(inputs.take(n).take(i) =~= inputs.take(i));
    }
    assert(start.signals(inputs.take(n)) =~= start.signals(inputs).take(n));
}

/// A syllable has no character in exactly two shapes: with nothing in it,
/// and as a medial and a final without an initial. In every other shape it
/// shows a jamo letter or a syllable block.
pub proof fn lemma_shapes_without_character(s: Syllable)
    ensures
        s.project() == NO_CHARACTER <==> s.cho is None && (s.jung is Some <==> s.jong is Some),
        s.cho is Some && s.jung is Some ==> SYLLABLE_BASE <= s.project() as u32
            <= SYLLABLE_LAST,
        s.project() != NO_CHARACTER && !(s.cho is Some && s.jung is Some) ==> FIRST_LETTER
            <= s.project() as u32 <= LAST_LETTER,
{
    match (s.cho, s.jung, s.jong) {
        (Some(cho), Some(jung), jong) => lemma_block_of_its_parts(cho, jung, jong),
        (Some(cho), None, _) => lemma_letters(cho, Jungseong::A, Jongseong::Giyeok),
        (None, Some(jung), None) => lemma_letters(Choseong::Giyeok, jung, Jongseong::Giyeok),
        (None, None, Some(jong)) => lemma_letters(Choseong::Giyeok, Jungseong::A, jong),
        _ => {},
    }
}

/// A keystroke commits exactly when its jamo closes the syllable, and what it
/// shows as in progress is the syllable that it leaves.
pub proof fn lemma_commits_exactly_when_closed(s: Syllable, jamo: Jamo)
    ensures
        s.closes(jamo) <==> s.signal(jamo) is CommitPreedit,
        !s.closes(jamo) <==> s.signal(jamo) == InputResult::Preedit(s.after(jamo).project()),
        s.signal(jamo) matches InputResult::CommitPreedit(_, next) ==> next == s.after(
            jamo,
        ).project(),
{
}

/// Whether a medial that closes this syllable commits another character than
/// the one that showed it: a final is held, and the syllable showed it or
/// shows what is left once the final is gone.
pub open spec fn commit_differs_after_medial(s: Syllable) -> bool {
    s.jong matches Some(held) && (s.cho is Some || held.spec_to_cho() is Direct)
}

/// What is committed is what was shown: where a keystroke closes a syllable,
/// the committed character is the one that showed the syllable before the
/// keystroke. The one exception is a medial that takes a consonant of the
/// held final along and so changes what the syllable shows.
pub proof fn lemma_commit_shows_the_syllable_before(s: Syllable, jamo: Jamo)
    requires
        s.signal(jamo) is CommitPreedit,
        !(jamo is Jungseong && commit_differs_after_medial(s)),
    ensures
        s.signal(jamo) matches InputResult::CommitPreedit(committed, _) && committed
            == s.project(),
{
}

/// A medial that closes a syllable with a final held commits the syllable
/// without the consonant that it takes along, and begins the next syllable
/// with that consonant as its initial. The committed character is the one
/// that showed the syllable before, unless `commit_differs_after_medial`.
pub proof fn lemma_medial_takes_a_consonant_along(s: Syllable, jung: Jungseong)
    requires
        s.jung_closes(jung),
        s.jong is Some,
    ensures
        s.signal_jung(jung) == InputResult::CommitPreedit(
            s.closed_by_jung().project(),
            s.after_jung(jung).project(),
        ),
        s.after_jung(jung) == (Syllable {
            cho: s.initial_carried_over(),
            jung: Some(jung),
            jong: None,
        }),
        s.initial_carried_over() is Some,
        s.closed_by_jung().project() != s.project() <==> commit_differs_after_medial(s),
{
    let held = s.jung->0;
    lemma_letters(Choseong::Giyeok, held, Jongseong::Giyeok);
    if let Some(cho) = s.cho {
        lemma_block_of_its_parts(cho, held, s.jong);
    }
}

/// A medial that closes a syllable whose final is a cluster splits the
/// cluster: the first consonant stays as the final of the committed syllable,
/// itself no cluster, and the second is the initial of the next syllable.
pub proof fn lemma_medial_splits_a_cluster(
    s: Syllable,
    jung: Jungseong,
    left: Jongseong,
    cho: Choseong,
)
    requires
        s.jung_closes(jung),
        s.jong matches Some(held) && held.spec_to_cho() == JongToCho::Compose(left, cho),
    ensures
        s.signal_jung(jung) == InputResult::CommitPreedit(
            (Syllable { cho: s.cho, jung: s.jung, jong: Some(left) }).project(),
            (Syllable { cho: Some(cho), jung: Some(jung), jong: None }).project(),
        ),
        s.after_jung(jung) == (Syllable { cho: Some(cho), jung: Some(jung), jong: None }),
        left.spec_to_cho() is Direct,
        Some(left) != s.jong,
{
}

/// A jamo that closes a syllable is not lost: it stands in its slot of the
/// syllable that is begun.
pub proof fn lemma_closing_jamo_is_kept(s: Syllable, jamo: Jamo)
    requires
        s.closes(jamo),
    ensures
        s.signal(jamo) is CommitPreedit,
        match jamo {
            Jamo::Choseong(cho) => s.after(jamo).cho == Some(cho),
            Jamo::Jungseong(jung) => s.after(jamo).jung == Some(jung),
            Jamo::Jongseong(jong) => s.after(jamo).jong == Some(jong),
            Jamo::ChoJong(cho, jong) => if s.takes_as_initial() {
                s.after(jamo).cho == Some(cho)
            } else {
                s.after(jamo).jong == Some(jong)
            },
        },
{
}

/// Whether `first` and `second` are meant for the same slot and do not fuse
/// when typed in this order.
pub open spec fn never_fuse(first: Jamo, second: Jamo) -> bool {
    match (first, second) {
        (Jamo::Choseong(a), Jamo::Choseong(b)) => a.spec_try_add(b) is None,
        (Jamo::Jungseong(a), Jamo::Jungseong(b)) => a.spec_try_add(b) is None,
        (Jamo::Jongseong(a), Jamo::Jongseong(b)) => a.spec_try_add(b) is None,
        _ => false,
    }
}

/// Two jamo for one slot that do not fuse, fed one after the other to any
/// syllable: the second closes the syllable that the first left, so its
/// signal commits, and the second stands in its slot of the next syllable.
pub proof fn lemma_jamo_that_never_fuse(s: Syllable, first: Jamo, second: Jamo)
    requires
        never_fuse(first, second),
    ensures
        s.after(first).closes(second),
        s.after(first).signal(second) is CommitPreedit,
        match second {
            Jamo::Choseong(cho) => s.after(first).after(second).cho == Some(cho),
            Jamo::Jungseong(jung) => s.after(first).after(second).jung == Some(jung),
            Jamo::Jongseong(jong) => s.after(first).after(second).jong == Some(jong),
            Jamo::ChoJong(_, _) => false,
        },
{
    match (first, s.cho, s.jung, s.jong) {
        (Jamo::Choseong(cho), Some(held), _, _) => if held.spec_try_add(cho) is Some {
            lemma_fused_initial_is_final_form(held, cho, second->Choseong_0);
        },
        (Jamo::Jungseong(jung), _, Some(held), _) => if held.spec_try_add(jung) is Some {
            lemma_fused_medial_is_final_form(held, jung, second->Jungseong_0);
        },
        (Jamo::Jongseong(jong), _, _, Some(held)) => if held.spec_try_add(jong) is Some {
            lemma_fused_final_is_final_form(held, jong, second->Jongseong_0);
        },
        _ => {},
    }
}

} // verus!
