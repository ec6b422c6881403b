//! Composition core of a Hangul input method: jamo arrive one at a time and
//! are assembled into syllable blocks.

pub mod characters;
pub mod config;
pub mod state;

pub use characters::{Choseong, JongToCho, Jongseong, Jungseong};
pub use config::{ComposeConfig, RawConfig};
pub use state::{CharacterState, InputResult, Jamo, Syllable};
