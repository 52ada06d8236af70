//! The scenes of the game and the language-dependent choice of typeface.

use vstd::prelude::*;

verus! {

/// A scene of the game. Exactly one is active at a time.
#[derive(Clone, Copy, Debug, PartialEq, Eq, Hash, Structural)]
pub enum SceneState {
    LoadingScene,
    MainMenuScene,
    InGameClassicModeScene,
}

/// A language the interface can be shown in.
#[derive(Clone, Copy, Debug, PartialEq, Eq, Hash, Structural)]
pub enum Language {
    VI,
    EN,
}

/// A typeface shipped with the game.
#[derive(Clone, Copy, Debug, PartialEq, Eq, Hash, Structural)]
pub enum Font {
    Roboto,
    Fibberish,
}

impl Language {
    /// The typeface in which text of this language is set.
    pub open spec fn spec_font(self) -> Font {
        match self {
            Language::VI => Font::Roboto,
            Language::EN => Font::Fibberish,
        }
    }

    /// The typeface in which text of this language is set: Vietnamese needs the
    /// diacritics of Roboto, English uses the display face.
    #[verifier::when_used_as_spec(spec_font)]
    pub fn font(self) -> (font: Font)
        ensures
            font == self.spec_font(),
    {
        match self {
            Language::VI => Font::Roboto,
            Language::EN => Font::Fibberish,
        }
    }
}

} // verus!
