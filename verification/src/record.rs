//! The preferences record.

use vstd::prelude::*;

verus! {

/// The user's preferences. The three fields are stored and loaded together.
#[derive(Debug, Clone, PartialEq, Eq)]
pub struct Preferences {
    /// Name of the selected model.
    pub model: String,
    /// The saved prompt.
    pub prompt: String,
    /// The credential for the model's service.
    pub api_key: String,
}

/// What a [`Preferences`] value holds, as plain text.
pub ghost struct PreferencesView {
    pub model: Seq<char>,
    pub prompt: Seq<char>,
    pub api_key: Seq<char>,
}

impl View for Preferences {
    type V = PreferencesView;

    open spec fn view(&self) -> PreferencesView {
        PreferencesView { model: self.model@, prompt: self.prompt@, api_key: self.api_key@ }
    }
}

impl Preferences {
    /// A record of the three given texts.
    pub fn new(model: String, prompt: String, api_key: String) -> (r: Preferences)
        ensures
            r@ == (PreferencesView { model: model@, prompt: prompt@, api_key: api_key@ }),
    {
        Preferences { model, prompt, api_key }
    }
}

} // verus!
