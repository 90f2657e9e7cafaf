//! Pipeline configuration.
//!
//! Read once at construction: the hotkey binding, the transcription
//! credential, the interface language, and the two pacing delays for
//! synthetic keystrokes.  Loading and saving the configuration file is
//! the unverified shell's job; it hands the parsed values in and
//! persists them back out.

use vstd::prelude::*;
use vstd::string::StringExecFns;

verus! {

/// The values the pipeline is constructed from.
#[derive(Debug, Clone)]
pub struct Config {
    /// The key binding that starts and stops recording.
    pub hotkey: String,
    /// Interface language selected in the shell.
    pub language: String,
    /// Credential for the transcription backend.
    pub openai_api_key: String,
    /// Pause before each word when typing, in milliseconds.
    pub word_delay: u64,
    /// Pause between keystroke events when typing, in milliseconds.
    pub key_event_delay: u64,
}

/// The configuration used when none is stored yet.
pub open spec fn is_default_config(c: Config) -> bool {
    &&& c.hotkey@ == "F7"@
    &&& c.language@ == "en"@
    &&& c.openai_api_key@ == Seq::<char>::empty()
    &&& c.word_delay == 10
    &&& c.key_event_delay == 10
}

impl Default for Config {
    /// The configuration used when none is stored yet.
    fn default() -> (r: Config)
        ensures
            is_default_config(r),
    {
        Config {
            hotkey: "F7".to_owned(),
            language: "en".to_owned(),
            openai_api_key: String::new(),
            word_delay: 10,
            key_event_delay: 10,
        }
    }
}

impl Config {
    /// The configuration to run with: what the store held, or the
    /// default when the store held none.
    pub fn load_or_default(loaded: Option<Config>) -> (r: Config)
        ensures
            loaded matches Some(c) ==> r == c,
            loaded is None ==> is_default_config(r),
    {
        match loaded {
            Some(c) => c,
            None => Config::default(),
        }
    }
}

} // verus!
