//! The configuration editor's state.
//!
//! The options panel edits the configuration as text: one field per
//! setting, committed back into the [`Config`] when the user saves.  The
//! widget layout and the persisted file belong to the unverified shell;
//! this state machine owns the edited text, the parse-or-keep rule for
//! the numeric fields, and the commit itself.

use vstd::prelude::*;
use vstd::string::StringExecFns;
use crate::config::Config;
use crate::decimal::all_digits;
use crate::decimal::dec_digits;
use crate::decimal::dec_val;
use crate::decimal::parse_u64;
use crate::decimal::u64_to_string;

verus! {

/// One edit in the options panel.
#[derive(Debug, Clone)]
pub enum ConfigMessage {
    /// The hotkey field changed to this text.
    HotkeyChanged(String),
    /// The credential field changed to this text.
    OpenAIApiKeyChanged(String),
    /// The word-delay field changed to this text.
    WordDelayChanged(String),
    /// The key-event-delay field changed to this text.
    KeyEventDelayChanged(String),
    /// The user asked to commit and persist the edited values.
    SaveConfig,
}

/// The editor: the configuration being edited, and the current text of
/// each field.
#[derive(Debug)]
pub struct ConfigGui {
    /// The configuration that edits are committed into.
    pub config: Config,
    /// Text of the hotkey field.
    pub hotkey: String,
    /// Text of the credential field.
    pub openai_api_key: String,
    /// Text of the word-delay field.
    pub word_delay: String,
    /// Text of the key-event-delay field.
    pub key_event_delay: String,
}

/// The number a delay field commits to: its decimal value when the text
/// is a number that fits, otherwise the value kept from before.
pub open spec fn parsed_or(s: Seq<char>, fallback: u64) -> u64 {
    if s.len() > 0 && all_digits(s) && dec_val(s) <= u64::MAX {
        dec_val(s) as u64
    } else {
        fallback
    }
}

impl ConfigGui {
    /// An editor over `config`, each field showing the current value.
    pub fn new(config: Config) -> (r: ConfigGui)
        ensures
            r.config == config,
            r.hotkey@ == config.hotkey@,
            r.openai_api_key@ == config.openai_api_key@,
            r.word_delay@ == dec_digits(config.word_delay as nat),
            r.key_event_delay@ == dec_digits(config.key_event_delay as nat),
    {
        ConfigGui {
            hotkey: config.hotkey.clone(),
            openai_api_key: config.openai_api_key.clone(),
            word_delay: u64_to_string(config.word_delay),
            key_event_delay: u64_to_string(config.key_event_delay),
            config,
        }
    }

    /// Apply one edit.  A field message replaces that field's text and
    /// nothing else.  `SaveConfig` commits the texts into the
    /// configuration — the delay fields by the parse-or-keep rule, the
    /// language untouched — and returns `true`: the caller must then
    /// persist the configuration.
    pub fn update(&mut self, message: &ConfigMessage) -> (save: bool)
        ensures
            match *message {
                ConfigMessage::HotkeyChanged(ref v) => {
                    &&& !save
                    &&& final(self).hotkey@ == v@
                    &&& final(self).openai_api_key == old(self).openai_api_key
                    &&& final(self).word_delay == old(self).word_delay
                    &&& final(self).key_event_delay == old(self).key_event_delay
                    &&& final(self).config == old(self).config
                },
                ConfigMessage::OpenAIApiKeyChanged(ref v) => {
                    &&& !save
                    &&& final(self).openai_api_key@ == v@
                    &&& final(self).hotkey == old(self).hotkey
                    &&& final(self).word_delay == old(self).word_delay
                    &&& final(self).key_event_delay == old(self).key_event_delay
                    &&& final(self).config == old(self).config
                },
                ConfigMessage::WordDelayChanged(ref v) => {
                    &&& !save
                    &&& final(self).word_delay@ == v@
                    &&& final(self).hotkey == old(self).hotkey
                    &&& final(self).openai_api_key == old(self).openai_api_key
                    &&& final(self).key_event_delay == old(self).key_event_delay
                    &&& final(self).config == old(self).config
                },
                ConfigMessage::KeyEventDelayChanged(ref v) => {
                    &&& !save
                    &&& final(self).key_event_delay@ == v@
                    &&& final(self).hotkey == old(self).hotkey
                    &&& final(self).openai_api_key == old(self).openai_api_key
                    &&& final(self).word_delay == old(self).word_delay
                    &&& final(self).config == old(self).config
                },
                ConfigMessage::SaveConfig => {
                    &&& save
                    &&& final(self).hotkey == old(self).hotkey
                    &&& final(self).openai_api_key == old(self).openai_api_key
                    &&& final(self).word_delay == old(self).word_delay
                    &&& final(self).key_event_delay == old(self).key_event_delay
                    &&& final(self).config.hotkey@ == old(self).hotkey@
                    &&& final(self).config.openai_api_key@ == old(self).openai_api_key@
                    &&& final(self).config.language == old(self).config.language
                    &&& final(self).config.word_delay == parsed_or(
                        old(self).word_delay@,
                        old(self).config.word_delay,
                    )
                    &&& final(self).config.key_event_delay == parsed_or(
                        old(self).key_event_delay@,
                        old(self).config.key_event_delay,
                    )
                },
            },
    {
        match message {
            ConfigMessage::HotkeyChanged(value) => {
                self.hotkey = value.clone();
                false
            },
            ConfigMessage::OpenAIApiKeyChanged(value) => {
                self.openai_api_key = value.clone();
                false
            },
            ConfigMessage::WordDelayChanged(value) => {
                self.word_delay = value.clone();
                false
            },
            ConfigMessage::KeyEventDelayChanged(value) => {
                self.key_event_delay = value.clone();
                false
            },
            ConfigMessage::SaveConfig => {
                self.config.hotkey = self.hotkey.clone();
                self.config.openai_api_key = self.openai_api_key.clone();
                self.config.word_delay = match parse_u64(self.word_delay.as_str()) {
                    Some(v) => v,
                    None => self.config.word_delay,
                };
                self.config.key_event_delay = match parse_u64(self.key_event_delay.as_str()) {
                    Some(v) => v,
                    None => self.config.key_event_delay,
                };
                true
            },
        }
    }
}

} // verus!
