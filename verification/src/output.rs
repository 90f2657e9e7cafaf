//! Keystroke synthesis plans.
//!
//! Typing a transcription is a timed sequence of key-down/key-up pairs.
//! The verified part computes that sequence — one pair per character,
//! with a configurable pause before each word and between key events —
//! and the unverified shell plays it back against the operating system's
//! input-injection interface.

use vstd::prelude::*;

verus! {

/// One step of a keystroke plan.
#[derive(Clone, Copy, Debug, PartialEq, Eq, Structural)]
pub enum KeyStep {
    /// Pause for the given number of milliseconds.
    Sleep(u64),
    /// Press the key carrying the character.
    KeyDown(char),
    /// Release the key carrying the character.
    KeyUp(char),
}

/// Produces keystroke plans under fixed pacing parameters.
#[derive(Clone, Copy, Debug)]
pub struct OutputHandler {
    /// Pause before the first character of each word, in milliseconds.
    pub word_delay: u64,
    /// Pause between consecutive character key events, in milliseconds.
    pub key_event_delay: u64,
}

/// Whether position `i` starts a word: a non-space character at the
/// beginning of the text or right after a space.
pub open spec fn is_word_start(s: Seq<char>, i: int) -> bool {
    s[i] != ' ' && (i == 0 || s[i - 1] == ' ')
}

/// The steps emitted for the character at position `i`: the inter-event
/// pause (for every character but the first), the word pause (at word
/// starts), then the key-down/key-up pair.
pub open spec fn steps_at(s: Seq<char>, i: int, word_delay: u64, key_event_delay: u64) -> Seq<
    KeyStep,
> {
    steps_of(i > 0, is_word_start(s, i), s[i], word_delay, key_event_delay)
}

/// The steps for one character, phrased over the two conditions that
/// decide its pauses.
pub open spec fn steps_of(
    paced: bool,
    word_start: bool,
    c: char,
    word_delay: u64,
    key_event_delay: u64,
) -> Seq<KeyStep> {
    let pauses = if paced && word_start {
        Seq::empty().push(KeyStep::Sleep(key_event_delay)).push(KeyStep::Sleep(word_delay))
    } else if paced {
        Seq::empty().push(KeyStep::Sleep(key_event_delay))
    } else if word_start {
        Seq::empty().push(KeyStep::Sleep(word_delay))
    } else {
        Seq::empty()
    };
    pauses.push(KeyStep::KeyDown(c)).push(KeyStep::KeyUp(c))
}

/// Emit the steps for one character onto the end of a plan.
fn push_steps(r: &mut Vec<KeyStep>, paced: bool, word_start: bool, c: char, word_delay: u64,
    key_event_delay: u64)
    ensures
        final(r)@ == old(r)@ + steps_of(paced, word_start, c, word_delay, key_event_delay),
{
    let ghost base = r@;
    if paced {
        r.push(KeyStep::Sleep(key_event_delay));
    }
    if word_start {
        r.push(KeyStep::Sleep(word_delay));
    }
    r.push(KeyStep::KeyDown(c));
    r.push(KeyStep::KeyUp(c));
    proof {
        assert(r@ =~= base + steps_of(paced, word_start, c, word_delay, key_event_delay));
    }
}

/// The plan for the first `n` characters of `s`.
pub open spec fn plan_upto(s: Seq<char>, n: int, word_delay: u64, key_event_delay: u64) -> Seq<
    KeyStep,
>
    decreases n,
{
    if n <= 0 {
        Seq::empty()
    } else {
        plan_upto(s, n - 1, word_delay, key_event_delay) + steps_at(
            s,
            n - 1,
            word_delay,
            key_event_delay,
        )
    }
}

/// The complete keystroke plan for `s`: one key-down/key-up pair per
/// character (spaces included), a `word_delay` pause before each word,
/// and a `key_event_delay` pause between consecutive characters.  Empty
/// text yields the empty plan.
pub open spec fn key_plan(s: Seq<char>, word_delay: u64, key_event_delay: u64) -> Seq<KeyStep> {
    plan_upto(s, s.len() as int, word_delay, key_event_delay)
}

impl OutputHandler {
    /// A synthesizer with the given pacing, in milliseconds.
    pub fn new(word_delay: u64, key_event_delay: u64) -> (r: OutputHandler)
        ensures
            r.word_delay == word_delay,
            r.key_event_delay == key_event_delay,
    {
        OutputHandler { word_delay, key_event_delay }
    }

    /// The timed keystroke sequence that types `text`.
    ///
    /// The plan is returned rather than played: injecting events and
    /// sleeping belong to the unverified shell, which must run them off
    /// the event-processing thread so a long utterance does not stall
    /// hotkey polling.
    pub fn type_text(&self, text: &str) -> (r: Vec<KeyStep>)
        ensures
            r@ == key_plan(text@, self.word_delay, self.key_event_delay),
    {
        let chars = crate::text::str_chars(text);
        let mut r: Vec<KeyStep> = Vec::new();
        let mut i: usize = 0;
        while i < chars.len()
            invariant
                chars@ == text@,
                0 <= i <= chars@.len(),
                r@ == plan_upto(text@, i as int, self.word_delay, self.key_event_delay),
            decreases chars@.len() - i,
        {
            let c = chars[i];
            let starts_word = c != ' ' && (i == 0 || chars[i - 1] == ' ');
            proof {
                assert(starts_word == is_word_start(text@, i as int));
            }
            push_steps(&mut r, i > 0, starts_word, c, self.word_delay, self.key_event_delay);
            proof {
                let s = text@;
                let w = self.word_delay;
                let k = self.key_event_delay;
                assert(steps_of(i > 0, starts_word, c, w, k) == steps_at(s, i as int, w, k));
                assert(plan_upto(s, i + 1, w, k) == plan_upto(s, i as int, w, k) + steps_at(
                    s,
                    i as int,
                    w,
                    k,
                ));
            }
            i = i + 1;
        }
        r
    }
}

} // verus!
