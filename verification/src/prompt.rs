//! The prompt source: where the next line of input comes from.
//!
//! The session loop is driven identically by an interactive prompt (kept
//! outside the library, with the rest of the terminal plumbing) and by
//! the scripted replay defined here, which drains a fixed list of
//! pre-supplied lines. The scripted source is also the seam used for
//! deterministic testing.

use vstd::prelude::*;

use crate::instructions::instr_text;
use crate::state::State;
use crate::strutil::join_spec;

verus! {

/// Why the prompt source returned no line.
#[derive(Debug, Clone, Copy, PartialEq, Eq)]
pub enum PromptError {
    /// The user interrupted the session.
    Interrupted,
    /// The input is exhausted.
    EndOfInput,
    /// Anything else the prompt could not recover from.
    Other,
}

/// A source of input lines. Implemented by the scripted replay below and
/// by the interactive line editor outside the library.
pub trait ReadPrompt {
    fn read_line(&mut self, prompt: &str) -> Result<String, PromptError>;

    fn add_history_entry(&mut self, val: &str);
}

/// The scripted prompt: hands out its pre-supplied lines in order, then
/// reports the end of input.
pub struct FilePrompt {
    pub lines: Vec<String>,
}

impl FilePrompt {
    /// The next scripted line, or `EndOfInput` once drained.
    pub fn next_line(&mut self) -> (r: Result<String, PromptError>)
        ensures
            (match r {
                Ok(l) => {
                    &&& old(self).lines@.len() > 0
                    &&& l == old(self).lines@[0]
                    &&& final(self).lines@ == old(self).lines@.drop_first()
                },
                Err(e) => {
                    &&& old(self).lines@.len() == 0
                    &&& e == PromptError::EndOfInput
                    &&& final(self).lines@ == old(self).lines@
                },
            }),
    {
        if self.lines.len() == 0 {
            return Err(PromptError::EndOfInput);
        }
        let l = self.lines.remove(0);
        proof {
            assert(old(self).lines@.remove(0) =~= old(self).lines@.drop_first());
        }
        Ok(l)
    }

    /// The scripted prompt that replays the instructions of a starting
    /// state: every instruction after the `FROM` line, serialized.
    pub fn from_state(state: &State) -> (r: FilePrompt)
        requires
            state@.wf(),
        ensures
            r.lines@.len() == state@.lines.len() - 1,
            forall|i: int|
                0 <= i < r.lines@.len() ==> (#[trigger] r.lines@[i])@ == instr_text(
                    state@.lines[i + 1],
                ),
    {
        let mut lines: Vec<String> = Vec::new();
        let mut i: usize = 1;
        let sp = " ";
        proof {
            reveal_strlit(" ");
            assert(sp@ =~= seq![' ']);
        }
        while i < state.lines.len()
            invariant
                sp@ == seq![' '],
                state@.lines.len() == state.lines.len(),
                1 <= i <= state.lines.len(),
                lines@.len() == i - 1,
                forall|j: int|
                    0 <= j < lines@.len() ==> (#[trigger] lines@[j])@ == instr_text(
                        state@.lines[j + 1],
                    ),
            decreases state.lines.len() - i,
        {
            let text = crate::strutil::join_with(&state.lines[i], sp);
            proof {
                assert(state.lines[i as int].deep_view() == state@.lines[i as int]);
                assert(text@ == join_spec(state@.lines[i as int], seq![' ']));
            }
            lines.push(text);
            i += 1;
        }
        FilePrompt { lines }
    }
}

impl ReadPrompt for FilePrompt {
    /// The scripted source ignores the prompt and drains its lines in
    /// order: the same contract as `next_line`.
    fn read_line(&mut self, _prompt: &str) -> (r: Result<String, PromptError>)
        ensures
            (match r {
                Ok(l) => {
                    &&& old(self).lines@.len() > 0
                    &&& l == old(self).lines@[0]
                    &&& final(self).lines@ == old(self).lines@.drop_first()
                },
                Err(e) => {
                    &&& old(self).lines@.len() == 0
                    &&& e == PromptError::EndOfInput
                    &&& final(self).lines@ == old(self).lines@
                },
            }),
    {
        self.next_line()
    }

    fn add_history_entry(&mut self, _val: &str) {
    }
}

} // verus!
