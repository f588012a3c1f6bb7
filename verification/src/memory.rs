//! What the bot remembers: its persona, the dialogue it starts out with and
//! the rolling history of the running session.

use vstd::prelude::*;
use crate::discussion::{render_turn, render_turns, Discussion, DiscussionKind, TurnView};

verus! {

/// The largest number of turns of live history that survive a response.
pub const RETENTION: usize = 12;

/// Mathematical model of the memory.
pub struct MemoryView {
    pub context: Seq<char>,
    pub thursdayism: Seq<TurnView>,
    pub recollections: Seq<TurnView>,
}

/// The retention rule: of more than twelve turns the most recent twelve
/// stay, in their order; a shorter history stays as it is.
pub open spec fn retained(turns: Seq<TurnView>) -> Seq<TurnView> {
    if turns.len() > RETENTION {
        turns.subrange(turns.len() - RETENTION, turns.len() as int)
    } else {
        turns
    }
}

/// The memory after one more turn was recorded in the live history: an
/// utterance is appended; an answer is appended and the retention rule
/// applied.
pub open spec fn record(m: MemoryView, t: TurnView) -> MemoryView {
    MemoryView {
        context: m.context,
        thursdayism: m.thursdayism,
        recollections: match t {
            TurnView::Prompt { .. } => m.recollections.push(t),
            TurnView::Response { .. } => retained(m.recollections.push(t)),
        },
    }
}

/// The memory after a run of turns was recorded, one after the other.
pub open spec fn record_all(m: MemoryView, turns: Seq<TurnView>) -> MemoryView
    decreases turns.len(),
{
    if turns.len() == 0 {
        m
    } else {
        record(record_all(m, turns.drop_last()), turns.last())
    }
}

/// The memory as text: the persona, a separator, the starting dialogue and
/// the live history.
pub open spec fn memory_text(m: MemoryView) -> Seq<char> {
    m.context + "\n\n---\n\n"@ + render_turns(m.thursdayism) + render_turns(m.recollections)
}

/// The prompt handed to a completion backend: the memory, the new
/// utterance, and the bot's name with a colon as the cue to continue from.
pub open spec fn prompt_text(
    m: MemoryView,
    author: Seq<char>,
    prompt: Seq<char>,
    botname: Seq<char>,
) -> Seq<char> {
    memory_text(m) + render_turn(TurnView::Prompt { author, prompt }) + botname + ":"@
}

/// Persona, starting dialogue and live history of one conversation.
#[derive(Debug)]
pub struct AIMemory {
    /// Always on top of the prompt, such as "This is the discussion between x and y."
    pub(crate) context: String,
    /// The dialogue the bot is born with. Never trimmed.
    pub(crate) thursdayism: Discussion,
    /// The live history of the session. Trimmed after each response.
    pub(crate) recollections: Discussion,
}

impl View for AIMemory {
    type V = MemoryView;

    closed spec fn view(&self) -> MemoryView {
        MemoryView {
            context: self.context@,
            thursdayism: self.thursdayism@,
            recollections: self.recollections@,
        }
    }
}

impl AIMemory {
    /// A memory with the given persona and starting dialogue and no live
    /// history.
    pub fn new(context: String, thursdayism: Discussion) -> (m: AIMemory)
        ensures
            m@ == (MemoryView {
                context: context@,
                thursdayism: thursdayism@,
                recollections: Seq::empty(),
            }),
    {
        let recollections = Discussion(Vec::new());
        assert(recollections@ =~= Seq::<TurnView>::empty());
        AIMemory { context, thursdayism, recollections }
    }

    /// The persona text.
    pub fn context(&self) -> (c: &String)
        ensures
            c@ == self@.context,
    {
        &self.context
    }

    /// The starting dialogue.
    pub fn thursdayism(&self) -> (d: &Discussion)
        ensures
            d@ == self@.thursdayism,
    {
        &self.thursdayism
    }

    /// The live history.
    pub fn recollections(&self) -> (d: &Discussion)
        ensures
            d@ == self@.recollections,
    {
        &self.recollections
    }

    /// Replaces the persona. Both dialogues stay.
    pub fn set_context(&mut self, context: String)
        ensures
            final(self)@ == (MemoryView {
                context: context@,
                thursdayism: old(self)@.thursdayism,
                recollections: old(self)@.recollections,
            }),
    {
        self.context = context;
    }

    /// Replaces the starting dialogue. Persona and live history stay.
    pub fn set_thursdayism(&mut self, thursdayism: Discussion)
        ensures
            final(self)@ == (MemoryView {
                context: old(self)@.context,
                thursdayism: thursdayism@,
                recollections: old(self)@.recollections,
            }),
    {
        self.thursdayism = thursdayism;
    }

    /// The memory as text.
    pub fn render(&self) -> (out: String)
        ensures
            out@ == memory_text(self@),
    {
        let mut out = self.context.clone();
        out.append("\n\n---\n\n");
        let seed = self.thursdayism.render();
        out.append(seed.as_str());
        let live = self.recollections.render();
        out.append(live.as_str());
        out
    }

    /// The prompt for a new utterance `prompt` of `author`, ending in the
    /// cue `botname:`. The memory is not changed.
    pub fn get_prompt(&self, author: &str, prompt: &str, botname: &str) -> (out: String)
        ensures
            out@ == prompt_text(self@, author@, prompt@, botname@),
    {
        let turn = DiscussionKind::Prompt { author: author.to_owned(), prompt: prompt.to_owned() };
        let mut out = self.render();
        let piece = turn.render();
        out.append(piece.as_str());
        out.append(botname);
        out.append(":");
        out
    }

    /// Records an utterance of the human side in the live history.
    pub fn set_prompt(&mut self, author: &str, prompt: &str)
        ensures
            final(self)@ == record(
                old(self)@,
                TurnView::Prompt { author: author@, prompt: prompt@ },
            ),
    {
        self.recollections.push(
            DiscussionKind::Prompt { author: author.to_owned(), prompt: prompt.to_owned() },
        );
    }

    /// Records an answer of the bot in the live history, then applies the
    /// retention rule, so that at most twelve turns are left.
    pub fn set_response(&mut self, author: &str, prompt: &str)
        ensures
            final(self)@ == record(
                old(self)@,
                TurnView::Response { author: author@, prompt: prompt@ },
            ),
            final(self)@.recollections.len() <= RETENTION,
    {
        self.recollections.push(
            DiscussionKind::Response { author: author.to_owned(), prompt: prompt.to_owned() },
        );
        self.clean();
    }

    /// Empties the live history. Persona and starting dialogue stay.
    pub fn clear(&mut self)
        ensures
            final(self)@ == (MemoryView {
                context: old(self)@.context,
                thursdayism: old(self)@.thursdayism,
                recollections: Seq::empty(),
            }),
    {
        self.recollections.clear();
    }

    /// Applies the retention rule to the live history: of more than twelve
    /// turns the oldest are dropped until twelve are left.
    pub fn clean(&mut self)
        ensures
            final(self)@ == (MemoryView {
                context: old(self)@.context,
                thursdayism: old(self)@.thursdayism,
                recollections: retained(old(self)@.recollections),
            }),
            final(self)@.recollections.len() <= RETENTION,
    {
        let n = self.recollections.len();
        if n > RETENTION {
            let kept = self.recollections.0.split_off(n - RETENTION);
            self.recollections.0 = kept;
            assert(self.recollections@ =~= retained(old(self).recollections@));
        }
    }

    /// Empties the starting dialogue and the live history. The persona
    /// stays.
    pub fn clear_interactions(&mut self)
        ensures
            final(self)@ == (MemoryView {
                context: old(self)@.context,
                thursdayism: Seq::empty(),
                recollections: Seq::empty(),
            }),
    {
        self.thursdayism.clear();
        self.recollections.clear();
    }

    /// Adds one exchange to the starting dialogue: the utterance of
    /// `author`, then the answer of `botname`. The live history stays.
    pub fn add_interaction(&mut self, author: &str, prompt: &str, botname: &str, response: &str)
        ensures
            final(self)@ == (MemoryView {
                context: old(self)@.context,
                thursdayism: old(self)@.thursdayism.push(
                    TurnView::Prompt { author: author@, prompt: prompt@ },
                ).push(TurnView::Response { author: botname@, prompt: response@ }),
                recollections: old(self)@.recollections,
            }),
    {
        self.thursdayism.push(
            DiscussionKind::Prompt { author: author.to_owned(), prompt: prompt.to_owned() },
        );
        self.thursdayism.push(
            DiscussionKind::Response { author: botname.to_owned(), prompt: response.to_owned() },
        );
    }
}

impl Clone for AIMemory {
    /// A deep copy.
    fn clone(&self) -> (out: Self)
        ensures
            out@ == self@,
    {
        AIMemory {
            context: self.context.clone(),
            thursdayism: self.thursdayism.clone(),
            recollections: self.recollections.clone(),
        }
    }
}

} // verus!
