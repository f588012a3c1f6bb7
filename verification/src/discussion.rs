//! Dialogue turns and ordered dialogues, with their rendering as text.

use vstd::prelude::*;

verus! {

/// Mathematical model of one turn: its role and the two texts it carries.
pub enum TurnView {
    Prompt { author: Seq<char>, prompt: Seq<char> },
    Response { author: Seq<char>, prompt: Seq<char> },
}

/// One utterance of a dialogue, tagged by the side that spoke it.
#[derive(Debug, PartialEq, Eq)]
pub enum DiscussionKind {
    Prompt { author: String, prompt: String },
    Response { author: String, prompt: String },
}

impl View for DiscussionKind {
    type V = TurnView;

    open spec fn view(&self) -> TurnView {
        match self {
            DiscussionKind::Prompt { author, prompt } => TurnView::Prompt {
                author: author@,
                prompt: prompt@,
            },
            DiscussionKind::Response { author, prompt } => TurnView::Response {
                author: author@,
                prompt: prompt@,
            },
        }
    }
}

/// The text of one turn: `author: text` and a newline; a response is
/// followed by a blank line and a `---` line that closes the exchange.
pub open spec fn render_turn(t: TurnView) -> Seq<char> {
    match t {
        TurnView::Prompt { author, prompt } => author + ": "@ + prompt + "\n"@,
        TurnView::Response { author, prompt } => author + ": "@ + prompt + "\n\n---\n"@,
    }
}

/// The text of a dialogue: the texts of its turns, in order, with nothing
/// between them.
pub open spec fn render_turns(turns: Seq<TurnView>) -> Seq<char>
    decreases turns.len(),
{
    if turns.len() == 0 {
        Seq::empty()
    } else {
        render_turns(turns.drop_last()) + render_turn(turns.last())
    }
}

/// The dialogue after the turns of `more` were pushed onto it, one after
/// the other.
pub open spec fn pushed(turns: Seq<TurnView>, more: Seq<TurnView>) -> Seq<TurnView>
    decreases more.len(),
{
    if more.len() == 0 {
        turns
    } else {
        pushed(turns, more.drop_last()).push(more.last())
    }
}

/// Rendering distributes over appending one turn.
pub proof fn lemma_render_push(turns: Seq<TurnView>, t: TurnView)
    ensures
        render_turns(turns.push(t)) == render_turns(turns) + render_turn(t),
{
    assert(turns.push(t).drop_last() =~= turns);
}

/// Rendering distributes over concatenation of dialogues.
pub proof fn lemma_render_concat(a: Seq<TurnView>, b: Seq<TurnView>)
    ensures
        render_turns(a + b) == render_turns(a) + render_turns(b),
    decreases b.len(),
{
    if b.len() == 0 {
        assert(a + b =~= a);
        assert(render_turns(a) + render_turns(b) =~= render_turns(a));
    } else {
        lemma_render_concat(a, b.drop_last());
        assert((a + b).drop_last() =~= a + b.drop_last());
        assert((a + b).last() == b.last());
        assert(render_turns(a) + (render_turns(b.drop_last()) + render_turn(b.last()))
            =~= (render_turns(a) + render_turns(b.drop_last())) + render_turn(b.last()));
    }
}

impl DiscussionKind {
    /// The turn as text.
    pub fn render(&self) -> (out: String)
        ensures
            out@ == render_turn(self@),
    {
        match self {
            DiscussionKind::Prompt { author, prompt } => {
                let mut out = author.clone();
                out.append(": ");
                out.append(prompt.as_str());
                out.append("\n");
                out
            },
            DiscussionKind::Response { author, prompt } => {
                let mut out = author.clone();
                out.append(": ");
                out.append(prompt.as_str());
                out.append("\n\n---\n");
                out
            },
        }
    }
}

impl Clone for DiscussionKind {
    /// A deep copy: same role, same texts.
    fn clone(&self) -> (out: Self)
        ensures
            out@ == self@,
    {
        match self {
            DiscussionKind::Prompt { author, prompt } => DiscussionKind::Prompt {
                author: author.clone(),
                prompt: prompt.clone(),
            },
            DiscussionKind::Response { author, prompt } => DiscussionKind::Response {
                author: author.clone(),
                prompt: prompt.clone(),
            },
        }
    }
}

/// An ordered dialogue. Turns stay in the order in which they were pushed;
/// none is merged, dropped or moved by this type.
#[derive(Debug, PartialEq, Eq)]
pub struct Discussion(pub Vec<DiscussionKind>);

impl View for Discussion {
    type V = Seq<TurnView>;

    open spec fn view(&self) -> Seq<TurnView> {
        self.0@.map_values(|t: DiscussionKind| t@)
    }
}

impl Discussion {
    /// The number of turns.
    pub fn len(&self) -> (n: usize)
        ensures
            n == self@.len(),
    {
        self.0.len()
    }

    /// Removes every turn.
    pub fn clear(&mut self)
        ensures
            final(self)@ == Seq::<TurnView>::empty(),
    {
        self.0.clear()
    }

    /// Appends one turn at the end.
    pub fn push(&mut self, prompt: DiscussionKind)
        ensures
            final(self)@ == old(self)@.push(prompt@),
    {
        self.0.push(prompt);
        assert(self@ =~= old(self)@.push(prompt@));
    }

    /// Replaces the dialogue by an empty one.
    pub fn init(&mut self)
        ensures
            final(self)@ == Seq::<TurnView>::empty(),
    {
        self.0 = Vec::new();
    }

    /// Whether the dialogue has no turn.
    pub fn is_empty(&self) -> (b: bool)
        ensures
            b == (self@.len() == 0),
    {
        self.0.is_empty()
    }

    /// The dialogue as text: its turns rendered in order.
    pub fn render(&self) -> (out: String)
        ensures
            out@ == render_turns(self@),
    {
        let mut out = String::new();
        let mut i: usize = 0;
        while i < self.0.len()
            invariant
                i <= self.0.len(),
                out@ == render_turns(self@.take(i as int)),
            decreases self.0.len() - i,
        {
            let piece = self.0[i].render();
            out.append(piece.as_str());
            proof {
                assert(self@.take(i + 1) =~= self@.take(i as int).push(self@[i as int]));
                lemma_render_push(self@.take(i as int), self@[i as int]);
            }
            i += 1;
        }
        proof {
            assert(self@.take(i as int) =~= self@);
        }
        out
    }
}

impl Clone for Discussion {
    /// A deep copy: the same turns in the same order.
    fn clone(&self) -> (out: Self)
        ensures
            out@ == self@,
    {
        let mut turns: Vec<DiscussionKind> = Vec::new();
        let mut i: usize = 0;
        while i < self.0.len()
            invariant
                i <= self.0.len(),
                turns@.len() == i,
                forall|k: int| 0 <= k < i ==> (#[trigger] turns@[k])@ == self.0@[k]@,
            decreases self.0.len() - i,
        {
            turns.push(self.0[i].clone());
            i += 1;
        }
        let out = Discussion(turns);
        assert(out@ =~= self@);
        out
    }
}

} // verus!
