//! The bot: a name, the settings of its completion backend and its memory.

use vstd::prelude::*;
use crate::config::{ConfigView, GodMemoryConfig};
use crate::discussion::{render_turns, Discussion, DiscussionKind, TurnView};
use crate::json::{config_in_parsed, config_json, decode_config, encode_config, json_parse, parse_json, Json};
use crate::memory::{prompt_text, retained, AIMemory, MemoryView};

verus! {

/// The longest completion, in tokens, that the backend is asked for.
pub const MAX_TOKENS: u32 = 250;

/// Why a bot could not be set up.
#[derive(Debug, Clone, Copy, PartialEq, Eq)]
pub enum GodError {
    /// No secret token for the completion backend was supplied.
    MissingCredential,
    /// The text is not a configuration.
    ParseError,
}

/// What the completion backend is called with, besides the prompt. Fixed
/// when the bot is made.
#[derive(Debug, PartialEq, Eq)]
pub struct BrainSettings {
    pub token: String,
    pub stop_sequences: Vec<String>,
    pub max_tokens: u32,
}

impl BrainSettings {
    /// The stop sequences as plain texts, in order.
    pub open spec fn stops(&self) -> Seq<Seq<char>> {
        self.stop_sequences@.map_values(|s: String| s@)
    }
}

/// Mathematical model of a bot, without its backend settings.
pub struct GodView {
    pub botname: Seq<char>,
    pub memory: MemoryView,
}

/// A bot in conversation.
#[derive(Debug)]
pub struct God {
    pub(crate) botname: String,
    pub brain: BrainSettings,
    pub memory: AIMemory,
}

impl View for God {
    type V = GodView;

    closed spec fn view(&self) -> GodView {
        GodView { botname: self.botname@, memory: self.memory@ }
    }
}

/// The memory a new bot starts with: a persona and one exchange.
pub open spec fn initial_memory() -> MemoryView {
    MemoryView {
        context: "God is the god of all beings. Yet, he is the most lovely god and answers in a very complete manner."@,
        thursdayism: seq![
            TurnView::Prompt { author: "Alexis"@, prompt: "Who is god?"@ },
            TurnView::Response {
                author: "Kirby"@,
                prompt: "Well, now that you ask, I can tell you. I, God is the great goddess is the god of everybody!"@,
            },
        ],
        recollections: Seq::empty(),
    }
}

/// The configuration held by a bot: its name, persona and starting
/// dialogue, without the live history.
pub open spec fn config_of(g: GodView) -> ConfigView {
    ConfigView {
        botname: g.botname,
        context: g.memory.context,
        thursdayism: g.memory.thursdayism,
    }
}

/// The bot that a configuration describes, with an empty live history.
pub open spec fn configured(c: ConfigView) -> GodView {
    GodView {
        botname: c.botname,
        memory: MemoryView {
            context: c.context,
            thursdayism: c.thursdayism,
            recollections: Seq::empty(),
        },
    }
}

/// What making a bot from a configuration yields: a bot that holds the
/// configuration and the backend settings, or the reason why none was
/// made. No configuration comes before no token.
pub open spec fn import_outcome(
    config: Option<ConfigView>,
    token: Option<String>,
    r: Result<God, GodError>,
) -> bool {
    match (config, token) {
        (None, _) => r == Err::<God, GodError>(GodError::ParseError),
        (Some(_), None) => r == Err::<God, GodError>(GodError::MissingCredential),
        (Some(c), Some(t)) => {
            &&& r matches Ok(g)
            &&& g@ == configured(c)
            &&& g.settings().token@ == t@
            &&& g.settings().stops() == seq![c.botname + ":"@, "---"@, "\n"@]
            &&& g.settings().max_tokens == MAX_TOKENS
        },
    }
}

/// The live history after one exchange: the utterance, then the answer,
/// then the retention rule.
pub open spec fn after_exchange(
    live: Seq<TurnView>,
    author: Seq<char>,
    prompt: Seq<char>,
    botname: Seq<char>,
    response: Seq<char>,
) -> Seq<TurnView> {
    retained(
        live.push(TurnView::Prompt { author, prompt }).push(
            TurnView::Response { author: botname, prompt: response },
        ),
    )
}

/// The readable summary of a bot: name, persona, starting dialogue, and a
/// sample prompt for the question "Some question" of "Username".
pub open spec fn config_text(g: GodView) -> Seq<char> {
    g.botname + " config.\n===========\nContext:\n--------\n"@ + g.memory.context
        + "\nInitial memory:\n---------------\n"@ + render_turns(g.memory.thursdayism)
        + "\nCurrent memory:\n---------------\n"@ + prompt_text(
        g.memory,
        "Username"@,
        "Some question"@,
        g.botname,
    ) + "\n"@
}

impl God {
    /// The backend settings the bot was made with.
    pub closed spec fn settings(&self) -> BrainSettings {
        self.brain
    }

    /// A bot named `botname` with the initial memory. `token` is the secret
    /// for the completion backend, as far as one was found: without it no
    /// bot is made. The backend is told to stop at the bot's own cue, at a
    /// `---` and at a newline.
    pub fn new(botname: &str, token: Option<String>) -> (r: Result<God, GodError>)
        ensures
            token is None <==> r == Err::<God, GodError>(GodError::MissingCredential),
            token is Some <==> r is Ok,
            r matches Ok(g) ==> {
                &&& g@ == (GodView { botname: botname@, memory: initial_memory() })
                &&& g.settings().token@ == token->0@
                &&& g.settings().stops() == seq![botname@ + ":"@, "---"@, "\n"@]
                &&& g.settings().max_tokens == MAX_TOKENS
            },
    {
        let token_ai21 = match token {
            Some(t) => t,
            None => {
                return Err(GodError::MissingCredential);
            },
        };
        let mut initial_prompt = Discussion(Vec::new());
        assert(initial_prompt@ =~= Seq::<TurnView>::empty());
        initial_prompt.push(
            DiscussionKind::Prompt { author: "Alexis".to_owned(), prompt: "Who is god?".to_owned() },
        );
        initial_prompt.push(
            DiscussionKind::Response {
                author: "Kirby".to_owned(),
                prompt: "Well, now that you ask, I can tell you. I, God is the great goddess is the god of everybody!".to_owned(),
            },
        );
        assert(initial_prompt@ =~= initial_memory().thursdayism);
        let memory = AIMemory::new(
            "God is the god of all beings. Yet, he is the most lovely god and answers in a very complete manner.".to_owned(),
            initial_prompt,
        );
        let mut cue = botname.to_owned();
        cue.append(":");
        let mut stop_sequences: Vec<String> = Vec::new();
        stop_sequences.push(cue);
        stop_sequences.push("---".to_owned());
        stop_sequences.push("\n".to_owned());
        let brain = BrainSettings { token: token_ai21, stop_sequences, max_tokens: MAX_TOKENS };
        assert(brain.stops() =~= seq![botname@ + ":"@, "---"@, "\n"@]);
        Ok(God { botname: botname.to_owned(), brain, memory })
    }

    /// The prompt for a new utterance, with the bot's name as the cue.
    pub fn get_prompt(&self, author: &str, prompt: &str) -> (out: String)
        ensures
            out@ == prompt_text(self@.memory, author@, prompt@, self@.botname),
    {
        self.memory.get_prompt(author, prompt, self.botname.as_str())
    }

    /// Records one exchange in the live history: the utterance of `author`
    /// and the bot's answer to it. Afterwards at most twelve turns are left.
    pub fn set_prompt_response(&mut self, author: &str, prompt: &str, response: &str)
        ensures
            final(self)@ == (GodView {
                botname: old(self)@.botname,
                memory: MemoryView {
                    context: old(self)@.memory.context,
                    thursdayism: old(self)@.memory.thursdayism,
                    recollections: after_exchange(
                        old(self)@.memory.recollections,
                        author@,
                        prompt@,
                        old(self)@.botname,
                        response@,
                    ),
                },
            }),
            final(self)@.memory.recollections.len() <= crate::memory::RETENTION,
            final(self).settings() == old(self).settings(),
    {
        self.memory.set_prompt(author, prompt);
        self.memory.set_response(self.botname.as_str(), response)
    }

    /// Replaces the persona.
    pub fn set_context(&mut self, context: &str)
        ensures
            final(self)@ == (GodView {
                botname: old(self)@.botname,
                memory: MemoryView {
                    context: context@,
                    thursdayism: old(self)@.memory.thursdayism,
                    recollections: old(self)@.memory.recollections,
                },
            }),
            final(self).settings() == old(self).settings(),
    {
        self.memory.set_context(context.to_owned());
    }

    /// Renames the bot. Its memory and its backend settings stay.
    pub fn set_botname(&mut self, name: &str)
        ensures
            final(self)@ == (GodView { botname: name@, memory: old(self)@.memory }),
            final(self).settings() == old(self).settings(),
    {
        self.botname = name.to_owned();
    }

    /// The bot's name, as a copy.
    pub fn get_botname(&self) -> (name: String)
        ensures
            name@ == self@.botname,
    {
        self.botname.clone()
    }

    /// Empties the live history.
    pub fn clear(&mut self)
        ensures
            final(self)@ == (GodView {
                botname: old(self)@.botname,
                memory: MemoryView {
                    context: old(self)@.memory.context,
                    thursdayism: old(self)@.memory.thursdayism,
                    recollections: Seq::empty(),
                },
            }),
            final(self).settings() == old(self).settings(),
    {
        self.memory.clear();
    }

    /// Empties the starting dialogue and the live history.
    pub fn clear_interactions(&mut self)
        ensures
            final(self)@ == (GodView {
                botname: old(self)@.botname,
                memory: MemoryView {
                    context: old(self)@.memory.context,
                    thursdayism: Seq::empty(),
                    recollections: Seq::empty(),
                },
            }),
            final(self).settings() == old(self).settings(),
    {
        self.memory.clear_interactions();
    }

    /// Adds one exchange to the starting dialogue, answered under the bot's
    /// present name.
    pub fn add_interaction(&mut self, author: &str, prompt: &str, response: &str)
        ensures
            final(self)@ == (GodView {
                botname: old(self)@.botname,
                memory: MemoryView {
                    context: old(self)@.memory.context,
                    thursdayism: old(self)@.memory.thursdayism.push(
                        TurnView::Prompt { author: author@, prompt: prompt@ },
                    ).push(TurnView::Response { author: old(self)@.botname, prompt: response@ }),
                    recollections: old(self)@.memory.recollections,
                },
            }),
            final(self).settings() == old(self).settings(),
    {
        self.memory.add_interaction(author, prompt, self.botname.as_str(), response);
    }

    /// A snapshot of name, persona and starting dialogue. It shares nothing
    /// with the bot.
    pub fn export_config(&self) -> (c: GodMemoryConfig)
        ensures
            c@ == config_of(self@),
    {
        GodMemoryConfig {
            botname: self.botname.clone(),
            context: self.memory.context().clone(),
            thursdayism: self.memory.thursdayism().clone(),
        }
    }

    /// Takes name, persona and starting dialogue from `config`. The live
    /// history and the backend settings stay.
    pub fn update_from_config(&mut self, config: &GodMemoryConfig)
        ensures
            final(self)@ == (GodView {
                botname: config@.botname,
                memory: MemoryView {
                    context: config@.context,
                    thursdayism: config@.thursdayism,
                    recollections: old(self)@.memory.recollections,
                },
            }),
            final(self).settings() == old(self).settings(),
    {
        self.botname = config.botname.clone();
        self.memory.set_thursdayism(config.thursdayism.clone());
        self.memory.set_context(config.context.clone());
    }

    /// A new bot with the name, persona and starting dialogue of `config`
    /// and an empty live history. Fails as `new` does.
    pub fn from_config(config: &GodMemoryConfig, token: Option<String>) -> (r: Result<
        God,
        GodError,
    >)
        ensures
            token is None <==> r == Err::<God, GodError>(GodError::MissingCredential),
            token is Some <==> r is Ok,
            r matches Ok(g) ==> {
                &&& g@ == configured(config@)
                &&& g.settings().token@ == token->0@
                &&& g.settings().stops() == seq![config@.botname + ":"@, "---"@, "\n"@]
                &&& g.settings().max_tokens == MAX_TOKENS
            },
    {
        match God::new(config.botname.as_str(), token) {
            Ok(mut this) => {
                this.memory.set_thursdayism(config.thursdayism.clone());
                this.memory.set_context(config.context.clone());
                Ok(this)
            },
            Err(e) => Err(e),
        }
    }

    /// Name, persona and starting dialogue as a JSON tree.
    pub fn export_json(&self) -> (j: Json)
        ensures
            config_json(j, config_of(self@)),
    {
        let config = self.export_config();
        encode_config(&config)
    }

    /// A new bot from what reading a JSON text gave. Fails with
    /// `ParseError` where nothing was read or what was read is no
    /// configuration; else as `from_config` does.
    pub fn from_json(parsed: Option<Json>, token: Option<String>) -> (r: Result<God, GodError>)
        ensures
            import_outcome(config_in_parsed(parsed), token, r),
    {
        let config = match parsed {
            Some(j) => decode_config(&j),
            None => None,
        };
        match config {
            Some(c) => God::from_config(&c, token),
            None => Err(GodError::ParseError),
        }
    }

    /// A new bot from a configuration written as JSON text. Either a whole
    /// bot comes back or none.
    pub fn import_json(val: &str, token: Option<String>) -> (r: Result<God, GodError>)
        ensures
            import_outcome(config_in_parsed(json_parse(val@)), token, r),
    {
        God::from_json(parse_json(val), token)
    }

    /// A readable summary of the bot.
    pub fn get_config(&self) -> (out: String)
        ensures
            out@ == config_text(self@),
    {
        let mut out = self.botname.clone();
        out.append(" config.\n===========\nContext:\n--------\n");
        out.append(self.memory.context().as_str());
        out.append("\nInitial memory:\n---------------\n");
        let memory = self.memory.thursdayism().render();
        out.append(memory.as_str());
        out.append("\nCurrent memory:\n---------------\n");
        let current_memory = self.memory.get_prompt(
            "Username",
            "Some question",
            self.botname.as_str(),
        );
        out.append(current_memory.as_str());
        out.append("\n");
        out
    }
}

} // verus!
