//! The part of a bot that is kept between sessions: its name, its persona
//! and the dialogue it starts out with.

use vstd::prelude::*;
use crate::discussion::{Discussion, DiscussionKind, TurnView};

verus! {

/// Mathematical model of a configuration.
pub struct ConfigView {
    pub botname: Seq<char>,
    pub context: Seq<char>,
    pub thursdayism: Seq<TurnView>,
}

/// Name, persona and starting dialogue of a bot. The live history of a
/// session is no part of it.
#[derive(Debug, PartialEq, Eq)]
pub struct GodMemoryConfig {
    pub botname: String,
    pub context: String,
    pub thursdayism: Discussion,
}

impl View for GodMemoryConfig {
    type V = ConfigView;

    open spec fn view(&self) -> ConfigView {
        ConfigView {
            botname: self.botname@,
            context: self.context@,
            thursdayism: self.thursdayism@,
        }
    }
}

/// The configuration a bot has when none is given: Kirby, with three
/// exchanges between Alexis and Kirby.
pub open spec fn default_config() -> ConfigView {
    ConfigView {
        botname: "Kirby"@,
        context: "Kirby is as one of the most legendary video game characters of all time. In virtually all his appearances, Kirby is depicted as cheerful, innocent and food-loving; however, he becomes fearless, bold and clever in the face of danger."@,
        thursdayism: seq![
            TurnView::Prompt { author: "Alexis"@, prompt: "Oh! Look there! What is that?"@ },
            TurnView::Response {
                author: "Kirby"@,
                prompt: "Oh, that is king Dedede! I'm soooo scared!"@,
            },
            TurnView::Prompt { author: "Alexis"@, prompt: "Let's fight this ennemy!"@ },
            TurnView::Response { author: "Kirby"@, prompt: "But i have no sword!?!"@ },
            TurnView::Prompt { author: "Alexis"@, prompt: "Here, take this minion."@ },
            TurnView::Response {
                author: "Kirby"@,
                prompt: "Oof! Thanks for that! I can now fight!"@,
            },
        ],
    }
}

impl Default for GodMemoryConfig {
    fn default() -> (c: Self)
        ensures
            c@ == default_config(),
    {
        let mut initial_prompt = Discussion(Vec::new());
        assert(initial_prompt@ =~= Seq::<TurnView>::empty());
        initial_prompt.push(
            DiscussionKind::Prompt {
                author: "Alexis".to_owned(),
                prompt: "Oh! Look there! What is that?".to_owned(),
            },
        );
        initial_prompt.push(
            DiscussionKind::Response {
                author: "Kirby".to_owned(),
                prompt: "Oh, that is king Dedede! I'm soooo scared!".to_owned(),
            },
        );
        initial_prompt.push(
            DiscussionKind::Prompt {
                author: "Alexis".to_owned(),
                prompt: "Let's fight this ennemy!".to_owned(),
            },
        );
        initial_prompt.push(
            DiscussionKind::Response {
                author: "Kirby".to_owned(),
                prompt: "But i have no sword!?!".to_owned(),
            },
        );
        initial_prompt.push(
            DiscussionKind::Prompt {
                author: "Alexis".to_owned(),
                prompt: "Here, take this minion.".to_owned(),
            },
        );
        initial_prompt.push(
            DiscussionKind::Response {
                author: "Kirby".to_owned(),
                prompt: "Oof! Thanks for that! I can now fight!".to_owned(),
            },
        );
        assert(initial_prompt@ =~= default_config().thursdayism);
        GodMemoryConfig {
            botname: "Kirby".to_owned(),
            context: "Kirby is as one of the most legendary video game characters of all time. In virtually all his appearances, Kirby is depicted as cheerful, innocent and food-loving; however, he becomes fearless, bold and clever in the face of danger.".to_owned(),
            thursdayism: initial_prompt,
        }
    }
}

impl Clone for GodMemoryConfig {
    /// A deep copy.
    fn clone(&self) -> (out: Self)
        ensures
            out@ == self@,
    {
        GodMemoryConfig {
            botname: self.botname.clone(),
            context: self.context.clone(),
            thursdayism: self.thursdayism.clone(),
        }
    }
}

} // verus!
