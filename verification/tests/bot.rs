use godbot::bot::{God, GodError, MAX_TOKENS};
use godbot::config::GodMemoryConfig;
use godbot::discussion::{Discussion, DiscussionKind};
use godbot::json::{decode_config, decode_turn, encode_config, encode_turn, Json};

fn ask(author: &str, text: &str) -> DiscussionKind {
    DiscussionKind::Prompt { author: author.to_string(), prompt: text.to_string() }
}

fn answer(author: &str, text: &str) -> DiscussionKind {
    DiscussionKind::Response { author: author.to_string(), prompt: text.to_string() }
}

fn token() -> Option<String> {
    Some("secret".to_string())
}

fn blank(name: &str) -> God {
    let mut g = God::new(name, token()).unwrap();
    g.clear_interactions();
    g.set_context("");
    g
}

fn as_value(j: &Json) -> serde_json::Value {
    match j {
        Json::Null => serde_json::Value::Null,
        Json::Bool(b) => serde_json::Value::Bool(*b),
        Json::Number(n) => serde_json::from_str(n).unwrap(),
        Json::Text(s) => serde_json::Value::String(s.clone()),
        Json::Array(items) => serde_json::Value::Array(items.iter().map(as_value).collect()),
        Json::Object(members) => serde_json::Value::Object(
            members.iter().map(|(k, v)| (k.clone(), as_value(v))).collect(),
        ),
    }
}

#[test]
fn new_without_token_is_missing_credential() {
    assert_eq!(God::new("Bot", None).err(), Some(GodError::MissingCredential));
}

#[test]
fn new_bot_has_initial_memory_and_settings() {
    let g = God::new("Bot", token()).unwrap();
    assert_eq!(g.get_botname(), "Bot");
    assert_eq!(
        g.memory.context(),
        "God is the god of all beings. Yet, he is the most lovely god and answers in a very complete manner."
    );
    assert_eq!(
        g.memory.thursdayism().0,
        vec![
            ask("Alexis", "Who is god?"),
            answer(
                "Kirby",
                "Well, now that you ask, I can tell you. I, God is the great goddess is the god of everybody!"
            ),
        ]
    );
    assert!(g.memory.recollections().is_empty());
    assert_eq!(g.brain.token, "secret");
    assert_eq!(g.brain.stop_sequences, vec!["Bot:".to_string(), "---".to_string(), "\n".to_string()]);
    assert_eq!(g.brain.max_tokens, 250);
    assert_eq!(MAX_TOKENS, 250);
}

#[test]
fn cue_on_empty_identity() {
    let g = blank("Bot");
    assert_eq!(g.get_prompt("Alice", "Hi"), "\n\n---\n\nAlice: Hi\nBot:");
}

#[test]
fn prompt_ends_with_the_cue_and_no_newline() {
    let mut g = God::new("Kirby", token()).unwrap();
    g.set_prompt_response("Alexis", "Hello", "Poyo");
    let p = g.get_prompt("Alexis", "Again?");
    assert!(p.ends_with("Alexis: Again?\nKirby:"));
    assert!(p.starts_with("God is the god of all beings."));
    assert!(p.contains("Alexis: Hello\nKirby: Poyo\n\n---\n"));
}

#[test]
fn thirteen_exchanges_keep_the_last_six() {
    let mut g = blank("Bot");
    g.add_interaction("Seeder", "seed question", "seed answer");
    for i in 1..=13 {
        g.set_prompt_response("User", &format!("q{}", i), &format!("a{}", i));
    }
    let live = g.memory.recollections();
    assert_eq!(live.len(), 12);
    for k in 0..6 {
        assert_eq!(live.0[2 * k], ask("User", &format!("q{}", k + 8)));
        assert_eq!(live.0[2 * k + 1], answer("Bot", &format!("a{}", k + 8)));
    }
    assert_eq!(
        g.memory.thursdayism().0,
        vec![ask("Seeder", "seed question"), answer("Bot", "seed answer")]
    );
}

#[test]
fn exchange_answers_under_the_present_name() {
    let mut g = blank("Bot");
    g.set_botname("Other");
    assert_eq!(g.get_botname(), "Other");
    g.set_prompt_response("U", "q", "a");
    assert_eq!(g.memory.recollections().0, vec![ask("U", "q"), answer("Other", "a")]);
    assert_eq!(g.brain.stop_sequences[0], "Bot:");
}

#[test]
fn reset_all_empties_both_dialogues() {
    let mut g = God::new("Bot", token()).unwrap();
    g.set_context("ctx");
    g.set_prompt_response("U", "q", "a");
    g.clear_interactions();
    assert!(g.memory.thursdayism().is_empty());
    assert!(g.memory.recollections().is_empty());
    assert_eq!(g.memory.context(), "ctx");
    assert_eq!(g.get_botname(), "Bot");
}

#[test]
fn reset_live_keeps_the_seed() {
    let mut g = God::new("Bot", token()).unwrap();
    g.set_prompt_response("U", "q", "a");
    g.clear();
    assert!(g.memory.recollections().is_empty());
    assert_eq!(g.memory.thursdayism().len(), 2);
    assert!(!g.memory.thursdayism().is_empty());
}

#[test]
fn default_config_is_kirby() {
    let c = GodMemoryConfig::default();
    assert_eq!(c.botname, "Kirby");
    assert_eq!(c.context, "Kirby is as one of the most legendary video game characters of all time. In virtually all his appearances, Kirby is depicted as cheerful, innocent and food-loving; however, he becomes fearless, bold and clever in the face of danger.");
    assert_eq!(
        c.thursdayism.0,
        vec![
            ask("Alexis", "Oh! Look there! What is that?"),
            answer("Kirby", "Oh, that is king Dedede! I'm soooo scared!"),
            ask("Alexis", "Let's fight this ennemy!"),
            answer("Kirby", "But i have no sword!?!"),
            ask("Alexis", "Here, take this minion."),
            answer("Kirby", "Oof! Thanks for that! I can now fight!"),
        ]
    );
    assert_eq!(c.clone(), c);
}

#[test]
fn from_config_takes_all_three_parts() {
    let c = GodMemoryConfig::default();
    let g = God::from_config(&c, token()).unwrap();
    assert_eq!(g.get_botname(), "Kirby");
    assert_eq!(g.memory.context(), &c.context);
    assert_eq!(g.memory.thursdayism(), &c.thursdayism);
    assert!(g.memory.recollections().is_empty());
    assert_eq!(g.brain.stop_sequences[0], "Kirby:");
    assert_eq!(God::from_config(&c, None).err(), Some(GodError::MissingCredential));
}

#[test]
fn update_from_config_keeps_live_history() {
    let mut g = blank("Bot");
    g.set_prompt_response("U", "q", "a");
    let c = GodMemoryConfig::default();
    g.update_from_config(&c);
    assert_eq!(g.get_botname(), "Kirby");
    assert_eq!(g.memory.context(), &c.context);
    assert_eq!(g.memory.thursdayism(), &c.thursdayism);
    assert_eq!(g.memory.recollections().0, vec![ask("U", "q"), answer("Bot", "a")]);
    assert_eq!(g.brain.stop_sequences[0], "Bot:");
}

#[test]
fn export_config_is_a_snapshot() {
    let mut g = blank("Bot");
    g.set_context("ctx");
    g.add_interaction("U", "q", "a");
    g.set_prompt_response("U", "live", "only");
    let c = g.export_config();
    g.add_interaction("U", "later", "later");
    g.set_botname("Changed");
    assert_eq!(c.botname, "Bot");
    assert_eq!(c.context, "ctx");
    assert_eq!(c.thursdayism.0, vec![ask("U", "q"), answer("Bot", "a")]);
}

#[test]
fn get_config_text_is_exact() {
    let mut g = blank("Bot");
    g.set_context("ctx");
    g.add_interaction("U", "q", "a");
    assert_eq!(
        g.get_config(),
        "Bot config.\n===========\nContext:\n--------\nctx\nInitial memory:\n---------------\nU: q\nBot: a\n\n---\n\nCurrent memory:\n---------------\nctx\n\n---\n\nU: q\nBot: a\n\n---\nUsername: Some question\nBot:\n"
    );
}

#[test]
fn turn_tree_has_the_tagged_shape() {
    let j = encode_turn(&ask("A", "hi"));
    assert_eq!(
        j,
        Json::Object(vec![(
            "Prompt".to_string(),
            Json::Object(vec![
                ("author".to_string(), Json::Text("A".to_string())),
                ("prompt".to_string(), Json::Text("hi".to_string())),
            ]),
        )])
    );
    assert_eq!(decode_turn(&j), Some(ask("A", "hi")));
    let k = encode_turn(&answer("B", "yo"));
    assert_eq!(as_value(&k).to_string(), "{\"Response\":{\"author\":\"B\",\"prompt\":\"yo\"}}");
    assert_eq!(decode_turn(&k), Some(answer("B", "yo")));
}

#[test]
fn decode_turn_rejects_other_shapes() {
    assert_eq!(decode_turn(&Json::Null), None);
    assert_eq!(decode_turn(&Json::Text("Prompt".to_string())), None);
    assert_eq!(decode_turn(&Json::Object(Vec::new())), None);
    let inner = Json::Object(vec![
        ("author".to_string(), Json::Text("A".to_string())),
        ("prompt".to_string(), Json::Text("hi".to_string())),
    ]);
    assert_eq!(decode_turn(&Json::Object(vec![("Other".to_string(), inner)])), None);
    let no_author = Json::Object(vec![("prompt".to_string(), Json::Text("hi".to_string()))]);
    assert_eq!(decode_turn(&Json::Object(vec![("Prompt".to_string(), no_author)])), None);
    let number = Json::Object(vec![
        ("author".to_string(), Json::Number("1".to_string())),
        ("prompt".to_string(), Json::Text("hi".to_string())),
    ]);
    assert_eq!(decode_turn(&Json::Object(vec![("Prompt".to_string(), number)])), None);
}

#[test]
fn config_tree_reads_back() {
    let c = GodMemoryConfig::default();
    let j = encode_config(&c);
    assert_eq!(decode_config(&j), Some(c));
    assert_eq!(decode_config(&Json::Array(Vec::new())), None);
    assert_eq!(decode_config(&Json::Object(Vec::new())), None);
}

#[test]
fn export_then_import_round_trips() {
    let mut g = God::new("Bot \"the\" bot", token()).unwrap();
    g.set_context("line one\nline two \\ \u{e9}");
    g.add_interaction("U", "q: \"x\"", "a\n\n---\n");
    g.set_prompt_response("U", "live", "only");
    let text = as_value(&g.export_json()).to_string();
    let h = God::import_json(&text, token()).unwrap();
    assert_eq!(h.get_botname(), g.get_botname());
    assert_eq!(h.memory.context(), g.memory.context());
    assert_eq!(h.memory.thursdayism(), g.memory.thursdayism());
    assert_eq!(h.memory.thursdayism().len(), 4);
    assert!(h.memory.recollections().is_empty());
    assert_eq!(h.export_json(), g.export_json());
}

#[test]
fn import_reads_a_written_document() {
    let text = "{ \"botname\": \"Kirby\", \"context\": \"pink\", \"thursdayism\": [ {\"Prompt\": {\"author\": \"A\", \"prompt\": \"hi\"}}, {\"Response\": {\"author\": \"Kirby\", \"prompt\": \"poyo\"}} ] }";
    let g = God::import_json(text, token()).unwrap();
    assert_eq!(g.get_botname(), "Kirby");
    assert_eq!(g.memory.context(), "pink");
    assert_eq!(g.memory.thursdayism().0, vec![ask("A", "hi"), answer("Kirby", "poyo")]);
    assert!(g.memory.recollections().is_empty());
    assert_eq!(g.brain.stop_sequences[0], "Kirby:");
}

#[test]
fn import_of_malformed_text_is_parse_error() {
    assert_eq!(God::import_json("{ not json", token()).err(), Some(GodError::ParseError));
    assert_eq!(God::import_json("", token()).err(), Some(GodError::ParseError));
    assert_eq!(God::import_json("{ not json", None).err(), Some(GodError::ParseError));
}

#[test]
fn import_of_other_json_is_parse_error() {
    assert_eq!(God::import_json("[]", token()).err(), Some(GodError::ParseError));
    assert_eq!(
        God::import_json("{\"botname\": \"K\", \"context\": \"c\"}", token()).err(),
        Some(GodError::ParseError)
    );
    assert_eq!(
        God::import_json("{\"botname\": 3, \"context\": \"c\", \"thursdayism\": []}", token()).err(),
        Some(GodError::ParseError)
    );
    assert_eq!(
        God::import_json(
            "{\"botname\": \"K\", \"context\": \"c\", \"thursdayism\": [{\"Other\": {\"author\": \"a\", \"prompt\": \"p\"}}]}",
            token()
        )
        .err(),
        Some(GodError::ParseError)
    );
}

#[test]
fn import_without_token_is_missing_credential() {
    let text = "{\"botname\": \"K\", \"context\": \"c\", \"thursdayism\": []}";
    assert_eq!(God::import_json(text, None).err(), Some(GodError::MissingCredential));
    let g = God::import_json(text, token()).unwrap();
    assert!(g.memory.thursdayism().is_empty());
}

#[test]
fn from_json_of_nothing_is_parse_error() {
    assert_eq!(God::from_json(None, token()).err(), Some(GodError::ParseError));
    assert_eq!(God::from_json(Some(Json::Bool(true)), token()).err(), Some(GodError::ParseError));
    let j = encode_config(&GodMemoryConfig { botname: "B".to_string(), context: "c".to_string(), thursdayism: Discussion(Vec::new()) });
    let g = God::from_json(Some(j), token()).unwrap();
    assert_eq!(g.get_botname(), "B");
}
