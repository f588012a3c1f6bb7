//! What holds of every dialogue, memory and configuration.

use vstd::prelude::*;
use crate::bot::{config_of, configured, import_outcome, God, GodError, GodView};
use crate::config::ConfigView;
use crate::discussion::{
    lemma_render_concat, lemma_render_push, pushed, render_turn, render_turns, TurnView,
};
use crate::json::{config_in, config_in_parsed, config_json, find, turn_in, turn_json, turns_in, Json};
use crate::memory::{record_all, retained, MemoryView, RETENTION};

verus! {

/// Pushing any run of turns onto a dialogue puts them behind it in the
/// order of the pushes, and the text of the result is the text of the
/// dialogue followed by the text of the run.
pub proof fn law_pushes_keep_order(turns: Seq<TurnView>, more: Seq<TurnView>)
    ensures
        pushed(turns, more) == turns + more,
        render_turns(pushed(turns, more)) == render_turns(turns) + render_turns(more),
    decreases more.len(),
{
    if more.len() == 0 {
        assert(turns + more =~= turns);
    } else {
        law_pushes_keep_order(turns, more.drop_last());
        assert((turns + more.drop_last()).push(more.last()) =~= turns + more);
    }
    lemma_render_concat(turns, more);
}

/// A dialogue renders in the order of its turns: the text of the turn at
/// `i` stands after the text of all turns before it and before the text of
/// all turns after it.
pub proof fn law_render_keeps_order(turns: Seq<TurnView>, i: int)
    requires
        0 <= i < turns.len(),
    ensures
        render_turns(turns) == render_turns(turns.take(i)) + render_turn(turns[i]) + render_turns(
            turns.skip(i + 1),
        ),
{
    assert(turns =~= turns.take(i).push(turns[i]) + turns.skip(i + 1));
    lemma_render_concat(turns.take(i).push(turns[i]), turns.skip(i + 1));
    lemma_render_push(turns.take(i), turns[i]);
}

/// The retention rule leaves at most twelve turns. Of a longer history
/// exactly the oldest turns beyond twelve go, and the survivors keep their
/// order; a history of at most twelve turns is left as it is.
pub proof fn law_retention(turns: Seq<TurnView>)
    ensures
        retained(turns).len() <= RETENTION,
        turns.len() <= RETENTION ==> retained(turns) == turns,
        turns.len() > RETENTION ==> {
            &&& retained(turns).len() == RETENTION
            &&& forall|k: int|
                0 <= k < RETENTION ==> #[trigger] retained(turns)[k] == turns[turns.len()
                    - RETENTION + k]
        },
{
}

/// Recording turns in the live history, however many and of whichever
/// kind, changes neither the starting dialogue nor the persona.
pub proof fn law_recording_keeps_seed(m: MemoryView, turns: Seq<TurnView>)
    ensures
        record_all(m, turns).thursdayism == m.thursdayism,
        record_all(m, turns).context == m.context,
    decreases turns.len(),
{
    if turns.len() > 0 {
        law_recording_keeps_seed(m, turns.drop_last());
    }
}

/// Whatever was recorded before, once an answer has been recorded the live
/// history holds at most twelve turns.
pub proof fn law_bounded_after_response(m: MemoryView, turns: Seq<TurnView>)
    requires
        turns.len() > 0,
        turns.last() is Response,
    ensures
        record_all(m, turns).recollections.len() <= RETENTION,
{
}

/// The tree written for a turn reads back as that turn.
pub proof fn law_turn_round_trip(j: Json, t: TurnView)
    requires
        turn_json(j, t),
    ensures
        turn_in(j) == Some(t),
{
    reveal_strlit("author");
    reveal_strlit("prompt");
    reveal_strlit("Prompt");
    reveal_strlit("Response");
    reveal_with_fuel(find, 3);
    let members = j->Object_0;
    let inner = members@[0].1->Object_0;
    assert("author"@[0] == 'a');
    assert("prompt"@[0] == 'p');
    assert("Prompt"@.len() != "Response"@.len());
    assert(inner@.skip(1)[0] == inner@[1]);
}

/// The tree written for a configuration reads back as that configuration:
/// the same name, the same persona, the same starting dialogue turn by turn.
pub proof fn law_config_round_trip(j: Json, c: ConfigView)
    requires
        config_json(j, c),
    ensures
        config_in(j) == Some(c),
{
    reveal_strlit("botname");
    reveal_strlit("context");
    reveal_strlit("thursdayism");
    reveal_with_fuel(find, 4);
    let members = j->Object_0;
    let items = members@[2].1->Array_0;
    assert("botname"@[0] == 'b');
    assert("context"@[0] == 'c');
    assert("thursdayism"@[0] == 't');
    assert(members@.skip(1)[0] == members@[1]);
    assert(members@.skip(1).skip(1)[0] == members@[2]);
    assert forall|i: int| 0 <= i < items@.len() implies #[trigger] turn_in(items@[i]) == Some(
        c.thursdayism[i],
    ) by {
        law_turn_round_trip(items@[i], c.thursdayism[i]);
    }
    assert(turns_in(items@)->0 =~= c.thursdayism);
}

/// Importing what a bot exported, with a token at hand, succeeds and gives
/// a bot with the same name, persona and starting dialogue, and an empty
/// live history.
pub proof fn law_import_of_export(g: GodView, j: Json, token: String, r: Result<God, GodError>)
    requires
        config_json(j, config_of(g)),
        import_outcome(config_in_parsed(Some(j)), Some(token), r),
    ensures
        r is Ok,
        r->Ok_0@.botname == g.botname,
        r->Ok_0@.memory.context == g.memory.context,
        r->Ok_0@.memory.thursdayism == g.memory.thursdayism,
        r->Ok_0@.memory.recollections == Seq::<TurnView>::empty(),
{
    law_config_round_trip(j, config_of(g));
}

/// A bot made from the configuration of another has its name, persona and
/// starting dialogue, and an empty live history.
pub proof fn law_config_rebuilds_bot(g: GodView)
    ensures
        configured(config_of(g)) == (GodView {
            botname: g.botname,
            memory: MemoryView {
                context: g.memory.context,
                thursdayism: g.memory.thursdayism,
                recollections: Seq::empty(),
            },
        }),
        config_of(configured(config_of(g))) == config_of(g),
{
}

} // verus!
