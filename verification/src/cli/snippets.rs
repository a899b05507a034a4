use vstd::prelude::*;
use crate::blocks::types::BlockCategory;

verus! {

/// The palette snippets of a block category: code to insert, and what it does.
pub open spec fn category_snippets(cat: BlockCategory) -> Seq<(Seq<char>, Seq<char>)> {
    match cat {
        BlockCategory::Movement => seq![
            ("move(Player, 10)"@, "Move player horizontally by delta pixels"@),
            ("change_y(Player, 10)"@, "Move player vertically by delta pixels"@),
            ("teleport(Player, 100, 200)"@, "Set absolute position (x, y)"@),
            ("glide(Player, 2, 300, 200)"@, "Smoothly glide to position over duration"@),
            ("turn_right(Player, 15)"@, "Rotate clockwise by degrees"@),
            ("turn_left(Player, 15)"@, "Rotate counter-clockwise by degrees"@),
            ("point_towards(Player, \"mouse\")"@, "Face towards mouse pointer or sprite"@),
            ("bounce_on_edge(Player)"@, "Bounce off stage boundaries"@),
            ("set_rotation_style(Player, \"left-right\")"@, "Set rotation constraint"@),
        ],
        BlockCategory::Looks => seq![
            ("say_for(Player, \"Hello!\", 2)"@, "Show speech bubble for duration"@),
            ("say(Player, \"Hello!\")"@, "Show speech bubble indefinitely"@),
            ("think_for(Player, \"Hmm...\", 2)"@, "Show thought bubble for duration"@),
            ("show(Player)"@, "Make sprite visible"@),
            ("hide(Player)"@, "Hide sprite from stage"@),
            ("set_size(Player, 100)"@, "Set scale percentage"@),
            ("change_size(Player, 10)"@, "Increase or decrease scale"@),
            ("switch_costume(Player, \"costume2\")"@, "Switch sprite costume"@),
            ("background.set(\"forest\")"@, "Set stage background color/theme"@),
        ],
        BlockCategory::Audio => seq![
            ("sound.play(\"coin\")"@, "Play sound effect"@),
            ("sound.play_until_done(\"victory\")"@, "Play sound and wait until finished"@),
            ("sound.stop_all()"@, "Stop all sound channels"@),
            ("sound.set_volume(100)"@, "Set master volume percentage"@),
            ("music.play_note(60, 0.5)"@, "Synthesize MIDI musical note"@),
        ],
        BlockCategory::Events => seq![
            ("when start:"@, "Runs once when game boots up"@),
            ("when action.down(\"right\"):"@, "Runs every frame key/action is held"@),
            ("when action.press(\"jump\"):"@, "Runs once when key is pressed down"@),
            ("when Player touches Coin:"@, "Fires on collision overlap"@),
            ("when message(\"game_over\"):"@, "Fires when broadcast is received"@),
            ("broadcast(\"start_level\")"@, "Broadcast custom event message"@),
            ("every 3 seconds:"@, "Recurring timer trigger"@),
        ],
        BlockCategory::Control => seq![
            ("repeat 10:\n    move(Player, 5)"@, "Loop statement executing body N times"@),
            ("if score >= 100:\n    broadcast(\"win\")"@, "Conditional branching statement"@),
            ("wait(1.5)"@, "Delay execution by seconds"@),
            ("stop_all()"@, "Halt game execution"@),
        ],
        BlockCategory::Sensing => seq![
            ("ask(\"What is your name?\")"@, "Display prompt input box to player"@),
            ("get_answer()"@, "Returns player's input string"@),
            ("touching(Player, Coin)"@, "Check if two sprites are touching"@),
            ("key_pressed(\"space\")"@, "Check if specific key is held"@),
            ("mouse_down()"@, "Check if left mouse button is pressed"@),
            ("distance_to(Player, Coin)"@, "Euclidean distance between sprites"@),
        ],
        BlockCategory::Operators => seq![
            ("random(1, 10)"@, "Uniform random number between min and max"@),
            ("text.join(\"Hello, \", get_answer())"@, "Concatenate two strings"@),
            ("math.round(n)"@, "Round number to nearest whole integer"@),
            ("math.sqrt(n)"@, "Square root of number"@),
            ("math.abs(n)"@, "Absolute value"@),
        ],
        BlockCategory::Variables => seq![
            ("score = 0"@, "Set variable value"@),
            ("score += 1"@, "Increment variable by value"@),
            ("health -= 1"@, "Decrement variable by value"@),
            ("variable.show(\"score\")"@, "Display variable HUD badge on stage"@),
            ("variable.hide(\"score\")"@, "Hide variable HUD badge from stage"@),
        ],
        _ => seq![
            ("list.add(\"inventory\", \"sword\")"@, "Append item to dynamic list"@),
            ("list.delete(\"inventory\", 1)"@, "Remove item at index"@),
            ("list.item(\"inventory\", 1)"@, "Query item at index"@),
            ("list.length(\"inventory\")"@, "Get count of items in list"@),
            ("list.show(\"inventory\")"@, "Display list monitor on stage"@),
        ],
    }
}

fn snippet(code: &str, doc: &'static str) -> (r: (String, &'static str))
    ensures
        r.0@ == code@,
        r.1 == doc,
{
    (String::from_str(code), doc)
}

/// The palette snippets of a block category (see `category_snippets`).
pub fn get_category_snippets(cat: BlockCategory) -> (r: Vec<(String, &'static str)>)
    ensures
        r@.map_values(|p: (String, &'static str)| (p.0@, p.1@)) == category_snippets(cat),
{
    let mut v: Vec<(String, &'static str)> = Vec::new();
    match cat {
        BlockCategory::Movement => {
            v.push(snippet("move(Player, 10)", "Move player horizontally by delta pixels"));
            v.push(snippet("change_y(Player, 10)", "Move player vertically by delta pixels"));
            v.push(snippet("teleport(Player, 100, 200)", "Set absolute position (x, y)"));
            v.push(snippet("glide(Player, 2, 300, 200)", "Smoothly glide to position over duration"));
            v.push(snippet("turn_right(Player, 15)", "Rotate clockwise by degrees"));
            v.push(snippet("turn_left(Player, 15)", "Rotate counter-clockwise by degrees"));
            v.push(snippet("point_towards(Player, \"mouse\")", "Face towards mouse pointer or sprite"));
            v.push(snippet("bounce_on_edge(Player)", "Bounce off stage boundaries"));
            v.push(snippet("set_rotation_style(Player, \"left-right\")", "Set rotation constraint"));
        },
        BlockCategory::Looks => {
            v.push(snippet("say_for(Player, \"Hello!\", 2)", "Show speech bubble for duration"));
            v.push(snippet("say(Player, \"Hello!\")", "Show speech bubble indefinitely"));
            v.push(snippet("think_for(Player, \"Hmm...\", 2)", "Show thought bubble for duration"));
            v.push(snippet("show(Player)", "Make sprite visible"));
            v.push(snippet("hide(Player)", "Hide sprite from stage"));
            v.push(snippet("set_size(Player, 100)", "Set scale percentage"));
            v.push(snippet("change_size(Player, 10)", "Increase or decrease scale"));
            v.push(snippet("switch_costume(Player, \"costume2\")", "Switch sprite costume"));
            v.push(snippet("background.set(\"forest\")", "Set stage background color/theme"));
        },
        BlockCategory::Audio => {
            v.push(snippet("sound.play(\"coin\")", "Play sound effect"));
            v.push(snippet("sound.play_until_done(\"victory\")", "Play sound and wait until finished"));
            v.push(snippet("sound.stop_all()", "Stop all sound channels"));
            v.push(snippet("sound.set_volume(100)", "Set master volume percentage"));
            v.push(snippet("music.play_note(60, 0.5)", "Synthesize MIDI musical note"));
        },
        BlockCategory::Events => {
            v.push(snippet("when start:", "Runs once when game boots up"));
            v.push(snippet("when action.down(\"right\"):", "Runs every frame key/action is held"));
            v.push(snippet("when action.press(\"jump\"):", "Runs once when key is pressed down"));
            v.push(snippet("when Player touches Coin:", "Fires on collision overlap"));
            v.push(snippet("when message(\"game_over\"):", "Fires when broadcast is received"));
            v.push(snippet("broadcast(\"start_level\")", "Broadcast custom event message"));
            v.push(snippet("every 3 seconds:", "Recurring timer trigger"));
        },
        BlockCategory::Control => {
            v.push(snippet("repeat 10:\n    move(Player, 5)", "Loop statement executing body N times"));
            v.push(snippet("if score >= 100:\n    broadcast(\"win\")", "Conditional branching statement"));
            v.push(snippet("wait(1.5)", "Delay execution by seconds"));
            v.push(snippet("stop_all()", "Halt game execution"));
        },
        BlockCategory::Sensing => {
            v.push(snippet("ask(\"What is your name?\")", "Display prompt input box to player"));
            v.push(snippet("get_answer()", "Returns player's input string"));
            v.push(snippet("touching(Player, Coin)", "Check if two sprites are touching"));
            v.push(snippet("key_pressed(\"space\")", "Check if specific key is held"));
            v.push(snippet("mouse_down()", "Check if left mouse button is pressed"));
            v.push(snippet("distance_to(Player, Coin)", "Euclidean distance between sprites"));
        },
        BlockCategory::Operators => {
            v.push(snippet("random(1, 10)", "Uniform random number between min and max"));
            v.push(snippet("text.join(\"Hello, \", get_answer())", "Concatenate two strings"));
            v.push(snippet("math.round(n)", "Round number to nearest whole integer"));
            v.push(snippet("math.sqrt(n)", "Square root of number"));
            v.push(snippet("math.abs(n)", "Absolute value"));
        },
        BlockCategory::Variables => {
            v.push(snippet("score = 0", "Set variable value"));
            v.push(snippet("score += 1", "Increment variable by value"));
            v.push(snippet("health -= 1", "Decrement variable by value"));
            v.push(snippet("variable.show(\"score\")", "Display variable HUD badge on stage"));
            v.push(snippet("variable.hide(\"score\")", "Hide variable HUD badge from stage"));
        },
        _ => {
            v.push(snippet("list.add(\"inventory\", \"sword\")", "Append item to dynamic list"));
            v.push(snippet("list.delete(\"inventory\", 1)", "Remove item at index"));
            v.push(snippet("list.item(\"inventory\", 1)", "Query item at index"));
            v.push(snippet("list.length(\"inventory\")", "Get count of items in list"));
            v.push(snippet("list.show(\"inventory\")", "Display list monitor on stage"));
        },
    }
    assert(v@.map_values(|p: (String, &'static str)| (p.0@, p.1@)) =~= category_snippets(cat));
    v
}

} // verus!
