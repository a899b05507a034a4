use vstd::prelude::*;
use crate::text::{ascii_lowered, is_ascii_text, spec_to_lowercase, str_eq, to_lowercase_str};

verus! {

/// The source of the `platformer` project template.
pub const PLATFORMER_TEMPLATE: &'static str = r#"when start:
    score = 0
    variable.show("score")
    background.set("night")

when action.down("right"):
    move(Player, 5)

when action.down("left"):
    move(Player, -5)

when action.down("up"):
    move_up(Player, 5)

when action.down("down"):
    move_down(Player, 5)

when action.press("jump"):
    jump(Player, 12)
    sound.play("jump")

when Player touches Coin:
    score += 10
    teleport(Coin, random(50, 430), random(50, 310))
    sound.play("coin")
"#;

/// The source of the `coins` project template.
pub const COINS_TEMPLATE: &'static str = r#"when start:
    score = 0
    variable.show("score")
    background.set("blue")

when action.down("right"):
    move(Player, 6)

when action.down("left"):
    move(Player, -6)

when action.down("up"):
    move_up(Player, 6)

when action.down("down"):
    move_down(Player, 6)

when Player touches Coin:
    score += 1
    teleport(Coin, random(60, 420), random(60, 300))
    sound.play("coin")
"#;

/// The source of the `dialogue` project template.
pub const DIALOGUE_TEMPLATE: &'static str = r#"when start:
    ask("What is your adventure name?")
    variable.show("score")

when message("answered"):
    say_for(Player, text.join("Welcome, ", get_answer()), 2)
    score = 100
"#;

/// The source of the `motion` project template.
pub const MOTION_TEMPLATE: &'static str = r#"when start:
    set_rotation_style(Player, "left-right")
    glide(Player, 2, 380, 280)

every 3 seconds:
    go_to(Player, "random")
"#;

/// The source of the `lists` project template.
pub const LISTS_TEMPLATE: &'static str = r#"when start:
    list.add("inventory", "iron_sword")
    list.add("inventory", "wooden_shield")
    list.add("inventory", "health_potion")
    list.show("inventory")
"#;

/// The source of the `starter` project template.
pub const STARTER_TEMPLATE: &'static str = r#"when start:
    score = 0
    background.set("night")
    variable.show("score")

when action.down("right"):
    move(Player, 5)

when action.down("left"):
    move(Player, -5)

when action.down("up"):
    move_up(Player, 5)

when action.down("down"):
    move_down(Player, 5)

when action.press("jump"):
    jump(Player, 12)
"#;

/// The starter source for a template name (any case); unknown names give the starter
/// template.
pub open spec fn template_source(name: Seq<char>) -> Seq<char> {
    if name == "platformer"@ {
        PLATFORMER_TEMPLATE@
    } else if name == "coins"@ {
        COINS_TEMPLATE@
    } else if name == "dialogue"@ {
        DIALOGUE_TEMPLATE@
    } else if name == "motion"@ {
        MOTION_TEMPLATE@
    } else if name == "lists"@ {
        LISTS_TEMPLATE@
    } else {
        STARTER_TEMPLATE@
    }
}

/// The starter source of the named template (see `template_source`).
pub fn get_template_code(template_name: &str) -> (code: &'static str)
    ensures
        code@ == template_source(spec_to_lowercase(template_name@)),
        is_ascii_text(template_name@) ==> code@ == template_source(ascii_lowered(template_name@)),
{
    let key = to_lowercase_str(template_name);
    let k = key.as_str();
    if str_eq(k, "platformer") {
        PLATFORMER_TEMPLATE
    } else if str_eq(k, "coins") {
        COINS_TEMPLATE
    } else if str_eq(k, "dialogue") {
        DIALOGUE_TEMPLATE
    } else if str_eq(k, "motion") {
        MOTION_TEMPLATE
    } else if str_eq(k, "lists") {
        LISTS_TEMPLATE
    } else {
        STARTER_TEMPLATE
    }
}

} // verus!
