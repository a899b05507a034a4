use vstd::prelude::*;
use crate::blocks::block::{def_view, BlockDefinition};
use crate::blocks::core_catalogue::{core_catalogue, core_entry, core_lookup_upto};
use crate::blocks::registry::BlockRegistry;
use crate::blocks::types::{BlockCategory, BlockType};

verus! {

/// Registers core entry `k` into a registry that holds the entries before it.
fn register_core(registry: &mut BlockRegistry, Ghost(k): Ghost<nat>, block: BlockDefinition)
    requires
        old(registry).wf(),
        old(registry).holds_core_prefix(k),
        def_view(block) == core_entry(k as int),
    ensures
        final(registry).wf(),
        final(registry).holds_core_prefix(k + 1),
        forall|n: Seq<char>| #[trigger] final(registry).has(n) <==> (old(registry).has(n) || n == block.name@),
{
    let ghost name = block.name@;
    let ghost d = def_view(block);
    registry.register(block);
    assert forall|n: Seq<char>| #[trigger] registry.has(n) <==> (old(registry).has(n) || n == name) by {
        assert(registry.lookup(n) is Some <==> registry.has(n));
        assert(old(registry).lookup(n) is Some <==> old(registry).has(n));
    }
    assert forall|n: Seq<char>| #[trigger] registry.lookup_def(n) == core_lookup_upto(k + 1, n) by {
        assert(core_entry(k as int) == d);
        assert(core_lookup_upto(k + 1, n) == if n == d.name { Some(d) } else { core_lookup_upto(k, n) });
        assert(old(registry).lookup_def(n) == core_lookup_upto(k, n));
    }
}

/// Names of the core blocks, group 0 of the catalogue.
pub open spec fn core_group_0(n: Seq<char>) -> bool {
    n == "move"@
        || n == "jump"@
        || n == "stop"@
        || n == "teleport"@
        || n == "touching"@
        || n == "damage"@
        || n == "heal"@
        || n == "respawn"@
        || n == "collect"@
        || n == "sound.play"@
        || n == "camera.follow"@
        || n == "background.set"@
}

/// Names of the core blocks, group 1 of the catalogue.
pub open spec fn core_group_1(n: Seq<char>) -> bool {
    n == "scene.switch"@
        || n == "scene.restart"@
        || n == "change_x"@
        || n == "set_x"@
        || n == "change_y"@
        || n == "set_y"@
        || n == "turn_right"@
        || n == "turn_left"@
        || n == "point_in_direction"@
        || n == "point_towards"@
        || n == "bounce_on_edge"@
        || n == "distance_to"@
}

/// Names of the core blocks, group 2 of the catalogue.
pub open spec fn core_group_2(n: Seq<char>) -> bool {
    n == "x_position"@
        || n == "y_position"@
        || n == "say"@
        || n == "say_for"@
        || n == "think"@
        || n == "show"@
        || n == "hide"@
        || n == "set_size"@
        || n == "change_size"@
        || n == "next_costume"@
        || n == "switch_costume"@
        || n == "clear_effects"@
}

/// Names of the core blocks, group 3 of the catalogue.
pub open spec fn core_group_3(n: Seq<char>) -> bool {
    n == "set_effect"@
        || n == "next_backdrop"@
        || n == "sound.stop_all"@
        || n == "sound.set_volume"@
        || n == "sound.change_volume"@
        || n == "music.play_note"@
        || n == "music.set_tempo"@
        || n == "mouse_x"@
        || n == "mouse_y"@
        || n == "mouse_down"@
        || n == "key_pressed"@
        || n == "get_timer"@
}

/// Names of the core blocks, group 4 of the catalogue.
pub open spec fn core_group_4(n: Seq<char>) -> bool {
    n == "reset_timer"@
        || n == "wait"@
        || n == "clone"@
        || n == "delete_clone"@
        || n == "stop_all"@
        || n == "random"@
        || n == "math.round"@
        || n == "math.abs"@
        || n == "math.sqrt"@
        || n == "math.sin"@
        || n == "math.cos"@
        || n == "text.join"@
}

/// Names of the core blocks, group 5 of the catalogue.
pub open spec fn core_group_5(n: Seq<char>) -> bool {
    n == "text.length"@
        || n == "pen.clear"@
        || n == "pen.down"@
        || n == "pen.up"@
        || n == "pen.set_color"@
        || n == "pen.set_size"@
        || n == "pen.stamp"@
        || n == "math.floor"@
        || n == "math.ceil"@
        || n == "math.tan"@
        || n == "math.asin"@
        || n == "math.acos"@
}

/// Names of the core blocks, group 6 of the catalogue.
pub open spec fn core_group_6(n: Seq<char>) -> bool {
    n == "math.atan"@
        || n == "math.ln"@
        || n == "math.log"@
        || n == "math.exp"@
        || n == "math.pow"@
        || n == "math.mod"@
        || n == "math.min"@
        || n == "math.max"@
        || n == "text.contains"@
        || n == "text.letter_at"@
        || n == "text.upper"@
        || n == "text.lower"@
}

/// Names of the core blocks, group 7 of the catalogue.
pub open spec fn core_group_7(n: Seq<char>) -> bool {
    n == "get_direction"@
        || n == "get_size"@
        || n == "get_costume_number"@
        || n == "get_backdrop_name"@
        || n == "think_for"@
        || n == "change_effect"@
        || n == "sound.get_volume"@
        || n == "music.get_tempo"@
        || n == "music.change_tempo"@
        || n == "music.set_instrument"@
        || n == "music.play_drum"@
        || n == "music.rest"@
}

/// Names of the core blocks, group 8 of the catalogue.
pub open spec fn core_group_8(n: Seq<char>) -> bool {
    n == "pen.change_size"@
        || n == "pen.change_color"@
        || n == "pen.set_shade"@
        || n == "pen.change_shade"@
        || n == "current_time"@
        || n == "days_since_2000"@
        || n == "get_username"@
}

/// Whether `n` names a core block: the nine groups of the catalogue together.
pub open spec fn is_core_block_name(n: Seq<char>) -> bool {
    core_group_0(n)
        || core_group_1(n)
        || core_group_2(n)
        || core_group_3(n)
        || core_group_4(n)
        || core_group_5(n)
        || core_group_6(n)
        || core_group_7(n)
        || core_group_8(n)
}

fn register_group_0(registry: &mut BlockRegistry)
    requires
        old(registry).wf(),
        old(registry).holds_core_prefix(0),
    ensures
        final(registry).wf(),
        final(registry).holds_core_prefix(12),
        forall|n: Seq<char>| #[trigger] final(registry).has(n) <==> (old(registry).has(n) || core_group_0(n)),
{
    register_core(registry, Ghost(0nat),
        BlockDefinition::new("move", BlockCategory::Movement, "Move an object by x and optional y pixels", BlockType::Void, "MovementSystem::move")
            .with_param("target", BlockType::Object, false, None, "Target object or group to move")
            .with_param("x", BlockType::Number, false, None, "Horizontal delta in pixels")
            .with_param("y", BlockType::Number, true, Some("0"), "Vertical delta in pixels")
            .with_doc("Moves the specified target object horizontally by x and vertically by y pixels.")
            .with_example("move(Player, 5)")
            .with_example("move(Player, -5, 2)")
    );
    register_core(registry, Ghost(1nat),
        BlockDefinition::new("jump", BlockCategory::Movement, "Apply upward jump force to an object", BlockType::Void, "MovementSystem::jump")
            .with_param("target", BlockType::Object, false, None, "Target object to jump")
            .with_param("force", BlockType::Number, false, Some("10"), "Upward jump force magnitude")
            .with_doc("Applies an immediate upward vertical impulse to the object.")
            .with_example("jump(Player, 12)")
    );
    register_core(registry, Ghost(2nat),
        BlockDefinition::new("stop", BlockCategory::Movement, "Immediately stop movement of an object", BlockType::Void, "MovementSystem::stop")
            .with_param("target", BlockType::Object, false, None, "Target object to stop")
            .with_doc("Sets the target's linear velocity to zero.")
            .with_example("stop(Player)")
    );
    register_core(registry, Ghost(3nat),
        BlockDefinition::new("teleport", BlockCategory::Movement, "Teleport object directly to coordinates", BlockType::Void, "MovementSystem::teleport")
            .with_param("target", BlockType::Object, false, None, "Target object")
            .with_param("x", BlockType::Number, false, None, "New X coordinate")
            .with_param("y", BlockType::Number, false, None, "New Y coordinate")
            .with_doc("Instantly sets the object position to (x, y).")
            .with_example("teleport(Player, 100, 300)")
    );
    register_core(registry, Ghost(4nat),
        BlockDefinition::new("touching", BlockCategory::Condition, "Check if two objects or groups are colliding", BlockType::Boolean, "CollisionSystem::touching")
            .with_param("target", BlockType::Object, false, None, "First object or group")
            .with_param("other", BlockType::Object, false, None, "Second object or group")
            .with_doc("Returns true if target's collider overlaps other's collider.")
            .with_example("if touching(Player, Enemy):")
    );
    register_core(registry, Ghost(5nat),
        BlockDefinition::new("damage", BlockCategory::Gameplay, "Deal damage to target", BlockType::Void, "GameplaySystem::damage")
            .with_param("target", BlockType::Object, false, None, "Target object")
            .with_param("amount", BlockType::Number, false, Some("1"), "Amount of damage")
            .with_doc("Reduces the target's health by the specified amount.")
            .with_example("damage(Player, 1)")
    );
    register_core(registry, Ghost(6nat),
        BlockDefinition::new("heal", BlockCategory::Gameplay, "Restore health to target", BlockType::Void, "GameplaySystem::heal")
            .with_param("target", BlockType::Object, false, None, "Target object")
            .with_param("amount", BlockType::Number, false, Some("1"), "Amount of health to restore")
            .with_doc("Increases the target's health by the specified amount.")
            .with_example("heal(Player, 1)")
    );
    register_core(registry, Ghost(7nat),
        BlockDefinition::new("respawn", BlockCategory::Gameplay, "Respawn target at initial position", BlockType::Void, "GameplaySystem::respawn")
            .with_param("target", BlockType::Object, false, None, "Target object")
            .with_doc("Resets the target to its original spawn position and default properties.")
            .with_example("respawn(Player)")
    );
    register_core(registry, Ghost(8nat),
        BlockDefinition::new("collect", BlockCategory::Gameplay, "Collect and remove collectible object", BlockType::Void, "GameplaySystem::collect")
            .with_param("target", BlockType::Object, false, None, "Collectible object")
            .with_doc("Hides or destroys the collectible object.")
            .with_example("collect(Coin)")
    );
    register_core(registry, Ghost(9nat),
        BlockDefinition::new("sound.play", BlockCategory::Audio, "Play a sound effect by name", BlockType::Void, "AudioSystem::play")
            .with_param("name", BlockType::String, false, None, "Sound asset name")
            .with_doc("Plays the specified audio asset.")
            .with_example("sound.play(\"coin\")")
    );
    register_core(registry, Ghost(10nat),
        BlockDefinition::new("camera.follow", BlockCategory::Camera, "Make camera follow target object", BlockType::Void, "CameraSystem::follow")
            .with_param("target", BlockType::Object, false, None, "Target object to track")
            .with_doc("Configures the main 2D camera to smoothly follow the target entity.")
            .with_example("camera.follow(Player)")
    );
    register_core(registry, Ghost(11nat),
        BlockDefinition::new("background.set", BlockCategory::Scene, "Set scene background color or image", BlockType::Void, "SceneSystem::setBackground")
            .with_param("value", BlockType::String, false, None, "Color name (e.g. \"white\") or asset name")
            .with_doc("Updates the background.")
            .with_example("background.set(\"forest\")")
    );
}

fn register_group_1(registry: &mut BlockRegistry)
    requires
        old(registry).wf(),
        old(registry).holds_core_prefix(12),
    ensures
        final(registry).wf(),
        final(registry).holds_core_prefix(24),
        forall|n: Seq<char>| #[trigger] final(registry).has(n) <==> (old(registry).has(n) || core_group_1(n)),
{
    register_core(registry, Ghost(12nat),
        BlockDefinition::new("scene.switch", BlockCategory::Scene, "Switch to a new scene by name", BlockType::Void, "SceneSystem::switch")
            .with_param("name", BlockType::String, false, None, "Scene name")
            .with_doc("Transitions execution to the specified scene level.")
            .with_example("scene.switch(\"Level2\")")
    );
    register_core(registry, Ghost(13nat),
        BlockDefinition::new("scene.restart", BlockCategory::Scene, "Restart the current scene", BlockType::Void, "SceneSystem::restart")
            .with_doc("Reloads the current scene layout and object states.")
            .with_example("scene.restart()")
    );
    register_core(registry, Ghost(14nat),
        BlockDefinition::new("change_x", BlockCategory::Movement, "Change object X coordinate by delta", BlockType::Void, "MovementSystem::changeX")
            .with_param("target", BlockType::Object, false, None, "Target entity")
            .with_param("dx", BlockType::Number, false, None, "Horizontal delta in pixels")
            .with_doc("Increases or decreases the target entity's X position.")
            .with_example("change_x(Player, 10)")
    );
    register_core(registry, Ghost(15nat),
        BlockDefinition::new("set_x", BlockCategory::Movement, "Set object X coordinate directly", BlockType::Void, "MovementSystem::setX")
            .with_param("target", BlockType::Object, false, None, "Target entity")
            .with_param("x", BlockType::Number, false, None, "New X coordinate")
            .with_doc("Directly assigns the target entity's horizontal position.")
            .with_example("set_x(Player, 0)")
    );
    register_core(registry, Ghost(16nat),
        BlockDefinition::new("change_y", BlockCategory::Movement, "Change object Y coordinate by delta", BlockType::Void, "MovementSystem::changeY")
            .with_param("target", BlockType::Object, false, None, "Target entity")
            .with_param("dy", BlockType::Number, false, None, "Vertical delta in pixels")
            .with_doc("Increases or decreases the target entity's Y position.")
            .with_example("change_y(Player, 10)")
    );
    register_core(registry, Ghost(17nat),
        BlockDefinition::new("set_y", BlockCategory::Movement, "Set object Y coordinate directly", BlockType::Void, "MovementSystem::setY")
            .with_param("target", BlockType::Object, false, None, "Target entity")
            .with_param("y", BlockType::Number, false, None, "New Y coordinate")
            .with_doc("Directly assigns the target entity's vertical position.")
            .with_example("set_y(Player, 0)")
    );
    register_core(registry, Ghost(18nat),
        BlockDefinition::new("turn_right", BlockCategory::Movement, "Rotate object clockwise by degrees", BlockType::Void, "MovementSystem::turnRight")
            .with_param("target", BlockType::Object, false, None, "Target entity")
            .with_param("degrees", BlockType::Number, false, Some("15"), "Degrees to rotate clockwise")
            .with_doc("Rotates the sprite clockwise around its center point.")
            .with_example("turn_right(Player, 15)")
    );
    register_core(registry, Ghost(19nat),
        BlockDefinition::new("turn_left", BlockCategory::Movement, "Rotate object counter-clockwise by degrees", BlockType::Void, "MovementSystem::turnLeft")
            .with_param("target", BlockType::Object, false, None, "Target entity")
            .with_param("degrees", BlockType::Number, false, Some("15"), "Degrees to rotate counter-clockwise")
            .with_doc("Rotates the sprite counter-clockwise around its center point.")
            .with_example("turn_left(Player, 15)")
    );
    register_core(registry, Ghost(20nat),
        BlockDefinition::new("point_in_direction", BlockCategory::Movement, "Set absolute facing angle of sprite", BlockType::Void, "MovementSystem::pointInDirection")
            .with_param("target", BlockType::Object, false, None, "Target entity")
            .with_param("degrees", BlockType::Number, false, Some("90"), "Absolute direction (0: up, 90: right, 180: down, 270: left)")
            .with_doc("Points the sprite in an exact direction in degrees.")
            .with_example("point_in_direction(Player, 90)")
    );
    register_core(registry, Ghost(21nat),
        BlockDefinition::new("point_towards", BlockCategory::Movement, "Point sprite towards another entity or mouse", BlockType::Void, "MovementSystem::pointTowards")
            .with_param("target", BlockType::Object, false, None, "Target entity")
            .with_param("other", BlockType::Object, false, None, "Entity or 'mouse' to face towards")
            .with_doc("Adjusts the target's rotation so it faces directly at the other entity.")
            .with_example("point_towards(Player, Enemy)")
    );
    register_core(registry, Ghost(22nat),
        BlockDefinition::new("bounce_on_edge", BlockCategory::Movement, "Bounce sprite if touching stage boundaries", BlockType::Void, "MovementSystem::bounceOnEdge")
            .with_param("target", BlockType::Object, false, None, "Target entity")
            .with_doc("Inverts the velocity direction if the sprite collides with stage borders.")
            .with_example("bounce_on_edge(Player)")
    );
    register_core(registry, Ghost(23nat),
        BlockDefinition::new("distance_to", BlockCategory::Sensing, "Calculate Euclidean distance between two entities", BlockType::Number, "SensingSystem::distanceTo")
            .with_param("target", BlockType::Object, false, None, "First entity")
            .with_param("other", BlockType::Object, false, None, "Second entity")
            .with_doc("Returns the distance in pixels between the centers of two entities.")
            .with_example("if distance_to(Player, Enemy) < 100:")
    );
}

fn register_group_2(registry: &mut BlockRegistry)
    requires
        old(registry).wf(),
        old(registry).holds_core_prefix(24),
    ensures
        final(registry).wf(),
        final(registry).holds_core_prefix(36),
        forall|n: Seq<char>| #[trigger] final(registry).has(n) <==> (old(registry).has(n) || core_group_2(n)),
{
    register_core(registry, Ghost(24nat),
        BlockDefinition::new("x_position", BlockCategory::Movement, "Get X coordinate of target object", BlockType::Number, "MovementSystem::getX")
            .with_param("target", BlockType::Object, false, None, "Target entity")
            .with_doc("Returns the current X position of the target entity.")
            .with_example("current_x = x_position(Player)")
    );
    register_core(registry, Ghost(25nat),
        BlockDefinition::new("y_position", BlockCategory::Movement, "Get Y coordinate of target object", BlockType::Number, "MovementSystem::getY")
            .with_param("target", BlockType::Object, false, None, "Target entity")
            .with_doc("Returns the current Y position of the target entity.")
            .with_example("current_y = y_position(Player)")
    );
    register_core(registry, Ghost(26nat),
        BlockDefinition::new("say", BlockCategory::Looks, "Show speech bubble text above sprite", BlockType::Void, "LooksSystem::say")
            .with_param("target", BlockType::Object, false, None, "Target entity")
            .with_param("text", BlockType::String, false, None, "Message text to display")
            .with_doc("Renders a speech dialogue bubble above the sprite on stage.")
            .with_example("say(Player, \"Hello, world!\")")
    );
    register_core(registry, Ghost(27nat),
        BlockDefinition::new("say_for", BlockCategory::Looks, "Show speech bubble text for duration", BlockType::Void, "LooksSystem::sayFor")
            .with_param("target", BlockType::Object, false, None, "Target entity")
            .with_param("text", BlockType::String, false, None, "Message text")
            .with_param("seconds", BlockType::Number, false, Some("2"), "Duration in seconds")
            .with_doc("Renders a speech bubble above the sprite for a timed duration.")
            .with_example("say_for(Player, \"Nice job!\", 2)")
    );
    register_core(registry, Ghost(28nat),
        BlockDefinition::new("think", BlockCategory::Looks, "Show thought bubble above sprite", BlockType::Void, "LooksSystem::think")
            .with_param("target", BlockType::Object, false, None, "Target entity")
            .with_param("text", BlockType::String, false, None, "Thought text")
            .with_doc("Renders a cloud thought bubble above the sprite.")
            .with_example("think(Player, \"Hmm...\")")
    );
    register_core(registry, Ghost(29nat),
        BlockDefinition::new("show", BlockCategory::Looks, "Make sprite visible on stage", BlockType::Void, "LooksSystem::show")
            .with_param("target", BlockType::Object, false, None, "Target entity")
            .with_doc("Makes the sprite visible if it was previously hidden.")
            .with_example("show(Player)")
    );
    register_core(registry, Ghost(30nat),
        BlockDefinition::new("hide", BlockCategory::Looks, "Hide sprite from stage", BlockType::Void, "LooksSystem::hide")
            .with_param("target", BlockType::Object, false, None, "Target entity")
            .with_doc("Hides the sprite from the stage without deleting it.")
            .with_example("hide(Player)")
    );
    register_core(registry, Ghost(31nat),
        BlockDefinition::new("set_size", BlockCategory::Looks, "Set sprite scale percentage", BlockType::Void, "LooksSystem::setSize")
            .with_param("target", BlockType::Object, false, None, "Target entity")
            .with_param("percent", BlockType::Number, false, Some("100"), "Scale percentage (100 is normal size)")
            .with_doc("Sets the visual scale of the sprite as a percentage.")
            .with_example("set_size(Player, 150)")
    );
    register_core(registry, Ghost(32nat),
        BlockDefinition::new("change_size", BlockCategory::Looks, "Change sprite scale percentage by delta", BlockType::Void, "LooksSystem::changeSize")
            .with_param("target", BlockType::Object, false, None, "Target entity")
            .with_param("delta", BlockType::Number, false, Some("10"), "Percentage delta to add or subtract")
            .with_doc("Increases or decreases sprite size percentage.")
            .with_example("change_size(Player, -10)")
    );
    register_core(registry, Ghost(33nat),
        BlockDefinition::new("next_costume", BlockCategory::Looks, "Switch sprite to next costume frame", BlockType::Void, "LooksSystem::nextCostume")
            .with_param("target", BlockType::Object, false, None, "Target entity")
            .with_doc("Cycles the sprite appearance to its next costume asset.")
            .with_example("next_costume(Player)")
    );
    register_core(registry, Ghost(34nat),
        BlockDefinition::new("switch_costume", BlockCategory::Looks, "Switch sprite to named costume asset", BlockType::Void, "LooksSystem::switchCostume")
            .with_param("target", BlockType::Object, false, None, "Target entity")
            .with_param("name", BlockType::String, false, None, "Costume / sprite asset name")
            .with_doc("Sets the active costume of the sprite by name.")
            .with_example("switch_costume(Player, \"running\")")
    );
    register_core(registry, Ghost(35nat),
        BlockDefinition::new("clear_effects", BlockCategory::Looks, "Clear all graphical shader effects", BlockType::Void, "LooksSystem::clearEffects")
            .with_param("target", BlockType::Object, false, None, "Target entity")
            .with_doc("Removes color, ghost transparency, and brightness filters from the sprite.")
            .with_example("clear_effects(Player)")
    );
}

fn register_group_3(registry: &mut BlockRegistry)
    requires
        old(registry).wf(),
        old(registry).holds_core_prefix(36),
    ensures
        final(registry).wf(),
        final(registry).holds_core_prefix(48),
        forall|n: Seq<char>| #[trigger] final(registry).has(n) <==> (old(registry).has(n) || core_group_3(n)),
{
    register_core(registry, Ghost(36nat),
        BlockDefinition::new("set_effect", BlockCategory::Looks, "Set visual shader effect value", BlockType::Void, "LooksSystem::setEffect")
            .with_param("target", BlockType::Object, false, None, "Target entity")
            .with_param("effect", BlockType::String, false, None, "Effect name (e.g. \"ghost\", \"brightness\", \"color\")")
            .with_param("value", BlockType::Number, false, Some("0"), "Effect intensity value")
            .with_doc("Applies a visual filter or transparency effect to the sprite.")
            .with_example("set_effect(Player, \"ghost\", 50)")
    );
    register_core(registry, Ghost(37nat),
        BlockDefinition::new("next_backdrop", BlockCategory::Scene, "Cycle stage to next background", BlockType::Void, "SceneSystem::nextBackdrop")
            .with_doc("Cycles stage appearance to the next backdrop.")
            .with_example("next_backdrop()")
    );
    register_core(registry, Ghost(38nat),
        BlockDefinition::new("sound.stop_all", BlockCategory::Audio, "Stop all playing sounds and music", BlockType::Void, "AudioSystem::stopAll")
            .with_doc("Halts all active sound effects and background music tracks immediately.")
            .with_example("sound.stop_all()")
    );
    register_core(registry, Ghost(39nat),
        BlockDefinition::new("sound.set_volume", BlockCategory::Audio, "Set audio volume percentage", BlockType::Void, "AudioSystem::setVolume")
            .with_param("percent", BlockType::Number, false, Some("100"), "Volume percentage (0 to 100)")
            .with_doc("Sets master audio playback volume.")
            .with_example("sound.set_volume(80)")
    );
    register_core(registry, Ghost(40nat),
        BlockDefinition::new("sound.change_volume", BlockCategory::Audio, "Change audio volume percentage by delta", BlockType::Void, "AudioSystem::changeVolume")
            .with_param("delta", BlockType::Number, false, Some("-10"), "Volume delta to add or subtract")
            .with_doc("Increases or decreases audio playback volume.")
            .with_example("sound.change_volume(-10)")
    );
    register_core(registry, Ghost(41nat),
        BlockDefinition::new("music.play_note", BlockCategory::Audio, "Play musical note for specified beats", BlockType::Void, "AudioSystem::playNote")
            .with_param("note", BlockType::Number, false, Some("60"), "MIDI note number (60 is middle C)")
            .with_param("beats", BlockType::Number, false, Some("0.5"), "Duration in musical beats")
            .with_doc("Synthesizes a musical tone using the active tempo.")
            .with_example("music.play_note(60, 0.5)")
    );
    register_core(registry, Ghost(42nat),
        BlockDefinition::new("music.set_tempo", BlockCategory::Audio, "Set music tempo in beats per minute", BlockType::Void, "AudioSystem::setTempo")
            .with_param("bpm", BlockType::Number, false, Some("60"), "Tempo in beats per minute")
            .with_doc("Sets the tempo speed for musical notes and percussion.")
            .with_example("music.set_tempo(120)")
    );
    register_core(registry, Ghost(43nat),
        BlockDefinition::new("mouse_x", BlockCategory::Sensing, "Get current mouse X screen coordinate", BlockType::Number, "SensingSystem::mouseX")
            .with_doc("Returns the horizontal position of the mouse cursor.")
            .with_example("if mouse_x() > 640:")
    );
    register_core(registry, Ghost(44nat),
        BlockDefinition::new("mouse_y", BlockCategory::Sensing, "Get current mouse Y screen coordinate", BlockType::Number, "SensingSystem::mouseY")
            .with_doc("Returns the vertical position of the mouse cursor.")
            .with_example("if mouse_y() > 360:")
    );
    register_core(registry, Ghost(45nat),
        BlockDefinition::new("mouse_down", BlockCategory::Sensing, "Check if left mouse button is pressed", BlockType::Boolean, "SensingSystem::mouseDown")
            .with_doc("Returns true if the user is holding down the left mouse button.")
            .with_example("if mouse_down():")
    );
    register_core(registry, Ghost(46nat),
        BlockDefinition::new("key_pressed", BlockCategory::Sensing, "Check if a key or action is pressed", BlockType::Boolean, "SensingSystem::keyPressed")
            .with_param("key", BlockType::String, false, None, "Action or key name (e.g. \"space\", \"jump\", \"left\")")
            .with_doc("Returns true if the designated key or action is currently active.")
            .with_example("if key_pressed(\"space\"):")
    );
    register_core(registry, Ghost(47nat),
        BlockDefinition::new("get_timer", BlockCategory::Sensing, "Get elapsed time since game start or reset", BlockType::Number, "SensingSystem::getTimer")
            .with_doc("Returns the number of elapsed seconds on the runtime clock.")
            .with_example("elapsed = get_timer()")
    );
}

fn register_group_4(registry: &mut BlockRegistry)
    requires
        old(registry).wf(),
        old(registry).holds_core_prefix(48),
    ensures
        final(registry).wf(),
        final(registry).holds_core_prefix(60),
        forall|n: Seq<char>| #[trigger] final(registry).has(n) <==> (old(registry).has(n) || core_group_4(n)),
{
    register_core(registry, Ghost(48nat),
        BlockDefinition::new("reset_timer", BlockCategory::Sensing, "Reset game timer to zero", BlockType::Void, "SensingSystem::resetTimer")
            .with_doc("Resets the internal elapsed seconds timer to 0.")
            .with_example("reset_timer()")
    );
    register_core(registry, Ghost(49nat),
        BlockDefinition::new("wait", BlockCategory::Control, "Wait for a duration in seconds", BlockType::Void, "ControlSystem::wait")
            .with_param("seconds", BlockType::Number, false, Some("1"), "Time to pause in seconds")
            .with_doc("Delays execution of the handler for the given seconds.")
            .with_example("wait(1)")
    );
    register_core(registry, Ghost(50nat),
        BlockDefinition::new("clone", BlockCategory::Control, "Spawn a duplicate clone of target sprite", BlockType::Void, "ControlSystem::clone")
            .with_param("target", BlockType::Object, false, None, "Target entity to clone")
            .with_doc("Instantiates a clone of the sprite with identical components.")
            .with_example("clone(Coin)")
    );
    register_core(registry, Ghost(51nat),
        BlockDefinition::new("delete_clone", BlockCategory::Control, "Delete current cloned entity instance", BlockType::Void, "ControlSystem::deleteClone")
            .with_param("target", BlockType::Object, false, None, "Clone entity to destroy")
            .with_doc("Removes the cloned entity from the active scene.")
            .with_example("delete_clone(Player)")
    );
    register_core(registry, Ghost(52nat),
        BlockDefinition::new("stop_all", BlockCategory::Control, "Stop all active game scripts and execution", BlockType::Void, "ControlSystem::stopAll")
            .with_doc("Immediately terminates all running game events and halts the game loop.")
            .with_example("stop_all()")
    );
    register_core(registry, Ghost(53nat),
        BlockDefinition::new("random", BlockCategory::Operators, "Pick random number between min and max", BlockType::Number, "MathSystem::random")
            .with_param("min", BlockType::Number, false, Some("1"), "Minimum value")
            .with_param("max", BlockType::Number, false, Some("10"), "Maximum value")
            .with_doc("Returns a uniformly distributed random number between min and max inclusive.")
            .with_example("roll = random(1, 6)")
    );
    register_core(registry, Ghost(54nat),
        BlockDefinition::new("math.round", BlockCategory::Operators, "Round number to nearest whole integer", BlockType::Number, "MathSystem::round")
            .with_param("n", BlockType::Number, false, None, "Input decimal number")
            .with_doc("Rounds a floating-point number to the nearest integer.")
            .with_example("val = math.round(4.6)")
    );
    register_core(registry, Ghost(55nat),
        BlockDefinition::new("math.abs", BlockCategory::Operators, "Absolute value of a number", BlockType::Number, "MathSystem::abs")
            .with_param("n", BlockType::Number, false, None, "Input number")
            .with_doc("Returns the positive magnitude of a number.")
            .with_example("dist = math.abs(x1 - x2)")
    );
    register_core(registry, Ghost(56nat),
        BlockDefinition::new("math.sqrt", BlockCategory::Operators, "Square root of a number", BlockType::Number, "MathSystem::sqrt")
            .with_param("n", BlockType::Number, false, None, "Input non-negative number")
            .with_doc("Calculates the principal square root.")
            .with_example("hyp = math.sqrt(a * a + b * b)")
    );
    register_core(registry, Ghost(57nat),
        BlockDefinition::new("math.sin", BlockCategory::Operators, "Sine of angle in degrees", BlockType::Number, "MathSystem::sin")
            .with_param("degrees", BlockType::Number, false, None, "Angle in degrees")
            .with_doc("Computes the trigonometric sine.")
            .with_example("y_offset = math.sin(angle) * 10")
    );
    register_core(registry, Ghost(58nat),
        BlockDefinition::new("math.cos", BlockCategory::Operators, "Cosine of angle in degrees", BlockType::Number, "MathSystem::cos")
            .with_param("degrees", BlockType::Number, false, None, "Angle in degrees")
            .with_doc("Computes the trigonometric cosine.")
            .with_example("x_offset = math.cos(angle) * 10")
    );
    register_core(registry, Ghost(59nat),
        BlockDefinition::new("text.join", BlockCategory::Operators, "Concatenate two strings", BlockType::String, "TextSystem::join")
            .with_param("a", BlockType::String, false, None, "First string")
            .with_param("b", BlockType::String, false, None, "Second string")
            .with_doc("Attaches the second string to the end of the first string.")
            .with_example("msg = text.join(\"Score: \", score)")
    );
}

fn register_group_5(registry: &mut BlockRegistry)
    requires
        old(registry).wf(),
        old(registry).holds_core_prefix(60),
    ensures
        final(registry).wf(),
        final(registry).holds_core_prefix(72),
        forall|n: Seq<char>| #[trigger] final(registry).has(n) <==> (old(registry).has(n) || core_group_5(n)),
{
    register_core(registry, Ghost(60nat),
        BlockDefinition::new("text.length", BlockCategory::Operators, "Get character length of a string", BlockType::Number, "TextSystem::length")
            .with_param("s", BlockType::String, false, None, "Input string")
            .with_doc("Returns the number of characters in the text.")
            .with_example("len = text.length(player_name)")
    );
    register_core(registry, Ghost(61nat),
        BlockDefinition::new("pen.clear", BlockCategory::Pen, "Clear all canvas drawing trails", BlockType::Void, "PenSystem::clear")
            .with_doc("Erases all drawn lines and stamps from the stage canvas.")
            .with_example("pen.clear()")
    );
    register_core(registry, Ghost(62nat),
        BlockDefinition::new("pen.down", BlockCategory::Pen, "Put pen down to draw movement trails", BlockType::Void, "PenSystem::down")
            .with_param("target", BlockType::Object, false, None, "Target entity")
            .with_doc("Lowers the pen so lines are drawn whenever the sprite moves.")
            .with_example("pen.down(Player)")
    );
    register_core(registry, Ghost(63nat),
        BlockDefinition::new("pen.up", BlockCategory::Pen, "Lift pen up to stop drawing trails", BlockType::Void, "PenSystem::up")
            .with_param("target", BlockType::Object, false, None, "Target entity")
            .with_doc("Raises the pen so moving the sprite does not draw lines.")
            .with_example("pen.up(Player)")
    );
    register_core(registry, Ghost(64nat),
        BlockDefinition::new("pen.set_color", BlockCategory::Pen, "Set pen line stroke color", BlockType::Void, "PenSystem::setColor")
            .with_param("color", BlockType::String, false, None, "Color name or hex string")
            .with_doc("Sets the color of lines drawn by the pen.")
            .with_example("pen.set_color(\"red\")")
    );
    register_core(registry, Ghost(65nat),
        BlockDefinition::new("pen.set_size", BlockCategory::Pen, "Set pen line thickness in pixels", BlockType::Void, "PenSystem::setSize")
            .with_param("size", BlockType::Number, false, Some("1"), "Line thickness in pixels")
            .with_doc("Sets the line thickness of pen drawings.")
            .with_example("pen.set_size(3)")
    );
    register_core(registry, Ghost(66nat),
        BlockDefinition::new("pen.stamp", BlockCategory::Pen, "Stamp sprite image onto stage", BlockType::Void, "PenSystem::stamp")
            .with_param("target", BlockType::Object, false, None, "Target entity")
            .with_doc("Draws an imprint of the sprite's current costume onto the stage canvas.")
            .with_example("pen.stamp(Player)")
    );
    register_core(registry, Ghost(67nat),
        BlockDefinition::new("math.floor", BlockCategory::Operators, "Round number down to nearest integer", BlockType::Number, "MathSystem::floor")
            .with_param("n", BlockType::Number, false, None, "Input decimal number")
            .with_doc("Returns the largest integer less than or equal to n.")
            .with_example("val = math.floor(4.9)")
    );
    register_core(registry, Ghost(68nat),
        BlockDefinition::new("math.ceil", BlockCategory::Operators, "Round number up to nearest integer", BlockType::Number, "MathSystem::ceil")
            .with_param("n", BlockType::Number, false, None, "Input decimal number")
            .with_doc("Returns the smallest integer greater than or equal to n.")
            .with_example("val = math.ceil(4.1)")
    );
    register_core(registry, Ghost(69nat),
        BlockDefinition::new("math.tan", BlockCategory::Operators, "Tangent of angle in degrees", BlockType::Number, "MathSystem::tan")
            .with_param("degrees", BlockType::Number, false, None, "Angle in degrees")
            .with_doc("Computes the trigonometric tangent.")
            .with_example("slope = math.tan(angle)")
    );
    register_core(registry, Ghost(70nat),
        BlockDefinition::new("math.asin", BlockCategory::Operators, "Arcsine in degrees", BlockType::Number, "MathSystem::asin")
            .with_param("n", BlockType::Number, false, None, "Value between -1.0 and 1.0")
            .with_doc("Calculates inverse sine in degrees.")
            .with_example("angle = math.asin(0.5)")
    );
    register_core(registry, Ghost(71nat),
        BlockDefinition::new("math.acos", BlockCategory::Operators, "Arccosine in degrees", BlockType::Number, "MathSystem::acos")
            .with_param("n", BlockType::Number, false, None, "Value between -1.0 and 1.0")
            .with_doc("Calculates inverse cosine in degrees.")
            .with_example("angle = math.acos(0.5)")
    );
}

fn register_group_6(registry: &mut BlockRegistry)
    requires
        old(registry).wf(),
        old(registry).holds_core_prefix(72),
    ensures
        final(registry).wf(),
        final(registry).holds_core_prefix(84),
        forall|n: Seq<char>| #[trigger] final(registry).has(n) <==> (old(registry).has(n) || core_group_6(n)),
{
    register_core(registry, Ghost(72nat),
        BlockDefinition::new("math.atan", BlockCategory::Operators, "Arctangent in degrees", BlockType::Number, "MathSystem::atan")
            .with_param("n", BlockType::Number, false, None, "Input number")
            .with_doc("Calculates inverse tangent in degrees.")
            .with_example("angle = math.atan(ratio)")
    );
    register_core(registry, Ghost(73nat),
        BlockDefinition::new("math.ln", BlockCategory::Operators, "Natural logarithm (base e)", BlockType::Number, "MathSystem::ln")
            .with_param("n", BlockType::Number, false, None, "Input positive number")
            .with_doc("Calculates natural logarithm.")
            .with_example("log_val = math.ln(10)")
    );
    register_core(registry, Ghost(74nat),
        BlockDefinition::new("math.log", BlockCategory::Operators, "Common logarithm (base 10)", BlockType::Number, "MathSystem::log")
            .with_param("n", BlockType::Number, false, None, "Input positive number")
            .with_doc("Calculates base-10 logarithm.")
            .with_example("orders = math.log(100)")
    );
    register_core(registry, Ghost(75nat),
        BlockDefinition::new("math.exp", BlockCategory::Operators, "Exponential e raised to power n", BlockType::Number, "MathSystem::exp")
            .with_param("n", BlockType::Number, false, None, "Power exponent")
            .with_doc("Calculates e^n.")
            .with_example("val = math.exp(2)")
    );
    register_core(registry, Ghost(76nat),
        BlockDefinition::new("math.pow", BlockCategory::Operators, "Raise base to exponent power", BlockType::Number, "MathSystem::pow")
            .with_param("base", BlockType::Number, false, None, "Base number")
            .with_param("exponent", BlockType::Number, false, None, "Exponent power")
            .with_doc("Calculates base^exponent.")
            .with_example("area = math.pow(radius, 2) * 3.14159")
    );
    register_core(registry, Ghost(77nat),
        BlockDefinition::new("math.mod", BlockCategory::Operators, "Euclidean modulo remainder", BlockType::Number, "MathSystem::mod")
            .with_param("a", BlockType::Number, false, None, "Dividend")
            .with_param("b", BlockType::Number, false, None, "Divisor")
            .with_doc("Calculates positive mathematical modulo remainder.")
            .with_example("rem = math.mod(10, 3)")
    );
    register_core(registry, Ghost(78nat),
        BlockDefinition::new("math.min", BlockCategory::Operators, "Minimum of two numbers", BlockType::Number, "MathSystem::min")
            .with_param("a", BlockType::Number, false, None, "First number")
            .with_param("b", BlockType::Number, false, None, "Second number")
            .with_doc("Returns the smaller of two numbers.")
            .with_example("lowest = math.min(health, max_health)")
    );
    register_core(registry, Ghost(79nat),
        BlockDefinition::new("math.max", BlockCategory::Operators, "Maximum of two numbers", BlockType::Number, "MathSystem::max")
            .with_param("a", BlockType::Number, false, None, "First number")
            .with_param("b", BlockType::Number, false, None, "Second number")
            .with_doc("Returns the larger of two numbers.")
            .with_example("clamped = math.max(0, health)")
    );
    register_core(registry, Ghost(80nat),
        BlockDefinition::new("text.contains", BlockCategory::Operators, "Check if string contains substring", BlockType::Boolean, "TextSystem::contains")
            .with_param("s", BlockType::String, false, None, "Source string")
            .with_param("substring", BlockType::String, false, None, "Substring to search for")
            .with_doc("Returns true if s contains substring.")
            .with_example("if text.contains(word, \"cat\"):")
    );
    register_core(registry, Ghost(81nat),
        BlockDefinition::new("text.letter_at", BlockCategory::Operators, "Get 1-indexed character of string", BlockType::String, "TextSystem::letterAt")
            .with_param("s", BlockType::String, false, None, "Input string")
            .with_param("index", BlockType::Number, false, Some("1"), "1-based character position")
            .with_doc("Returns the single character at the 1-based index.")
            .with_example("first = text.letter_at(\"world\", 1)")
    );
    register_core(registry, Ghost(82nat),
        BlockDefinition::new("text.upper", BlockCategory::Operators, "Convert text to uppercase", BlockType::String, "TextSystem::upper")
            .with_param("s", BlockType::String, false, None, "Input string")
            .with_doc("Returns text converted entirely to uppercase.")
            .with_example("loud = text.upper(\"hello\")")
    );
    register_core(registry, Ghost(83nat),
        BlockDefinition::new("text.lower", BlockCategory::Operators, "Convert text to lowercase", BlockType::String, "TextSystem::lower")
            .with_param("s", BlockType::String, false, None, "Input string")
            .with_doc("Returns text converted entirely to lowercase.")
            .with_example("quiet = text.lower(\"HELLO\")")
    );
}

fn register_group_7(registry: &mut BlockRegistry)
    requires
        old(registry).wf(),
        old(registry).holds_core_prefix(84),
    ensures
        final(registry).wf(),
        final(registry).holds_core_prefix(96),
        forall|n: Seq<char>| #[trigger] final(registry).has(n) <==> (old(registry).has(n) || core_group_7(n)),
{
    register_core(registry, Ghost(84nat),
        BlockDefinition::new("get_direction", BlockCategory::Movement, "Get facing rotation of sprite in degrees", BlockType::Number, "MovementSystem::getDirection")
            .with_param("target", BlockType::Object, false, None, "Target entity")
            .with_doc("Returns the current facing angle in degrees.")
            .with_example("angle = get_direction(Player)")
    );
    register_core(registry, Ghost(85nat),
        BlockDefinition::new("get_size", BlockCategory::Looks, "Get sprite scale percentage", BlockType::Number, "LooksSystem::getSize")
            .with_param("target", BlockType::Object, false, None, "Target entity")
            .with_doc("Returns the current scale percentage of the sprite.")
            .with_example("scale = get_size(Player)")
    );
    register_core(registry, Ghost(86nat),
        BlockDefinition::new("get_costume_number", BlockCategory::Looks, "Get active costume number", BlockType::Number, "LooksSystem::getCostumeNumber")
            .with_param("target", BlockType::Object, false, None, "Target entity")
            .with_doc("Returns the index of the sprite's active costume frame.")
            .with_example("c_num = get_costume_number(Player)")
    );
    register_core(registry, Ghost(87nat),
        BlockDefinition::new("get_backdrop_name", BlockCategory::Scene, "Get active scene backdrop name", BlockType::String, "SceneSystem::getBackdropName")
            .with_doc("Returns the name of current background/backdrop.")
            .with_example("bg = get_backdrop_name()")
    );
    register_core(registry, Ghost(88nat),
        BlockDefinition::new("think_for", BlockCategory::Looks, "Show thought bubble for duration", BlockType::Void, "LooksSystem::thinkFor")
            .with_param("target", BlockType::Object, false, None, "Target entity")
            .with_param("text", BlockType::String, false, None, "Thought text")
            .with_param("seconds", BlockType::Number, false, Some("2"), "Duration in seconds")
            .with_doc("Displays a thought bubble for the specified time.")
            .with_example("think_for(Player, \"Hmm...\", 2)")
    );
    register_core(registry, Ghost(89nat),
        BlockDefinition::new("change_effect", BlockCategory::Looks, "Change visual shader effect by delta", BlockType::Void, "LooksSystem::changeEffect")
            .with_param("target", BlockType::Object, false, None, "Target entity")
            .with_param("effect", BlockType::String, false, Some("\"color\""), "Effect name")
            .with_param("delta", BlockType::Number, false, Some("25"), "Delta amount")
            .with_doc("Alters a visual effect by delta value.")
            .with_example("change_effect(Player, \"ghost\", 25)")
    );
    register_core(registry, Ghost(90nat),
        BlockDefinition::new("sound.get_volume", BlockCategory::Audio, "Get current master audio volume", BlockType::Number, "AudioSystem::getVolume")
            .with_doc("Returns master sound volume percentage (0 - 100).")
            .with_example("vol = sound.get_volume()")
    );
    register_core(registry, Ghost(91nat),
        BlockDefinition::new("music.get_tempo", BlockCategory::Audio, "Get current music tempo BPM", BlockType::Number, "AudioSystem::getTempo")
            .with_doc("Returns current musical tempo in beats per minute.")
            .with_example("bpm = music.get_tempo()")
    );
    register_core(registry, Ghost(92nat),
        BlockDefinition::new("music.change_tempo", BlockCategory::Audio, "Change music tempo by delta BPM", BlockType::Void, "AudioSystem::changeTempo")
            .with_param("delta", BlockType::Number, false, Some("20"), "Delta BPM")
            .with_doc("Adjusts music tempo BPM by delta.")
            .with_example("music.change_tempo(10)")
    );
    register_core(registry, Ghost(93nat),
        BlockDefinition::new("music.set_instrument", BlockCategory::Audio, "Set MIDI instrument sound preset", BlockType::Void, "AudioSystem::setInstrument")
            .with_param("instrument", BlockType::Number, false, Some("1"), "Instrument ID number")
            .with_doc("Selects instrument voice preset (1 - 21).")
            .with_example("music.set_instrument(2)")
    );
    register_core(registry, Ghost(94nat),
        BlockDefinition::new("music.play_drum", BlockCategory::Audio, "Play drum instrument hit for beats", BlockType::Void, "AudioSystem::playDrum")
            .with_param("drum", BlockType::Number, false, Some("1"), "Drum ID (1 - 18)")
            .with_param("beats", BlockType::Number, false, Some("0.25"), "Duration in beats")
            .with_doc("Plays percussive drum hit for duration.")
            .with_example("music.play_drum(1, 0.25)")
    );
    register_core(registry, Ghost(95nat),
        BlockDefinition::new("music.rest", BlockCategory::Audio, "Rest/pause music for specified beats", BlockType::Void, "AudioSystem::rest")
            .with_param("beats", BlockType::Number, false, Some("0.25"), "Rest duration in beats")
            .with_doc("Pauses music playback for number of beats.")
            .with_example("music.rest(0.5)")
    );
}

fn register_group_8(registry: &mut BlockRegistry)
    requires
        old(registry).wf(),
        old(registry).holds_core_prefix(96),
    ensures
        final(registry).wf(),
        final(registry).holds_core_prefix(103),
        forall|n: Seq<char>| #[trigger] final(registry).has(n) <==> (old(registry).has(n) || core_group_8(n)),
{
    register_core(registry, Ghost(96nat),
        BlockDefinition::new("pen.change_size", BlockCategory::Pen, "Change pen line thickness by delta", BlockType::Void, "PenSystem::changeSize")
            .with_param("delta", BlockType::Number, false, Some("1"), "Delta thickness")
            .with_doc("Adjusts the pen line thickness.")
            .with_example("pen.change_size(2)")
    );
    register_core(registry, Ghost(97nat),
        BlockDefinition::new("pen.change_color", BlockCategory::Pen, "Change pen color hue by delta", BlockType::Void, "PenSystem::changeColor")
            .with_param("delta", BlockType::Number, false, Some("10"), "Hue delta value")
            .with_doc("Increments pen color hue value.")
            .with_example("pen.change_color(10)")
    );
    register_core(registry, Ghost(98nat),
        BlockDefinition::new("pen.set_shade", BlockCategory::Pen, "Set pen darkness/shade percentage", BlockType::Void, "PenSystem::setShade")
            .with_param("shade", BlockType::Number, false, Some("50"), "Shade percentage (0 - 100)")
            .with_doc("Sets pen darkness/brightness shade.")
            .with_example("pen.set_shade(70)")
    );
    register_core(registry, Ghost(99nat),
        BlockDefinition::new("pen.change_shade", BlockCategory::Pen, "Change pen darkness/shade by delta", BlockType::Void, "PenSystem::changeShade")
            .with_param("delta", BlockType::Number, false, Some("10"), "Delta shade")
            .with_doc("Adjusts pen darkness/brightness shade.")
            .with_example("pen.change_shade(-10)")
    );
    register_core(registry, Ghost(100nat),
        BlockDefinition::new("current_time", BlockCategory::Sensing, "Get current system time unit value", BlockType::Number, "SensingSystem::currentTime")
            .with_param("unit", BlockType::String, false, Some("\"second\""), "Time unit (year, month, date, day_of_week, hour, minute, second)")
            .with_doc("Queries current system calendar date or clock time.")
            .with_example("hr = current_time(\"hour\")")
    );
    register_core(registry, Ghost(101nat),
        BlockDefinition::new("days_since_2000", BlockCategory::Sensing, "Days elapsed since January 1, 2000", BlockType::Number, "SensingSystem::daysSince2000")
            .with_doc("Returns exact decimal days since Jan 1, 2000 00:00:00 UTC.")
            .with_example("days = days_since_2000()")
    );
    register_core(registry, Ghost(102nat),
        BlockDefinition::new("get_username", BlockCategory::Sensing, "Get current player username", BlockType::String, "SensingSystem::getUsername")
            .with_doc("Returns the username of the active player or environment.")
            .with_example("name = get_username()")
    );
}

impl BlockRegistry {
    /// A registry populated with the standard core game blocks.
    pub fn core_blocks() -> (r: Self)
        ensures
            r.wf(),
            forall|n: Seq<char>| #[trigger] r.has(n) <==> is_core_block_name(n),
            forall|n: Seq<char>| #[trigger] r.lookup_def(n) == core_catalogue(n),
    {
        let mut registry = BlockRegistry::new();
        register_group_0(&mut registry);
        register_group_1(&mut registry);
        register_group_2(&mut registry);
        register_group_3(&mut registry);
        register_group_4(&mut registry);
        register_group_5(&mut registry);
        register_group_6(&mut registry);
        register_group_7(&mut registry);
        register_group_8(&mut registry);
        registry
    }
}

} // verus!
