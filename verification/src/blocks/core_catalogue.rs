use vstd::prelude::*;
use crate::blocks::block::{DefV, ParamV};
use crate::blocks::types::{BlockCategory, BlockType};

verus! {

/// A parameter of a core block.
pub open spec fn core_param(
    name: Seq<char>,
    param_type: BlockType,
    optional: bool,
    default_value: Option<Seq<char>>,
    description: Seq<char>,
) -> ParamV {
    ParamV { name, param_type, optional, default_value, description }
}

/// A core block: its completion snippet is its name followed by `($0)`, it has no
/// trigger characters and no detail text, and it is neither deprecated nor flagged as
/// costly per frame.
pub open spec fn core_def(
    name: Seq<char>,
    category: BlockCategory,
    description: Seq<char>,
    return_type: BlockType,
    runtime_handler: Seq<char>,
    params: Seq<ParamV>,
    documentation: Seq<char>,
    examples: Seq<Seq<char>>,
) -> DefV {
    DefV {
        name,
        category,
        description,
        params,
        return_type,
        documentation,
        examples,
        snippet: name + "($0)"@,
        trigger_characters: Seq::empty(),
        detail: Seq::empty(),
        deprecated: false,
        deprecation_reason: None,
        per_frame_warning: false,
        runtime_handler,
    }
}

/// Entry `i` of group 0 of the core catalogue, in registration order.
pub open spec fn core_group_0_entry(i: int) -> DefV {
    if i == 0 {
        core_def(
            "move"@,
            BlockCategory::Movement,
            "Move an object by x and optional y pixels"@,
            BlockType::Void,
            "MovementSystem::move"@,
            Seq::empty()
                .push(core_param("target"@, BlockType::Object, false, None, "Target object or group to move"@))
                .push(core_param("x"@, BlockType::Number, false, None, "Horizontal delta in pixels"@))
                .push(core_param("y"@, BlockType::Number, true, Some("0"@), "Vertical delta in pixels"@)),
            "Moves the specified target object horizontally by x and vertically by y pixels."@,
            Seq::empty()
                .push("move(Player, 5)"@)
                .push("move(Player, -5, 2)"@),
        )
    } else if i == 1 {
        core_def(
            "jump"@,
            BlockCategory::Movement,
            "Apply upward jump force to an object"@,
            BlockType::Void,
            "MovementSystem::jump"@,
            Seq::empty()
                .push(core_param("target"@, BlockType::Object, false, None, "Target object to jump"@))
                .push(core_param("force"@, BlockType::Number, false, Some("10"@), "Upward jump force magnitude"@)),
            "Applies an immediate upward vertical impulse to the object."@,
            Seq::empty()
                .push("jump(Player, 12)"@),
        )
    } else if i == 2 {
        core_def(
            "stop"@,
            BlockCategory::Movement,
            "Immediately stop movement of an object"@,
            BlockType::Void,
            "MovementSystem::stop"@,
            Seq::empty()
                .push(core_param("target"@, BlockType::Object, false, None, "Target object to stop"@)),
            "Sets the target's linear velocity to zero."@,
            Seq::empty()
                .push("stop(Player)"@),
        )
    } else if i == 3 {
        core_def(
            "teleport"@,
            BlockCategory::Movement,
            "Teleport object directly to coordinates"@,
            BlockType::Void,
            "MovementSystem::teleport"@,
            Seq::empty()
                .push(core_param("target"@, BlockType::Object, false, None, "Target object"@))
                .push(core_param("x"@, BlockType::Number, false, None, "New X coordinate"@))
                .push(core_param("y"@, BlockType::Number, false, None, "New Y coordinate"@)),
            "Instantly sets the object position to (x, y)."@,
            Seq::empty()
                .push("teleport(Player, 100, 300)"@),
        )
    } else if i == 4 {
        core_def(
            "touching"@,
            BlockCategory::Condition,
            "Check if two objects or groups are colliding"@,
            BlockType::Boolean,
            "CollisionSystem::touching"@,
            Seq::empty()
                .push(core_param("target"@, BlockType::Object, false, None, "First object or group"@))
                .push(core_param("other"@, BlockType::Object, false, None, "Second object or group"@)),
            "Returns true if target's collider overlaps other's collider."@,
            Seq::empty()
                .push("if touching(Player, Enemy):"@),
        )
    } else if i == 5 {
        core_def(
            "damage"@,
            BlockCategory::Gameplay,
            "Deal damage to target"@,
            BlockType::Void,
            "GameplaySystem::damage"@,
            Seq::empty()
                .push(core_param("target"@, BlockType::Object, false, None, "Target object"@))
                .push(core_param("amount"@, BlockType::Number, false, Some("1"@), "Amount of damage"@)),
            "Reduces the target's health by the specified amount."@,
            Seq::empty()
                .push("damage(Player, 1)"@),
        )
    } else if i == 6 {
        core_def(
            "heal"@,
            BlockCategory::Gameplay,
            "Restore health to target"@,
            BlockType::Void,
            "GameplaySystem::heal"@,
            Seq::empty()
                .push(core_param("target"@, BlockType::Object, false, None, "Target object"@))
                .push(core_param("amount"@, BlockType::Number, false, Some("1"@), "Amount of health to restore"@)),
            "Increases the target's health by the specified amount."@,
            Seq::empty()
                .push("heal(Player, 1)"@),
        )
    } else if i == 7 {
        core_def(
            "respawn"@,
            BlockCategory::Gameplay,
            "Respawn target at initial position"@,
            BlockType::Void,
            "GameplaySystem::respawn"@,
            Seq::empty()
                .push(core_param("target"@, BlockType::Object, false, None, "Target object"@)),
            "Resets the target to its original spawn position and default properties."@,
            Seq::empty()
                .push("respawn(Player)"@),
        )
    } else if i == 8 {
        core_def(
            "collect"@,
            BlockCategory::Gameplay,
            "Collect and remove collectible object"@,
            BlockType::Void,
            "GameplaySystem::collect"@,
            Seq::empty()
                .push(core_param("target"@, BlockType::Object, false, None, "Collectible object"@)),
            "Hides or destroys the collectible object."@,
            Seq::empty()
                .push("collect(Coin)"@),
        )
    } else if i == 9 {
        core_def(
            "sound.play"@,
            BlockCategory::Audio,
            "Play a sound effect by name"@,
            BlockType::Void,
            "AudioSystem::play"@,
            Seq::empty()
                .push(core_param("name"@, BlockType::String, false, None, "Sound asset name"@)),
            "Plays the specified audio asset."@,
            Seq::empty()
                .push("sound.play(\"coin\")"@),
        )
    } else if i == 10 {
        core_def(
            "camera.follow"@,
            BlockCategory::Camera,
            "Make camera follow target object"@,
            BlockType::Void,
            "CameraSystem::follow"@,
            Seq::empty()
                .push(core_param("target"@, BlockType::Object, false, None, "Target object to track"@)),
            "Configures the main 2D camera to smoothly follow the target entity."@,
            Seq::empty()
                .push("camera.follow(Player)"@),
        )
    } else {
        core_def(
            "background.set"@,
            BlockCategory::Scene,
            "Set scene background color or image"@,
            BlockType::Void,
            "SceneSystem::setBackground"@,
            Seq::empty()
                .push(core_param("value"@, BlockType::String, false, None, "Color name (e.g. \"white\") or asset name"@)),
            "Updates the background."@,
            Seq::empty()
                .push("background.set(\"forest\")"@),
        )
    }
}

/// Entry `i` of group 1 of the core catalogue, in registration order.
pub open spec fn core_group_1_entry(i: int) -> DefV {
    if i == 0 {
        core_def(
            "scene.switch"@,
            BlockCategory::Scene,
            "Switch to a new scene by name"@,
            BlockType::Void,
            "SceneSystem::switch"@,
            Seq::empty()
                .push(core_param("name"@, BlockType::String, false, None, "Scene name"@)),
            "Transitions execution to the specified scene level."@,
            Seq::empty()
                .push("scene.switch(\"Level2\")"@),
        )
    } else if i == 1 {
        core_def(
            "scene.restart"@,
            BlockCategory::Scene,
            "Restart the current scene"@,
            BlockType::Void,
            "SceneSystem::restart"@,
            Seq::empty(),
            "Reloads the current scene layout and object states."@,
            Seq::empty()
                .push("scene.restart()"@),
        )
    } else if i == 2 {
        core_def(
            "change_x"@,
            BlockCategory::Movement,
            "Change object X coordinate by delta"@,
            BlockType::Void,
            "MovementSystem::changeX"@,
            Seq::empty()
                .push(core_param("target"@, BlockType::Object, false, None, "Target entity"@))
                .push(core_param("dx"@, BlockType::Number, false, None, "Horizontal delta in pixels"@)),
            "Increases or decreases the target entity's X position."@,
            Seq::empty()
                .push("change_x(Player, 10)"@),
        )
    } else if i == 3 {
        core_def(
            "set_x"@,
            BlockCategory::Movement,
            "Set object X coordinate directly"@,
            BlockType::Void,
            "MovementSystem::setX"@,
            Seq::empty()
                .push(core_param("target"@, BlockType::Object, false, None, "Target entity"@))
                .push(core_param("x"@, BlockType::Number, false, None, "New X coordinate"@)),
            "Directly assigns the target entity's horizontal position."@,
            Seq::empty()
                .push("set_x(Player, 0)"@),
        )
    } else if i == 4 {
        core_def(
            "change_y"@,
            BlockCategory::Movement,
            "Change object Y coordinate by delta"@,
            BlockType::Void,
            "MovementSystem::changeY"@,
            Seq::empty()
                .push(core_param("target"@, BlockType::Object, false, None, "Target entity"@))
                .push(core_param("dy"@, BlockType::Number, false, None, "Vertical delta in pixels"@)),
            "Increases or decreases the target entity's Y position."@,
            Seq::empty()
                .push("change_y(Player, 10)"@),
        )
    } else if i == 5 {
        core_def(
            "set_y"@,
            BlockCategory::Movement,
            "Set object Y coordinate directly"@,
            BlockType::Void,
            "MovementSystem::setY"@,
            Seq::empty()
                .push(core_param("target"@, BlockType::Object, false, None, "Target entity"@))
                .push(core_param("y"@, BlockType::Number, false, None, "New Y coordinate"@)),
            "Directly assigns the target entity's vertical position."@,
            Seq::empty()
                .push("set_y(Player, 0)"@),
        )
    } else if i == 6 {
        core_def(
            "turn_right"@,
            BlockCategory::Movement,
            "Rotate object clockwise by degrees"@,
            BlockType::Void,
            "MovementSystem::turnRight"@,
            Seq::empty()
                .push(core_param("target"@, BlockType::Object, false, None, "Target entity"@))
                .push(core_param("degrees"@, BlockType::Number, false, Some("15"@), "Degrees to rotate clockwise"@)),
            "Rotates the sprite clockwise around its center point."@,
            Seq::empty()
                .push("turn_right(Player, 15)"@),
        )
    } else if i == 7 {
        core_def(
            "turn_left"@,
            BlockCategory::Movement,
            "Rotate object counter-clockwise by degrees"@,
            BlockType::Void,
            "MovementSystem::turnLeft"@,
            Seq::empty()
                .push(core_param("target"@, BlockType::Object, false, None, "Target entity"@))
                .push(core_param("degrees"@, BlockType::Number, false, Some("15"@), "Degrees to rotate counter-clockwise"@)),
            "Rotates the sprite counter-clockwise around its center point."@,
            Seq::empty()
                .push("turn_left(Player, 15)"@),
        )
    } else if i == 8 {
        core_def(
            "point_in_direction"@,
            BlockCategory::Movement,
            "Set absolute facing angle of sprite"@,
            BlockType::Void,
            "MovementSystem::pointInDirection"@,
            Seq::empty()
                .push(core_param("target"@, BlockType::Object, false, None, "Target entity"@))
                .push(core_param("degrees"@, BlockType::Number, false, Some("90"@), "Absolute direction (0: up, 90: right, 180: down, 270: left)"@)),
            "Points the sprite in an exact direction in degrees."@,
            Seq::empty()
                .push("point_in_direction(Player, 90)"@),
        )
    } else if i == 9 {
        core_def(
            "point_towards"@,
            BlockCategory::Movement,
            "Point sprite towards another entity or mouse"@,
            BlockType::Void,
            "MovementSystem::pointTowards"@,
            Seq::empty()
                .push(core_param("target"@, BlockType::Object, false, None, "Target entity"@))
                .push(core_param("other"@, BlockType::Object, false, None, "Entity or 'mouse' to face towards"@)),
            "Adjusts the target's rotation so it faces directly at the other entity."@,
            Seq::empty()
                .push("point_towards(Player, Enemy)"@),
        )
    } else if i == 10 {
        core_def(
            "bounce_on_edge"@,
            BlockCategory::Movement,
            "Bounce sprite if touching stage boundaries"@,
            BlockType::Void,
            "MovementSystem::bounceOnEdge"@,
            Seq::empty()
                .push(core_param("target"@, BlockType::Object, false, None, "Target entity"@)),
            "Inverts the velocity direction if the sprite collides with stage borders."@,
            Seq::empty()
                .push("bounce_on_edge(Player)"@),
        )
    } else {
        core_def(
            "distance_to"@,
            BlockCategory::Sensing,
            "Calculate Euclidean distance between two entities"@,
            BlockType::Number,
            "SensingSystem::distanceTo"@,
            Seq::empty()
                .push(core_param("target"@, BlockType::Object, false, None, "First entity"@))
                .push(core_param("other"@, BlockType::Object, false, None, "Second entity"@)),
            "Returns the distance in pixels between the centers of two entities."@,
            Seq::empty()
                .push("if distance_to(Player, Enemy) < 100:"@),
        )
    }
}

/// Entry `i` of group 2 of the core catalogue, in registration order.
pub open spec fn core_group_2_entry(i: int) -> DefV {
    if i == 0 {
        core_def(
            "x_position"@,
            BlockCategory::Movement,
            "Get X coordinate of target object"@,
            BlockType::Number,
            "MovementSystem::getX"@,
            Seq::empty()
                .push(core_param("target"@, BlockType::Object, false, None, "Target entity"@)),
            "Returns the current X position of the target entity."@,
            Seq::empty()
                .push("current_x = x_position(Player)"@),
        )
    } else if i == 1 {
        core_def(
            "y_position"@,
            BlockCategory::Movement,
            "Get Y coordinate of target object"@,
            BlockType::Number,
            "MovementSystem::getY"@,
            Seq::empty()
                .push(core_param("target"@, BlockType::Object, false, None, "Target entity"@)),
            "Returns the current Y position of the target entity."@,
            Seq::empty()
                .push("current_y = y_position(Player)"@),
        )
    } else if i == 2 {
        core_def(
            "say"@,
            BlockCategory::Looks,
            "Show speech bubble text above sprite"@,
            BlockType::Void,
            "LooksSystem::say"@,
            Seq::empty()
                .push(core_param("target"@, BlockType::Object, false, None, "Target entity"@))
                .push(core_param("text"@, BlockType::String, false, None, "Message text to display"@)),
            "Renders a speech dialogue bubble above the sprite on stage."@,
            Seq::empty()
                .push("say(Player, \"Hello, world!\")"@),
        )
    } else if i == 3 {
        core_def(
            "say_for"@,
            BlockCategory::Looks,
            "Show speech bubble text for duration"@,
            BlockType::Void,
            "LooksSystem::sayFor"@,
            Seq::empty()
                .push(core_param("target"@, BlockType::Object, false, None, "Target entity"@))
                .push(core_param("text"@, BlockType::String, false, None, "Message text"@))
                .push(core_param("seconds"@, BlockType::Number, false, Some("2"@), "Duration in seconds"@)),
            "Renders a speech bubble above the sprite for a timed duration."@,
            Seq::empty()
                .push("say_for(Player, \"Nice job!\", 2)"@),
        )
    } else if i == 4 {
        core_def(
            "think"@,
            BlockCategory::Looks,
            "Show thought bubble above sprite"@,
            BlockType::Void,
            "LooksSystem::think"@,
            Seq::empty()
                .push(core_param("target"@, BlockType::Object, false, None, "Target entity"@))
                .push(core_param("text"@, BlockType::String, false, None, "Thought text"@)),
            "Renders a cloud thought bubble above the sprite."@,
            Seq::empty()
                .push("think(Player, \"Hmm...\")"@),
        )
    } else if i == 5 {
        core_def(
            "show"@,
            BlockCategory::Looks,
            "Make sprite visible on stage"@,
            BlockType::Void,
            "LooksSystem::show"@,
            Seq::empty()
                .push(core_param("target"@, BlockType::Object, false, None, "Target entity"@)),
            "Makes the sprite visible if it was previously hidden."@,
            Seq::empty()
                .push("show(Player)"@),
        )
    } else if i == 6 {
        core_def(
            "hide"@,
            BlockCategory::Looks,
            "Hide sprite from stage"@,
            BlockType::Void,
            "LooksSystem::hide"@,
            Seq::empty()
                .push(core_param("target"@, BlockType::Object, false, None, "Target entity"@)),
            "Hides the sprite from the stage without deleting it."@,
            Seq::empty()
                .push("hide(Player)"@),
        )
    } else if i == 7 {
        core_def(
            "set_size"@,
            BlockCategory::Looks,
            "Set sprite scale percentage"@,
            BlockType::Void,
            "LooksSystem::setSize"@,
            Seq::empty()
                .push(core_param("target"@, BlockType::Object, false, None, "Target entity"@))
                .push(core_param("percent"@, BlockType::Number, false, Some("100"@), "Scale percentage (100 is normal size)"@)),
            "Sets the visual scale of the sprite as a percentage."@,
            Seq::empty()
                .push("set_size(Player, 150)"@),
        )
    } else if i == 8 {
        core_def(
            "change_size"@,
            BlockCategory::Looks,
            "Change sprite scale percentage by delta"@,
            BlockType::Void,
            "LooksSystem::changeSize"@,
            Seq::empty()
                .push(core_param("target"@, BlockType::Object, false, None, "Target entity"@))
                .push(core_param("delta"@, BlockType::Number, false, Some("10"@), "Percentage delta to add or subtract"@)),
            "Increases or decreases sprite size percentage."@,
            Seq::empty()
                .push("change_size(Player, -10)"@),
        )
    } else if i == 9 {
        core_def(
            "next_costume"@,
            BlockCategory::Looks,
            "Switch sprite to next costume frame"@,
            BlockType::Void,
            "LooksSystem::nextCostume"@,
            Seq::empty()
                .push(core_param("target"@, BlockType::Object, false, None, "Target entity"@)),
            "Cycles the sprite appearance to its next costume asset."@,
            Seq::empty()
                .push("next_costume(Player)"@),
        )
    } else if i == 10 {
        core_def(
            "switch_costume"@,
            BlockCategory::Looks,
            "Switch sprite to named costume asset"@,
            BlockType::Void,
            "LooksSystem::switchCostume"@,
            Seq::empty()
                .push(core_param("target"@, BlockType::Object, false, None, "Target entity"@))
                .push(core_param("name"@, BlockType::String, false, None, "Costume / sprite asset name"@)),
            "Sets the active costume of the sprite by name."@,
            Seq::empty()
                .push("switch_costume(Player, \"running\")"@),
        )
    } else {
        core_def(
            "clear_effects"@,
            BlockCategory::Looks,
            "Clear all graphical shader effects"@,
            BlockType::Void,
            "LooksSystem::clearEffects"@,
            Seq::empty()
                .push(core_param("target"@, BlockType::Object, false, None, "Target entity"@)),
            "Removes color, ghost transparency, and brightness filters from the sprite."@,
            Seq::empty()
                .push("clear_effects(Player)"@),
        )
    }
}

/// Entry `i` of group 3 of the core catalogue, in registration order.
pub open spec fn core_group_3_entry(i: int) -> DefV {
    if i == 0 {
        core_def(
            "set_effect"@,
            BlockCategory::Looks,
            "Set visual shader effect value"@,
            BlockType::Void,
            "LooksSystem::setEffect"@,
            Seq::empty()
                .push(core_param("target"@, BlockType::Object, false, None, "Target entity"@))
                .push(core_param("effect"@, BlockType::String, false, None, "Effect name (e.g. \"ghost\", \"brightness\", \"color\")"@))
                .push(core_param("value"@, BlockType::Number, false, Some("0"@), "Effect intensity value"@)),
            "Applies a visual filter or transparency effect to the sprite."@,
            Seq::empty()
                .push("set_effect(Player, \"ghost\", 50)"@),
        )
    } else if i == 1 {
        core_def(
            "next_backdrop"@,
            BlockCategory::Scene,
            "Cycle stage to next background"@,
            BlockType::Void,
            "SceneSystem::nextBackdrop"@,
            Seq::empty(),
            "Cycles stage appearance to the next backdrop."@,
            Seq::empty()
                .push("next_backdrop()"@),
        )
    } else if i == 2 {
        core_def(
            "sound.stop_all"@,
            BlockCategory::Audio,
            "Stop all playing sounds and music"@,
            BlockType::Void,
            "AudioSystem::stopAll"@,
            Seq::empty(),
            "Halts all active sound effects and background music tracks immediately."@,
            Seq::empty()
                .push("sound.stop_all()"@),
        )
    } else if i == 3 {
        core_def(
            "sound.set_volume"@,
            BlockCategory::Audio,
            "Set audio volume percentage"@,
            BlockType::Void,
            "AudioSystem::setVolume"@,
            Seq::empty()
                .push(core_param("percent"@, BlockType::Number, false, Some("100"@), "Volume percentage (0 to 100)"@)),
            "Sets master audio playback volume."@,
            Seq::empty()
                .push("sound.set_volume(80)"@),
        )
    } else if i == 4 {
        core_def(
            "sound.change_volume"@,
            BlockCategory::Audio,
            "Change audio volume percentage by delta"@,
            BlockType::Void,
            "AudioSystem::changeVolume"@,
            Seq::empty()
                .push(core_param("delta"@, BlockType::Number, false, Some("-10"@), "Volume delta to add or subtract"@)),
            "Increases or decreases audio playback volume."@,
            Seq::empty()
                .push("sound.change_volume(-10)"@),
        )
    } else if i == 5 {
        core_def(
            "music.play_note"@,
            BlockCategory::Audio,
            "Play musical note for specified beats"@,
            BlockType::Void,
            "AudioSystem::playNote"@,
            Seq::empty()
                .push(core_param("note"@, BlockType::Number, false, Some("60"@), "MIDI note number (60 is middle C)"@))
                .push(core_param("beats"@, BlockType::Number, false, Some("0.5"@), "Duration in musical beats"@)),
            "Synthesizes a musical tone using the active tempo."@,
            Seq::empty()
                .push("music.play_note(60, 0.5)"@),
        )
    } else if i == 6 {
        core_def(
            "music.set_tempo"@,
            BlockCategory::Audio,
            "Set music tempo in beats per minute"@,
            BlockType::Void,
            "AudioSystem::setTempo"@,
            Seq::empty()
                .push(core_param("bpm"@, BlockType::Number, false, Some("60"@), "Tempo in beats per minute"@)),
            "Sets the tempo speed for musical notes and percussion."@,
            Seq::empty()
                .push("music.set_tempo(120)"@),
        )
    } else if i == 7 {
        core_def(
            "mouse_x"@,
            BlockCategory::Sensing,
            "Get current mouse X screen coordinate"@,
            BlockType::Number,
            "SensingSystem::mouseX"@,
            Seq::empty(),
            "Returns the horizontal position of the mouse cursor."@,
            Seq::empty()
                .push("if mouse_x() > 640:"@),
        )
    } else if i == 8 {
        core_def(
            "mouse_y"@,
            BlockCategory::Sensing,
            "Get current mouse Y screen coordinate"@,
            BlockType::Number,
            "SensingSystem::mouseY"@,
            Seq::empty(),
            "Returns the vertical position of the mouse cursor."@,
            Seq::empty()
                .push("if mouse_y() > 360:"@),
        )
    } else if i == 9 {
        core_def(
            "mouse_down"@,
            BlockCategory::Sensing,
            "Check if left mouse button is pressed"@,
            BlockType::Boolean,
            "SensingSystem::mouseDown"@,
            Seq::empty(),
            "Returns true if the user is holding down the left mouse button."@,
            Seq::empty()
                .push("if mouse_down():"@),
        )
    } else if i == 10 {
        core_def(
            "key_pressed"@,
            BlockCategory::Sensing,
            "Check if a key or action is pressed"@,
            BlockType::Boolean,
            "SensingSystem::keyPressed"@,
            Seq::empty()
                .push(core_param("key"@, BlockType::String, false, None, "Action or key name (e.g. \"space\", \"jump\", \"left\")"@)),
            "Returns true if the designated key or action is currently active."@,
            Seq::empty()
                .push("if key_pressed(\"space\"):"@),
        )
    } else {
        core_def(
            "get_timer"@,
            BlockCategory::Sensing,
            "Get elapsed time since game start or reset"@,
            BlockType::Number,
            "SensingSystem::getTimer"@,
            Seq::empty(),
            "Returns the number of elapsed seconds on the runtime clock."@,
            Seq::empty()
                .push("elapsed = get_timer()"@),
        )
    }
}

/// Entry `i` of group 4 of the core catalogue, in registration order.
pub open spec fn core_group_4_entry(i: int) -> DefV {
    if i == 0 {
        core_def(
            "reset_timer"@,
            BlockCategory::Sensing,
            "Reset game timer to zero"@,
            BlockType::Void,
            "SensingSystem::resetTimer"@,
            Seq::empty(),
            "Resets the internal elapsed seconds timer to 0."@,
            Seq::empty()
                .push("reset_timer()"@),
        )
    } else if i == 1 {
        core_def(
            "wait"@,
            BlockCategory::Control,
            "Wait for a duration in seconds"@,
            BlockType::Void,
            "ControlSystem::wait"@,
            Seq::empty()
                .push(core_param("seconds"@, BlockType::Number, false, Some("1"@), "Time to pause in seconds"@)),
            "Delays execution of the handler for the given seconds."@,
            Seq::empty()
                .push("wait(1)"@),
        )
    } else if i == 2 {
        core_def(
            "clone"@,
            BlockCategory::Control,
            "Spawn a duplicate clone of target sprite"@,
            BlockType::Void,
            "ControlSystem::clone"@,
            Seq::empty()
                .push(core_param("target"@, BlockType::Object, false, None, "Target entity to clone"@)),
            "Instantiates a clone of the sprite with identical components."@,
            Seq::empty()
                .push("clone(Coin)"@),
        )
    } else if i == 3 {
        core_def(
            "delete_clone"@,
            BlockCategory::Control,
            "Delete current cloned entity instance"@,
            BlockType::Void,
            "ControlSystem::deleteClone"@,
            Seq::empty()
                .push(core_param("target"@, BlockType::Object, false, None, "Clone entity to destroy"@)),
            "Removes the cloned entity from the active scene."@,
            Seq::empty()
                .push("delete_clone(Player)"@),
        )
    } else if i == 4 {
        core_def(
            "stop_all"@,
            BlockCategory::Control,
            "Stop all active game scripts and execution"@,
            BlockType::Void,
            "ControlSystem::stopAll"@,
            Seq::empty(),
            "Immediately terminates all running game events and halts the game loop."@,
            Seq::empty()
                .push("stop_all()"@),
        )
    } else if i == 5 {
        core_def(
            "random"@,
            BlockCategory::Operators,
            "Pick random number between min and max"@,
            BlockType::Number,
            "MathSystem::random"@,
            Seq::empty()
                .push(core_param("min"@, BlockType::Number, false, Some("1"@), "Minimum value"@))
                .push(core_param("max"@, BlockType::Number, false, Some("10"@), "Maximum value"@)),
            "Returns a uniformly distributed random number between min and max inclusive."@,
            Seq::empty()
                .push("roll = random(1, 6)"@),
        )
    } else if i == 6 {
        core_def(
            "math.round"@,
            BlockCategory::Operators,
            "Round number to nearest whole integer"@,
            BlockType::Number,
            "MathSystem::round"@,
            Seq::empty()
                .push(core_param("n"@, BlockType::Number, false, None, "Input decimal number"@)),
            "Rounds a floating-point number to the nearest integer."@,
            Seq::empty()
                .push("val = math.round(4.6)"@),
        )
    } else if i == 7 {
        core_def(
            "math.abs"@,
            BlockCategory::Operators,
            "Absolute value of a number"@,
            BlockType::Number,
            "MathSystem::abs"@,
            Seq::empty()
                .push(core_param("n"@, BlockType::Number, false, None, "Input number"@)),
            "Returns the positive magnitude of a number."@,
            Seq::empty()
                .push("dist = math.abs(x1 - x2)"@),
        )
    } else if i == 8 {
        core_def(
            "math.sqrt"@,
            BlockCategory::Operators,
            "Square root of a number"@,
            BlockType::Number,
            "MathSystem::sqrt"@,
            Seq::empty()
                .push(core_param("n"@, BlockType::Number, false, None, "Input non-negative number"@)),
            "Calculates the principal square root."@,
            Seq::empty()
                .push("hyp = math.sqrt(a * a + b * b)"@),
        )
    } else if i == 9 {
        core_def(
            "math.sin"@,
            BlockCategory::Operators,
            "Sine of angle in degrees"@,
            BlockType::Number,
            "MathSystem::sin"@,
            Seq::empty()
                .push(core_param("degrees"@, BlockType::Number, false, None, "Angle in degrees"@)),
            "Computes the trigonometric sine."@,
            Seq::empty()
                .push("y_offset = math.sin(angle) * 10"@),
        )
    } else if i == 10 {
        core_def(
            "math.cos"@,
            BlockCategory::Operators,
            "Cosine of angle in degrees"@,
            BlockType::Number,
            "MathSystem::cos"@,
            Seq::empty()
                .push(core_param("degrees"@, BlockType::Number, false, None, "Angle in degrees"@)),
            "Computes the trigonometric cosine."@,
            Seq::empty()
                .push("x_offset = math.cos(angle) * 10"@),
        )
    } else {
        core_def(
            "text.join"@,
            BlockCategory::Operators,
            "Concatenate two strings"@,
            BlockType::String,
            "TextSystem::join"@,
            Seq::empty()
                .push(core_param("a"@, BlockType::String, false, None, "First string"@))
                .push(core_param("b"@, BlockType::String, false, None, "Second string"@)),
            "Attaches the second string to the end of the first string."@,
            Seq::empty()
                .push("msg = text.join(\"Score: \", score)"@),
        )
    }
}

/// Entry `i` of group 5 of the core catalogue, in registration order.
pub open spec fn core_group_5_entry(i: int) -> DefV {
    if i == 0 {
        core_def(
            "text.length"@,
            BlockCategory::Operators,
            "Get character length of a string"@,
            BlockType::Number,
            "TextSystem::length"@,
            Seq::empty()
                .push(core_param("s"@, BlockType::String, false, None, "Input string"@)),
            "Returns the number of characters in the text."@,
            Seq::empty()
                .push("len = text.length(player_name)"@),
        )
    } else if i == 1 {
        core_def(
            "pen.clear"@,
            BlockCategory::Pen,
            "Clear all canvas drawing trails"@,
            BlockType::Void,
            "PenSystem::clear"@,
            Seq::empty(),
            "Erases all drawn lines and stamps from the stage canvas."@,
            Seq::empty()
                .push("pen.clear()"@),
        )
    } else if i == 2 {
        core_def(
            "pen.down"@,
            BlockCategory::Pen,
            "Put pen down to draw movement trails"@,
            BlockType::Void,
            "PenSystem::down"@,
            Seq::empty()
                .push(core_param("target"@, BlockType::Object, false, None, "Target entity"@)),
            "Lowers the pen so lines are drawn whenever the sprite moves."@,
            Seq::empty()
                .push("pen.down(Player)"@),
        )
    } else if i == 3 {
        core_def(
            "pen.up"@,
            BlockCategory::Pen,
            "Lift pen up to stop drawing trails"@,
            BlockType::Void,
            "PenSystem::up"@,
            Seq::empty()
                .push(core_param("target"@, BlockType::Object, false, None, "Target entity"@)),
            "Raises the pen so moving the sprite does not draw lines."@,
            Seq::empty()
                .push("pen.up(Player)"@),
        )
    } else if i == 4 {
        core_def(
            "pen.set_color"@,
            BlockCategory::Pen,
            "Set pen line stroke color"@,
            BlockType::Void,
            "PenSystem::setColor"@,
            Seq::empty()
                .push(core_param("color"@, BlockType::String, false, None, "Color name or hex string"@)),
            "Sets the color of lines drawn by the pen."@,
            Seq::empty()
                .push("pen.set_color(\"red\")"@),
        )
    } else if i == 5 {
        core_def(
            "pen.set_size"@,
            BlockCategory::Pen,
            "Set pen line thickness in pixels"@,
            BlockType::Void,
            "PenSystem::setSize"@,
            Seq::empty()
                .push(core_param("size"@, BlockType::Number, false, Some("1"@), "Line thickness in pixels"@)),
            "Sets the line thickness of pen drawings."@,
            Seq::empty()
                .push("pen.set_size(3)"@),
        )
    } else if i == 6 {
        core_def(
            "pen.stamp"@,
            BlockCategory::Pen,
            "Stamp sprite image onto stage"@,
            BlockType::Void,
            "PenSystem::stamp"@,
            Seq::empty()
                .push(core_param("target"@, BlockType::Object, false, None, "Target entity"@)),
            "Draws an imprint of the sprite's current costume onto the stage canvas."@,
            Seq::empty()
                .push("pen.stamp(Player)"@),
        )
    } else if i == 7 {
        core_def(
            "math.floor"@,
            BlockCategory::Operators,
            "Round number down to nearest integer"@,
            BlockType::Number,
            "MathSystem::floor"@,
            Seq::empty()
                .push(core_param("n"@, BlockType::Number, false, None, "Input decimal number"@)),
            "Returns the largest integer less than or equal to n."@,
            Seq::empty()
                .push("val = math.floor(4.9)"@),
        )
    } else if i == 8 {
        core_def(
            "math.ceil"@,
            BlockCategory::Operators,
            "Round number up to nearest integer"@,
            BlockType::Number,
            "MathSystem::ceil"@,
            Seq::empty()
                .push(core_param("n"@, BlockType::Number, false, None, "Input decimal number"@)),
            "Returns the smallest integer greater than or equal to n."@,
            Seq::empty()
                .push("val = math.ceil(4.1)"@),
        )
    } else if i == 9 {
        core_def(
            "math.tan"@,
            BlockCategory::Operators,
            "Tangent of angle in degrees"@,
            BlockType::Number,
            "MathSystem::tan"@,
            Seq::empty()
                .push(core_param("degrees"@, BlockType::Number, false, None, "Angle in degrees"@)),
            "Computes the trigonometric tangent."@,
            Seq::empty()
                .push("slope = math.tan(angle)"@),
        )
    } else if i == 10 {
        core_def(
            "math.asin"@,
            BlockCategory::Operators,
            "Arcsine in degrees"@,
            BlockType::Number,
            "MathSystem::asin"@,
            Seq::empty()
                .push(core_param("n"@, BlockType::Number, false, None, "Value between -1.0 and 1.0"@)),
            "Calculates inverse sine in degrees."@,
            Seq::empty()
                .push("angle = math.asin(0.5)"@),
        )
    } else {
        core_def(
            "math.acos"@,
            BlockCategory::Operators,
            "Arccosine in degrees"@,
            BlockType::Number,
            "MathSystem::acos"@,
            Seq::empty()
                .push(core_param("n"@, BlockType::Number, false, None, "Value between -1.0 and 1.0"@)),
            "Calculates inverse cosine in degrees."@,
            Seq::empty()
                .push("angle = math.acos(0.5)"@),
        )
    }
}

/// Entry `i` of group 6 of the core catalogue, in registration order.
pub open spec fn core_group_6_entry(i: int) -> DefV {
    if i == 0 {
        core_def(
            "math.atan"@,
            BlockCategory::Operators,
            "Arctangent in degrees"@,
            BlockType::Number,
            "MathSystem::atan"@,
            Seq::empty()
                .push(core_param("n"@, BlockType::Number, false, None, "Input number"@)),
            "Calculates inverse tangent in degrees."@,
            Seq::empty()
                .push("angle = math.atan(ratio)"@),
        )
    } else if i == 1 {
        core_def(
            "math.ln"@,
            BlockCategory::Operators,
            "Natural logarithm (base e)"@,
            BlockType::Number,
            "MathSystem::ln"@,
            Seq::empty()
                .push(core_param("n"@, BlockType::Number, false, None, "Input positive number"@)),
            "Calculates natural logarithm."@,
            Seq::empty()
                .push("log_val = math.ln(10)"@),
        )
    } else if i == 2 {
        core_def(
            "math.log"@,
            BlockCategory::Operators,
            "Common logarithm (base 10)"@,
            BlockType::Number,
            "MathSystem::log"@,
            Seq::empty()
                .push(core_param("n"@, BlockType::Number, false, None, "Input positive number"@)),
            "Calculates base-10 logarithm."@,
            Seq::empty()
                .push("orders = math.log(100)"@),
        )
    } else if i == 3 {
        core_def(
            "math.exp"@,
            BlockCategory::Operators,
            "Exponential e raised to power n"@,
            BlockType::Number,
            "MathSystem::exp"@,
            Seq::empty()
                .push(core_param("n"@, BlockType::Number, false, None, "Power exponent"@)),
            "Calculates e^n."@,
            Seq::empty()
                .push("val = math.exp(2)"@),
        )
    } else if i == 4 {
        core_def(
            "math.pow"@,
            BlockCategory::Operators,
            "Raise base to exponent power"@,
            BlockType::Number,
            "MathSystem::pow"@,
            Seq::empty()
                .push(core_param("base"@, BlockType::Number, false, None, "Base number"@))
                .push(core_param("exponent"@, BlockType::Number, false, None, "Exponent power"@)),
            "Calculates base^exponent."@,
            Seq::empty()
                .push("area = math.pow(radius, 2) * 3.14159"@),
        )
    } else if i == 5 {
        core_def(
            "math.mod"@,
            BlockCategory::Operators,
            "Euclidean modulo remainder"@,
            BlockType::Number,
            "MathSystem::mod"@,
            Seq::empty()
                .push(core_param("a"@, BlockType::Number, false, None, "Dividend"@))
                .push(core_param("b"@, BlockType::Number, false, None, "Divisor"@)),
            "Calculates positive mathematical modulo remainder."@,
            Seq::empty()
                .push("rem = math.mod(10, 3)"@),
        )
    } else if i == 6 {
        core_def(
            "math.min"@,
            BlockCategory::Operators,
            "Minimum of two numbers"@,
            BlockType::Number,
            "MathSystem::min"@,
            Seq::empty()
                .push(core_param("a"@, BlockType::Number, false, None, "First number"@))
                .push(core_param("b"@, BlockType::Number, false, None, "Second number"@)),
            "Returns the smaller of two numbers."@,
            Seq::empty()
                .push("lowest = math.min(health, max_health)"@),
        )
    } else if i == 7 {
        core_def(
            "math.max"@,
            BlockCategory::Operators,
            "Maximum of two numbers"@,
            BlockType::Number,
            "MathSystem::max"@,
            Seq::empty()
                .push(core_param("a"@, BlockType::Number, false, None, "First number"@))
                .push(core_param("b"@, BlockType::Number, false, None, "Second number"@)),
            "Returns the larger of two numbers."@,
            Seq::empty()
                .push("clamped = math.max(0, health)"@),
        )
    } else if i == 8 {
        core_def(
            "text.contains"@,
            BlockCategory::Operators,
            "Check if string contains substring"@,
            BlockType::Boolean,
            "TextSystem::contains"@,
            Seq::empty()
                .push(core_param("s"@, BlockType::String, false, None, "Source string"@))
                .push(core_param("substring"@, BlockType::String, false, None, "Substring to search for"@)),
            "Returns true if s contains substring."@,
            Seq::empty()
                .push("if text.contains(word, \"cat\"):"@),
        )
    } else if i == 9 {
        core_def(
            "text.letter_at"@,
            BlockCategory::Operators,
            "Get 1-indexed character of string"@,
            BlockType::String,
            "TextSystem::letterAt"@,
            Seq::empty()
                .push(core_param("s"@, BlockType::String, false, None, "Input string"@))
                .push(core_param("index"@, BlockType::Number, false, Some("1"@), "1-based character position"@)),
            "Returns the single character at the 1-based index."@,
            Seq::empty()
                .push("first = text.letter_at(\"world\", 1)"@),
        )
    } else if i == 10 {
        core_def(
            "text.upper"@,
            BlockCategory::Operators,
            "Convert text to uppercase"@,
            BlockType::String,
            "TextSystem::upper"@,
            Seq::empty()
                .push(core_param("s"@, BlockType::String, false, None, "Input string"@)),
            "Returns text converted entirely to uppercase."@,
            Seq::empty()
                .push("loud = text.upper(\"hello\")"@),
        )
    } else {
        core_def(
            "text.lower"@,
            BlockCategory::Operators,
            "Convert text to lowercase"@,
            BlockType::String,
            "TextSystem::lower"@,
            Seq::empty()
                .push(core_param("s"@, BlockType::String, false, None, "Input string"@)),
            "Returns text converted entirely to lowercase."@,
            Seq::empty()
                .push("quiet = text.lower(\"HELLO\")"@),
        )
    }
}

/// Entry `i` of group 7 of the core catalogue, in registration order.
pub open spec fn core_group_7_entry(i: int) -> DefV {
    if i == 0 {
        core_def(
            "get_direction"@,
            BlockCategory::Movement,
            "Get facing rotation of sprite in degrees"@,
            BlockType::Number,
            "MovementSystem::getDirection"@,
            Seq::empty()
                .push(core_param("target"@, BlockType::Object, false, None, "Target entity"@)),
            "Returns the current facing angle in degrees."@,
            Seq::empty()
                .push("angle = get_direction(Player)"@),
        )
    } else if i == 1 {
        core_def(
            "get_size"@,
            BlockCategory::Looks,
            "Get sprite scale percentage"@,
            BlockType::Number,
            "LooksSystem::getSize"@,
            Seq::empty()
                .push(core_param("target"@, BlockType::Object, false, None, "Target entity"@)),
            "Returns the current scale percentage of the sprite."@,
            Seq::empty()
                .push("scale = get_size(Player)"@),
        )
    } else if i == 2 {
        core_def(
            "get_costume_number"@,
            BlockCategory::Looks,
            "Get active costume number"@,
            BlockType::Number,
            "LooksSystem::getCostumeNumber"@,
            Seq::empty()
                .push(core_param("target"@, BlockType::Object, false, None, "Target entity"@)),
            "Returns the index of the sprite's active costume frame."@,
            Seq::empty()
                .push("c_num = get_costume_number(Player)"@),
        )
    } else if i == 3 {
        core_def(
            "get_backdrop_name"@,
            BlockCategory::Scene,
            "Get active scene backdrop name"@,
            BlockType::String,
            "SceneSystem::getBackdropName"@,
            Seq::empty(),
            "Returns the name of current background/backdrop."@,
            Seq::empty()
                .push("bg = get_backdrop_name()"@),
        )
    } else if i == 4 {
        core_def(
            "think_for"@,
            BlockCategory::Looks,
            "Show thought bubble for duration"@,
            BlockType::Void,
            "LooksSystem::thinkFor"@,
            Seq::empty()
                .push(core_param("target"@, BlockType::Object, false, None, "Target entity"@))
                .push(core_param("text"@, BlockType::String, false, None, "Thought text"@))
                .push(core_param("seconds"@, BlockType::Number, false, Some("2"@), "Duration in seconds"@)),
            "Displays a thought bubble for the specified time."@,
            Seq::empty()
                .push("think_for(Player, \"Hmm...\", 2)"@),
        )
    } else if i == 5 {
        core_def(
            "change_effect"@,
            BlockCategory::Looks,
            "Change visual shader effect by delta"@,
            BlockType::Void,
            "LooksSystem::changeEffect"@,
            Seq::empty()
                .push(core_param("target"@, BlockType::Object, false, None, "Target entity"@))
                .push(core_param("effect"@, BlockType::String, false, Some("\"color\""@), "Effect name"@))
                .push(core_param("delta"@, BlockType::Number, false, Some("25"@), "Delta amount"@)),
            "Alters a visual effect by delta value."@,
            Seq::empty()
                .push("change_effect(Player, \"ghost\", 25)"@),
        )
    } else if i == 6 {
        core_def(
            "sound.get_volume"@,
            BlockCategory::Audio,
            "Get current master audio volume"@,
            BlockType::Number,
            "AudioSystem::getVolume"@,
            Seq::empty(),
            "Returns master sound volume percentage (0 - 100)."@,
            Seq::empty()
                .push("vol = sound.get_volume()"@),
        )
    } else if i == 7 {
        core_def(
            "music.get_tempo"@,
            BlockCategory::Audio,
            "Get current music tempo BPM"@,
            BlockType::Number,
            "AudioSystem::getTempo"@,
            Seq::empty(),
            "Returns current musical tempo in beats per minute."@,
            Seq::empty()
                .push("bpm = music.get_tempo()"@),
        )
    } else if i == 8 {
        core_def(
            "music.change_tempo"@,
            BlockCategory::Audio,
            "Change music tempo by delta BPM"@,
            BlockType::Void,
            "AudioSystem::changeTempo"@,
            Seq::empty()
                .push(core_param("delta"@, BlockType::Number, false, Some("20"@), "Delta BPM"@)),
            "Adjusts music tempo BPM by delta."@,
            Seq::empty()
                .push("music.change_tempo(10)"@),
        )
    } else if i == 9 {
        core_def(
            "music.set_instrument"@,
            BlockCategory::Audio,
            "Set MIDI instrument sound preset"@,
            BlockType::Void,
            "AudioSystem::setInstrument"@,
            Seq::empty()
                .push(core_param("instrument"@, BlockType::Number, false, Some("1"@), "Instrument ID number"@)),
            "Selects instrument voice preset (1 - 21)."@,
            Seq::empty()
                .push("music.set_instrument(2)"@),
        )
    } else if i == 10 {
        core_def(
            "music.play_drum"@,
            BlockCategory::Audio,
            "Play drum instrument hit for beats"@,
            BlockType::Void,
            "AudioSystem::playDrum"@,
            Seq::empty()
                .push(core_param("drum"@, BlockType::Number, false, Some("1"@), "Drum ID (1 - 18)"@))
                .push(core_param("beats"@, BlockType::Number, false, Some("0.25"@), "Duration in beats"@)),
            "Plays percussive drum hit for duration."@,
            Seq::empty()
                .push("music.play_drum(1, 0.25)"@),
        )
    } else {
        core_def(
            "music.rest"@,
            BlockCategory::Audio,
            "Rest/pause music for specified beats"@,
            BlockType::Void,
            "AudioSystem::rest"@,
            Seq::empty()
                .push(core_param("beats"@, BlockType::Number, false, Some("0.25"@), "Rest duration in beats"@)),
            "Pauses music playback for number of beats."@,
            Seq::empty()
                .push("music.rest(0.5)"@),
        )
    }
}

/// Entry `i` of group 8 of the core catalogue, in registration order.
pub open spec fn core_group_8_entry(i: int) -> DefV {
    if i == 0 {
        core_def(
            "pen.change_size"@,
            BlockCategory::Pen,
            "Change pen line thickness by delta"@,
            BlockType::Void,
            "PenSystem::changeSize"@,
            Seq::empty()
                .push(core_param("delta"@, BlockType::Number, false, Some("1"@), "Delta thickness"@)),
            "Adjusts the pen line thickness."@,
            Seq::empty()
                .push("pen.change_size(2)"@),
        )
    } else if i == 1 {
        core_def(
            "pen.change_color"@,
            BlockCategory::Pen,
            "Change pen color hue by delta"@,
            BlockType::Void,
            "PenSystem::changeColor"@,
            Seq::empty()
                .push(core_param("delta"@, BlockType::Number, false, Some("10"@), "Hue delta value"@)),
            "Increments pen color hue value."@,
            Seq::empty()
                .push("pen.change_color(10)"@),
        )
    } else if i == 2 {
        core_def(
            "pen.set_shade"@,
            BlockCategory::Pen,
            "Set pen darkness/shade percentage"@,
            BlockType::Void,
            "PenSystem::setShade"@,
            Seq::empty()
                .push(core_param("shade"@, BlockType::Number, false, Some("50"@), "Shade percentage (0 - 100)"@)),
            "Sets pen darkness/brightness shade."@,
            Seq::empty()
                .push("pen.set_shade(70)"@),
        )
    } else if i == 3 {
        core_def(
            "pen.change_shade"@,
            BlockCategory::Pen,
            "Change pen darkness/shade by delta"@,
            BlockType::Void,
            "PenSystem::changeShade"@,
            Seq::empty()
                .push(core_param("delta"@, BlockType::Number, false, Some("10"@), "Delta shade"@)),
            "Adjusts pen darkness/brightness shade."@,
            Seq::empty()
                .push("pen.change_shade(-10)"@),
        )
    } else if i == 4 {
        core_def(
            "current_time"@,
            BlockCategory::Sensing,
            "Get current system time unit value"@,
            BlockType::Number,
            "SensingSystem::currentTime"@,
            Seq::empty()
                .push(core_param("unit"@, BlockType::String, false, Some("\"second\""@), "Time unit (year, month, date, day_of_week, hour, minute, second)"@)),
            "Queries current system calendar date or clock time."@,
            Seq::empty()
                .push("hr = current_time(\"hour\")"@),
        )
    } else if i == 5 {
        core_def(
            "days_since_2000"@,
            BlockCategory::Sensing,
            "Days elapsed since January 1, 2000"@,
            BlockType::Number,
            "SensingSystem::daysSince2000"@,
            Seq::empty(),
            "Returns exact decimal days since Jan 1, 2000 00:00:00 UTC."@,
            Seq::empty()
                .push("days = days_since_2000()"@),
        )
    } else {
        core_def(
            "get_username"@,
            BlockCategory::Sensing,
            "Get current player username"@,
            BlockType::String,
            "SensingSystem::getUsername"@,
            Seq::empty(),
            "Returns the username of the active player or environment."@,
            Seq::empty()
                .push("name = get_username()"@),
        )
    }
}

/// Entry `j` of the core catalogue, in registration order.
pub open spec fn core_entry(j: int) -> DefV {
    if j < 12 {
        core_group_0_entry(j)
    } else if j < 24 {
        core_group_1_entry(j - 12)
    } else if j < 36 {
        core_group_2_entry(j - 24)
    } else if j < 48 {
        core_group_3_entry(j - 36)
    } else if j < 60 {
        core_group_4_entry(j - 48)
    } else if j < 72 {
        core_group_5_entry(j - 60)
    } else if j < 84 {
        core_group_6_entry(j - 72)
    } else if j < 96 {
        core_group_7_entry(j - 84)
    } else {
        core_group_8_entry(j - 96)
    }
}

/// Number of entries in the core catalogue.
pub open spec fn core_entry_count() -> nat {
    103
}

/// What a registry holds under `n` once the first `k` core entries are registered in
/// order into an empty one: the last entry of that name, if any.
pub open spec fn core_lookup_upto(k: nat, n: Seq<char>) -> Option<DefV>
    decreases k,
{
    if k == 0 {
        None
    } else {
        let d = core_entry(k - 1);
        if n == d.name {
            Some(d)
        } else {
            core_lookup_upto((k - 1) as nat, n)
        }
    }
}

/// The core catalogue: the definition of the core block named `n`, if there is one.
pub open spec fn core_catalogue(n: Seq<char>) -> Option<DefV> {
    core_lookup_upto(core_entry_count(), n)
}

} // verus!
