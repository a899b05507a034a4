use vstd::prelude::*;

verus! {

/// Supported scratch-lang value and parameter types.
#[derive(Debug, PartialEq, Eq, Hash)]
pub enum BlockType {
    Void,
    Number,
    String,
    Boolean,
    Object,
    List(Box<BlockType>),
    Any,
}

/// Category grouping for block organisation and visual representation.
#[derive(Debug, Clone, Copy, PartialEq, Eq, Hash, Structural)]
pub enum BlockCategory {
    Events,
    Movement,
    Gameplay,
    Condition,
    Audio,
    Animation,
    Camera,
    Scene,
    Variables,
    Control,
    Custom,
    Looks,
    Operators,
    Pen,
    Sensing,
}

/// Display name of a block type, as `List<Number>` for lists.
pub open spec fn spec_block_type_name(t: BlockType) -> Seq<char>
    decreases t,
{
    match t {
        BlockType::Void => "Void"@,
        BlockType::Number => "Number"@,
        BlockType::String => "String"@,
        BlockType::Boolean => "Boolean"@,
        BlockType::Object => "Object"@,
        BlockType::List(inner) => "List<"@ + spec_block_type_name(*inner) + ">"@,
        BlockType::Any => "Any"@,
    }
}

/// Display name of a block category.
pub open spec fn spec_category_name(c: BlockCategory) -> Seq<char> {
    match c {
        BlockCategory::Events => "Events"@,
        BlockCategory::Movement => "Movement"@,
        BlockCategory::Gameplay => "Gameplay"@,
        BlockCategory::Condition => "Condition"@,
        BlockCategory::Audio => "Audio"@,
        BlockCategory::Animation => "Animation"@,
        BlockCategory::Camera => "Camera"@,
        BlockCategory::Scene => "Scene"@,
        BlockCategory::Variables => "Variables"@,
        BlockCategory::Control => "Control"@,
        BlockCategory::Custom => "Custom"@,
        BlockCategory::Looks => "Looks"@,
        BlockCategory::Operators => "Operators"@,
        BlockCategory::Pen => "Pen"@,
        BlockCategory::Sensing => "Sensing"@,
    }
}

impl Clone for BlockType {
    fn clone(&self) -> (r: Self)
        ensures
            r == *self,
        decreases self,
    {
        match self {
            BlockType::Void => BlockType::Void,
            BlockType::Number => BlockType::Number,
            BlockType::String => BlockType::String,
            BlockType::Boolean => BlockType::Boolean,
            BlockType::Object => BlockType::Object,
            BlockType::List(inner) => BlockType::List(Box::new((**inner).clone())),
            BlockType::Any => BlockType::Any,
        }
    }
}

impl BlockType {
    /// The type's display name (`Number`, `List<String>`, ...).
    pub fn to_string(&self) -> (s: String)
        ensures
            s@ == spec_block_type_name(*self),
        decreases self,
    {
        match self {
            BlockType::Void => String::from_str("Void"),
            BlockType::Number => String::from_str("Number"),
            BlockType::String => String::from_str("String"),
            BlockType::Boolean => String::from_str("Boolean"),
            BlockType::Object => String::from_str("Object"),
            BlockType::List(inner) => {
                let mut s = String::from_str("List<");
                let inner_name = inner.to_string();
                s.append(inner_name.as_str());
                s.append(">");
                s
            },
            BlockType::Any => String::from_str("Any"),
        }
    }
}

impl BlockCategory {
    /// The category's display name.
    pub fn to_string(&self) -> (s: String)
        ensures
            s@ == spec_category_name(*self),
    {
        match self {
            BlockCategory::Events => String::from_str("Events"),
            BlockCategory::Movement => String::from_str("Movement"),
            BlockCategory::Gameplay => String::from_str("Gameplay"),
            BlockCategory::Condition => String::from_str("Condition"),
            BlockCategory::Audio => String::from_str("Audio"),
            BlockCategory::Animation => String::from_str("Animation"),
            BlockCategory::Camera => String::from_str("Camera"),
            BlockCategory::Scene => String::from_str("Scene"),
            BlockCategory::Variables => String::from_str("Variables"),
            BlockCategory::Control => String::from_str("Control"),
            BlockCategory::Custom => String::from_str("Custom"),
            BlockCategory::Looks => String::from_str("Looks"),
            BlockCategory::Operators => String::from_str("Operators"),
            BlockCategory::Pen => String::from_str("Pen"),
            BlockCategory::Sensing => String::from_str("Sensing"),
        }
    }
}

} // verus!
