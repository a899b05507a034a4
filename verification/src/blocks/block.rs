use vstd::prelude::*;
use crate::blocks::types::{BlockCategory, BlockType};

verus! {

/// One parameter of a block signature.
#[derive(Debug, PartialEq)]
pub struct ParameterDefinition {
    pub name: String,
    pub param_type: BlockType,
    pub optional: bool,
    pub default_value: Option<String>,
    pub description: String,
}

/// Editor completion data attached to a block.
#[derive(Debug, PartialEq)]
pub struct AutocompleteMetadata {
    pub snippet: String,
    pub trigger_characters: Vec<String>,
    pub detail: String,
}

/// Lint hints attached to a block.
#[derive(Debug, PartialEq)]
pub struct LintMetadata {
    pub deprecated: bool,
    pub deprecation_reason: Option<String>,
    pub per_frame_warning: bool,
}

impl LintMetadata {
    /// No deprecation and no per-frame warning.
    pub fn new() -> (r: Self)
        ensures
            !r.deprecated,
            r.deprecation_reason is None,
            !r.per_frame_warning,
    {
        LintMetadata { deprecated: false, deprecation_reason: None, per_frame_warning: false }
    }
}

/// The full description of a built-in block.
#[derive(Debug, PartialEq)]
pub struct BlockDefinition {
    pub name: String,
    pub category: BlockCategory,
    pub description: String,
    pub parameters: Vec<ParameterDefinition>,
    pub return_type: BlockType,
    pub documentation: String,
    pub examples: Vec<String>,
    pub autocomplete_metadata: AutocompleteMetadata,
    pub lint_metadata: LintMetadata,
    pub runtime_handler: String,
}

/// A copy of a list of texts, equal to it.
fn clone_texts(v: &Vec<String>) -> (r: Vec<String>)
    ensures
        r@ == v@,
{
    let r = v.clone();
    assert(r@ =~= v@);
    r
}

impl Clone for ParameterDefinition {
    /// A copy, equal to the original.
    fn clone(&self) -> (r: Self)
        ensures
            r == *self,
    {
        ParameterDefinition {
            name: self.name.clone(),
            param_type: self.param_type.clone(),
            optional: self.optional,
            default_value: self.default_value.clone(),
            description: self.description.clone(),
        }
    }
}

impl Clone for AutocompleteMetadata {
    /// A copy: the same snippet, trigger characters and detail.
    fn clone(&self) -> (r: Self)
        ensures
            r.snippet == self.snippet,
            r.trigger_characters@ == self.trigger_characters@,
            r.detail == self.detail,
    {
        AutocompleteMetadata {
            snippet: self.snippet.clone(),
            trigger_characters: clone_texts(&self.trigger_characters),
            detail: self.detail.clone(),
        }
    }
}

impl Clone for LintMetadata {
    /// A copy, equal to the original.
    fn clone(&self) -> (r: Self)
        ensures
            r == *self,
    {
        LintMetadata {
            deprecated: self.deprecated,
            deprecation_reason: self.deprecation_reason.clone(),
            per_frame_warning: self.per_frame_warning,
        }
    }
}

impl Clone for BlockDefinition {
    /// A copy: every field equal, lists by their contents.
    fn clone(&self) -> (r: Self)
        ensures
            r.name == self.name,
            def_view(r) == def_view(*self),
    {
        let parameters = self.parameters.clone();
        assert(parameters@ =~= self.parameters@);
        BlockDefinition {
            name: self.name.clone(),
            category: self.category,
            description: self.description.clone(),
            parameters,
            return_type: self.return_type.clone(),
            documentation: self.documentation.clone(),
            examples: clone_texts(&self.examples),
            autocomplete_metadata: self.autocomplete_metadata.clone(),
            lint_metadata: self.lint_metadata.clone(),
            runtime_handler: self.runtime_handler.clone(),
        }
    }
}

/// A parameter as a specification value.
pub struct ParamV {
    pub name: Seq<char>,
    pub param_type: BlockType,
    pub optional: bool,
    pub default_value: Option<Seq<char>>,
    pub description: Seq<char>,
}

pub open spec fn param_view(p: ParameterDefinition) -> ParamV {
    ParamV {
        name: p.name@,
        param_type: p.param_type,
        optional: p.optional,
        default_value: match p.default_value {
            Some(d) => Some(d@),
            None => None,
        },
        description: p.description@,
    }
}

pub open spec fn param_views(ps: Seq<ParameterDefinition>) -> Seq<ParamV> {
    ps.map_values(|p: ParameterDefinition| param_view(p))
}

pub open spec fn text_views(ts: Seq<String>) -> Seq<Seq<char>> {
    ts.map_values(|t: String| t@)
}

/// A block definition as a specification value: every field, texts by their characters.
pub struct DefV {
    pub name: Seq<char>,
    pub category: BlockCategory,
    pub description: Seq<char>,
    pub params: Seq<ParamV>,
    pub return_type: BlockType,
    pub documentation: Seq<char>,
    pub examples: Seq<Seq<char>>,
    pub snippet: Seq<char>,
    pub trigger_characters: Seq<Seq<char>>,
    pub detail: Seq<char>,
    pub deprecated: bool,
    pub deprecation_reason: Option<Seq<char>>,
    pub per_frame_warning: bool,
    pub runtime_handler: Seq<char>,
}

pub open spec fn def_view(d: BlockDefinition) -> DefV {
    DefV {
        name: d.name@,
        category: d.category,
        description: d.description@,
        params: param_views(d.parameters@),
        return_type: d.return_type,
        documentation: d.documentation@,
        examples: text_views(d.examples@),
        snippet: d.autocomplete_metadata.snippet@,
        trigger_characters: text_views(d.autocomplete_metadata.trigger_characters@),
        detail: d.autocomplete_metadata.detail@,
        deprecated: d.lint_metadata.deprecated,
        deprecation_reason: match d.lint_metadata.deprecation_reason {
            Some(r) => Some(r@),
            None => None,
        },
        per_frame_warning: d.lint_metadata.per_frame_warning,
        runtime_handler: d.runtime_handler@,
    }
}

/// Number of parameters that must be given in a call.
pub open spec fn required_param_count(ps: Seq<ParameterDefinition>) -> nat
    decreases ps.len(),
{
    if ps.len() == 0 {
        0
    } else {
        required_param_count(ps.drop_last()) + if ps.last().optional { 0nat } else { 1nat }
    }
}

impl BlockDefinition {
    /// A block with no parameters, documentation or examples; its completion snippet is
    /// `name($0)`.
    pub fn new(
        name: &str,
        category: BlockCategory,
        description: &str,
        return_type: BlockType,
        runtime_handler: &str,
    ) -> (r: Self)
        ensures
            r.name@ == name@,
            r.category == category,
            r.description@ == description@,
            r.parameters@.len() == 0,
            param_views(r.parameters@) == Seq::<ParamV>::empty(),
            r.return_type == return_type,
            r.documentation@.len() == 0,
            r.examples@.len() == 0,
            text_views(r.examples@) == Seq::<Seq<char>>::empty(),
            text_views(r.autocomplete_metadata.trigger_characters@) == Seq::<Seq<char>>::empty(),
            r.autocomplete_metadata.snippet@ == name@ + "($0)"@,
            r.autocomplete_metadata.trigger_characters@.len() == 0,
            r.autocomplete_metadata.detail@ == Seq::<char>::empty(),
            !r.lint_metadata.deprecated,
            r.lint_metadata.deprecation_reason is None,
            !r.lint_metadata.per_frame_warning,
            r.runtime_handler@ == runtime_handler@,
    {
        let mut snippet = String::from_str(name);
        snippet.append("($0)");
        proof {
            assert(param_views(Seq::<ParameterDefinition>::empty()) =~= Seq::<ParamV>::empty());
            assert(text_views(Seq::<String>::empty()) =~= Seq::<Seq<char>>::empty());
        }
        BlockDefinition {
            name: String::from_str(name),
            category,
            description: String::from_str(description),
            parameters: Vec::new(),
            return_type,
            documentation: String::new(),
            examples: Vec::new(),
            autocomplete_metadata: AutocompleteMetadata {
                snippet,
                trigger_characters: Vec::new(),
                detail: String::new(),
            },
            lint_metadata: LintMetadata::new(),
            runtime_handler: String::from_str(runtime_handler),
        }
    }

    /// Appends a parameter to the signature; nothing else changes.
    pub fn with_param(
        self,
        name: &str,
        param_type: BlockType,
        optional: bool,
        default_value: Option<&str>,
        description: &str,
    ) -> (r: Self)
        ensures
            r.parameters@.len() == self.parameters@.len() + 1,
            r.parameters@.take(self.parameters@.len() as int) == self.parameters@,
            r.parameters@.last().name@ == name@,
            r.parameters@.last().param_type == param_type,
            r.parameters@.last().optional == optional,
            match default_value {
                Some(d) => r.parameters@.last().default_value matches Some(v) && v@ == d@,
                None => r.parameters@.last().default_value is None,
            },
            r.parameters@.last().description@ == description@,
            param_views(r.parameters@) == param_views(self.parameters@).push(ParamV {
                name: name@,
                param_type,
                optional,
                default_value: match default_value {
                    Some(d) => Some(d@),
                    None => None,
                },
                description: description@,
            }),
            r == (BlockDefinition { parameters: r.parameters, ..self }),
    {
        let mut s = self;
        let ghost before = s.parameters@;
        let dv = match default_value {
            Some(d) => Some(String::from_str(d)),
            None => None,
        };
        s.parameters.push(ParameterDefinition {
            name: String::from_str(name),
            param_type,
            optional,
            default_value: dv,
            description: String::from_str(description),
        });
        assert(param_views(s.parameters@) =~= param_views(before).push(param_view(s.parameters@.last())));
        s
    }

    /// Replaces the documentation text; nothing else changes.
    pub fn with_doc(self, doc: &str) -> (r: Self)
        ensures
            r.documentation@ == doc@,
            r == (BlockDefinition { documentation: r.documentation, ..self }),
    {
        let mut s = self;
        s.documentation = String::from_str(doc);
        s
    }

    /// Appends a usage example; nothing else changes.
    pub fn with_example(self, example: &str) -> (r: Self)
        ensures
            r.examples@.len() == self.examples@.len() + 1,
            r.examples@.take(self.examples@.len() as int) == self.examples@,
            r.examples@.last()@ == example@,
            text_views(r.examples@) == text_views(self.examples@).push(example@),
            r == (BlockDefinition { examples: r.examples, ..self }),
    {
        let mut s = self;
        let ghost before = s.examples@;
        s.examples.push(String::from_str(example));
        assert(text_views(s.examples@) =~= text_views(before).push(example@));
        s
    }

    /// Number of parameters that a call must supply.
    pub fn min_params(&self) -> (n: usize)
        ensures
            n == required_param_count(self.parameters@),
    {
        let mut n: usize = 0;
        for i in 0..self.parameters.len()
            invariant
                n == required_param_count(self.parameters@.take(i as int)),
                n <= i,
        {
            assert(self.parameters@.take(i + 1).drop_last() == self.parameters@.take(i as int));
            if !self.parameters[i].optional {
                n = n + 1;
            }
        }
        assert(self.parameters@.take(self.parameters@.len() as int) == self.parameters@);
        n
    }
}

} // verus!
