//! Attribute mapping between Langfuse and OpenTelemetry GenAI conventions.
//!
//! The [`GenAIAttributeMapper`] maps attributes of the OpenTelemetry GenAI
//! vocabulary to those of Langfuse and back, by a table of rules.
//! What it returns is stated by the spec functions of this module, attribute
//! by attribute.

use crate::assoc::{
    distinct_keys, entry_views, get_entry, lemma_first_is_position, lemma_position,
    lookup, option_view, position, remove_entry, set_entry, upsert, without,
};
use crate::attributes::{LangfuseAttributes, OpenTelemetryGenAIAttributes};
use crate::convert::{
    is_scalar, json_of_value, json_to_key_value, lemma_scalar_round_trip, value_of_json,
    value_to_json,
};
use crate::json::{json_parsed, json_text, lemma_object_view, JsonValue, JsonView};
use crate::key_value::{
    append_attributes, copy_attributes, int_attribute, views, AttributeValue, AttributeValueView,
    KeyValue, KeyValueView,
};
use crate::text::{concat, contains, ends_with, has_infix, starts_with, strip_prefix};
use vstd::prelude::*;

verus! {

/// The prefix of the keys of request parameters.
pub const REQUEST_PREFIX: &'static str = "gen_ai.request.";

/// The prefix of the keys of prompts.
pub const PROMPT_PREFIX: &'static str = "gen_ai.prompt.";

/// The prefix of the keys of completions.
pub const COMPLETION_PREFIX: &'static str = "gen_ai.completion.";

/// The suffix of the keys that hold the content of a prompt or a completion.
pub const CONTENT_SUFFIX: &'static str = ".content";

/// The word that marks a request key as naming the model, not a parameter.
pub const MODEL_WORD: &'static str = "model";

/// The key under which the rule for model parameters is registered.
pub const MODEL_PARAMETERS_RULE: &'static str = "model_parameters";

/// The source pattern of the rule for model parameters.
pub const REQUEST_PATTERN: &'static str = "gen_ai.request.*";

/// The change that a `Transform` rule makes to a value.
#[derive(Clone, Copy, Debug, PartialEq, Eq, Structural)]
pub enum Transformer {
    /// The value as it is.
    Identity,
}

/// The attributes that a `Complex` rule makes of one attribute.
#[derive(Clone, Copy, Debug, PartialEq, Eq, Structural)]
pub enum Expansion {
    /// A request parameter becomes the model parameters of the observation;
    /// any other attribute becomes nothing.
    ModelParameters,
}

/// Defines how an attribute should be mapped.
#[derive(Debug, PartialEq, Eq)]
pub enum MappingRule {
    /// Direct bidirectional mapping between attribute names.
    Bidirectional { langfuse_key: String, otel_key: String },
    /// Transform the value during mapping.
    Transform { source_key: String, target_key: String, transformer: Transformer },
    /// One-way mapping from source to target.
    OneWay { source_key: String, target_key: String },
    /// Complex mapping that may produce multiple attributes.
    Complex { source_key: String, mapper: Expansion },
}

/// The mathematical form of a [`MappingRule`].
pub enum MappingRuleView {
    Bidirectional { langfuse_key: Seq<char>, otel_key: Seq<char> },
    Transform { source_key: Seq<char>, target_key: Seq<char>, transformer: Transformer },
    OneWay { source_key: Seq<char>, target_key: Seq<char> },
    Complex { source_key: Seq<char>, mapper: Expansion },
}

impl View for MappingRule {
    type V = MappingRuleView;

    open spec fn view(&self) -> MappingRuleView {
        match self {
            MappingRule::Bidirectional { langfuse_key, otel_key } => MappingRuleView::Bidirectional {
                langfuse_key: langfuse_key@,
                otel_key: otel_key@,
            },
            MappingRule::Transform {
                source_key,
                target_key,
                transformer,
            } => MappingRuleView::Transform {
                source_key: source_key@,
                target_key: target_key@,
                transformer: *transformer,
            },
            MappingRule::OneWay { source_key, target_key } => MappingRuleView::OneWay {
                source_key: source_key@,
                target_key: target_key@,
            },
            MappingRule::Complex { source_key, mapper } => MappingRuleView::Complex {
                source_key: source_key@,
                mapper: *mapper,
            },
        }
    }
}

impl Clone for MappingRule {
    fn clone(&self) -> (copy: Self)
        ensures
            copy@ == self@,
    {
        match self {
            MappingRule::Bidirectional { langfuse_key, otel_key } => MappingRule::Bidirectional {
                langfuse_key: langfuse_key.clone(),
                otel_key: otel_key.clone(),
            },
            MappingRule::Transform { source_key, target_key, transformer } => MappingRule::Transform {
                source_key: source_key.clone(),
                target_key: target_key.clone(),
                transformer: *transformer,
            },
            MappingRule::OneWay { source_key, target_key } => MappingRule::OneWay {
                source_key: source_key.clone(),
                target_key: target_key.clone(),
            },
            MappingRule::Complex { source_key, mapper } => MappingRule::Complex {
                source_key: source_key.clone(),
                mapper: *mapper,
            },
        }
    }
}

/// Rules with the keys under which they are registered.
pub type RuleViews = Seq<(Seq<char>, MappingRuleView)>;

/// Named JSON values.
pub type MemberViews = Seq<(Seq<char>, JsonView)>;

/// The attribute with the key `key` and the value `value`.
pub open spec fn attribute(key: Seq<char>, value: AttributeValueView) -> KeyValueView {
    KeyValueView { key, value }
}

/// Whether `key` names a request parameter: a key of the request that does
/// not hold the word `model`.
pub open spec fn is_request_parameter(key: Seq<char>) -> bool {
    REQUEST_PREFIX@.is_prefix_of(key) && !has_infix(key, MODEL_WORD@)
}

/// The value that a transformer makes of `value`.
pub open spec fn transformed(transformer: Transformer, value: JsonView) -> JsonView {
    match transformer {
        Transformer::Identity => value,
    }
}

/// The named values that an expansion makes of the attribute `key`, `value`.
pub open spec fn expanded(mapper: Expansion, key: Seq<char>, value: JsonView) -> MemberViews {
    match mapper {
        Expansion::ModelParameters => if is_request_parameter(key) {
            seq![(LangfuseAttributes::OBSERVATION_MODEL_PARAMETERS@, value)]
        } else {
            Seq::empty()
        },
    }
}

/// The attributes of named JSON values, one for one.
pub open spec fn member_attributes(members: MemberViews) -> Seq<KeyValueView> {
    members.map_values(|m: (Seq<char>, JsonView)| attribute(m.0, value_of_json(m.1)))
}

/// The Langfuse attributes that `rule` makes of the attribute `key`, `value`.
pub open spec fn rule_outputs(rule: MappingRuleView, key: Seq<char>, value: JsonView) -> Seq<
    KeyValueView,
> {
    match rule {
        MappingRuleView::Bidirectional { langfuse_key, .. } => seq![
            attribute(langfuse_key, value_of_json(value)),
        ],
        MappingRuleView::Transform { target_key, transformer, .. } => seq![
            attribute(target_key, value_of_json(transformed(transformer, value))),
        ],
        MappingRuleView::OneWay { target_key, .. } => seq![
            attribute(target_key, value_of_json(value)),
        ],
        MappingRuleView::Complex { mapper, .. } => member_attributes(expanded(mapper, key, value)),
    }
}

/// Whether `key` names the content of a prompt.
pub open spec fn is_prompt_content(key: Seq<char>) -> bool {
    PROMPT_PREFIX@.is_prefix_of(key) && CONTENT_SUFFIX@.is_suffix_of(key)
}

/// Whether `key` names the content of a completion.
pub open spec fn is_completion_content(key: Seq<char>) -> bool {
    COMPLETION_PREFIX@.is_prefix_of(key) && CONTENT_SUFFIX@.is_suffix_of(key)
}

/// The Langfuse attributes that one attribute gives, apart from its share
/// in the model parameters: what its rule makes of it; nothing for a
/// request parameter, which goes to the model parameters; the input or the
/// output of the observation for the content of a prompt or of a
/// completion; the attribute itself in every other case.
pub open spec fn langfuse_outputs(rules: RuleViews, attr: KeyValueView) -> Seq<KeyValueView> {
    let value = json_of_value(attr.value);
    match lookup(rules, attr.key) {
        Some(rule) => rule_outputs(rule, attr.key, value),
        None => if is_request_parameter(attr.key) {
            Seq::empty()
        } else if is_prompt_content(attr.key) {
            seq![attribute(LangfuseAttributes::OBSERVATION_INPUT@, value_of_json(value))]
        } else if is_completion_content(attr.key) {
            seq![attribute(LangfuseAttributes::OBSERVATION_OUTPUT@, value_of_json(value))]
        } else {
            seq![attr]
        },
    }
}

/// The model parameter that one attribute gives: for a request parameter
/// without a rule, its name behind the prefix with its value.
pub open spec fn langfuse_parameter(rules: RuleViews, attr: KeyValueView) -> Option<
    (Seq<char>, JsonView),
> {
    if lookup(rules, attr.key) is None && is_request_parameter(attr.key) {
        Some((attr.key.skip(REQUEST_PREFIX@.len() as int), json_of_value(attr.value)))
    } else {
        None
    }
}

/// The Langfuse attributes of a list, apart from the model parameters, in
/// the order of the list.
pub open spec fn langfuse_mapped(rules: RuleViews, attrs: Seq<KeyValueView>) -> Seq<KeyValueView>
    decreases attrs.len(),
{
    if attrs.len() == 0 {
        Seq::empty()
    } else {
        langfuse_mapped(rules, attrs.drop_last()) + langfuse_outputs(rules, attrs.last())
    }
}

/// The model parameters of a list: each name once, with the value of its
/// last attribute.
pub open spec fn model_parameters(rules: RuleViews, attrs: Seq<KeyValueView>) -> MemberViews
    decreases attrs.len(),
{
    if attrs.len() == 0 {
        Seq::empty()
    } else {
        match langfuse_parameter(rules, attrs.last()) {
            Some((name, value)) => upsert(model_parameters(rules, attrs.drop_last()), name, value),
            None => model_parameters(rules, attrs.drop_last()),
        }
    }
}

/// The attribute that holds the model parameters as the text of one JSON object.
pub open spec fn parameters_attribute(parameters: MemberViews) -> KeyValueView {
    attribute(
        LangfuseAttributes::OBSERVATION_MODEL_PARAMETERS@,
        AttributeValueView::String(json_text(JsonView::Object(parameters))),
    )
}

/// The Langfuse attributes of a list of OpenTelemetry attributes: the
/// attributes that each one gives, in order, and behind them the model
/// parameters, if any request parameter was there.
pub open spec fn to_langfuse(rules: RuleViews, attrs: Seq<KeyValueView>) -> Seq<KeyValueView> {
    let parameters = model_parameters(rules, attrs);
    if parameters.len() > 0 {
        langfuse_mapped(rules, attrs).push(parameters_attribute(parameters))
    } else {
        langfuse_mapped(rules, attrs)
    }
}

/// The OpenTelemetry key of the first bidirectional rule whose Langfuse key
/// is `key`.
pub open spec fn reverse_key(rules: RuleViews, key: Seq<char>) -> Option<Seq<char>>
    decreases rules.len(),
{
    if rules.len() == 0 {
        None
    } else {
        match rules[0].1 {
            MappingRuleView::Bidirectional { langfuse_key, otel_key } => if langfuse_key == key {
                Some(otel_key)
            } else {
                reverse_key(rules.skip(1), key)
            },
            _ => reverse_key(rules.skip(1), key),
        }
    }
}

/// Whether `rule` is bidirectional with the Langfuse key `key`.
pub open spec fn reverses(rule: MappingRuleView, key: Seq<char>) -> bool {
    rule matches MappingRuleView::Bidirectional { langfuse_key, .. } && langfuse_key == key
}

/// The request attributes of the members of a parameter object: each under
/// its name behind the request prefix.
pub open spec fn request_attributes(members: MemberViews) -> Seq<KeyValueView> {
    members.map_values(
        |m: (Seq<char>, JsonView)| attribute(REQUEST_PREFIX@ + m.0, value_of_json(m.1)),
    )
}

/// The request attributes that the value of a model-parameters attribute
/// states: those of its members where it is the text of a JSON object,
/// none where it is anything else.
pub open spec fn blob_attributes(value: AttributeValueView) -> Seq<KeyValueView> {
    match value {
        AttributeValueView::String(text) => match json_parsed(text) {
            Some(JsonView::Object(members)) => request_attributes(members),
            _ => Seq::empty(),
        },
        _ => Seq::empty(),
    }
}

/// The OpenTelemetry attributes that one Langfuse attribute gives: under
/// the OpenTelemetry key where a bidirectional rule has its key; the token
/// counts under their GenAI keys; the model parameters as one attribute for
/// each; the attribute itself in every other case.
pub open spec fn otel_outputs(rules: RuleViews, attr: KeyValueView) -> Seq<KeyValueView> {
    let value = value_of_json(json_of_value(attr.value));
    match reverse_key(rules, attr.key) {
        Some(otel_key) => seq![attribute(otel_key, value)],
        None => if attr.key == LangfuseAttributes::OBSERVATION_USAGE_INPUT@ {
            seq![attribute(OpenTelemetryGenAIAttributes::USAGE_PROMPT_TOKENS@, value)]
        } else if attr.key == LangfuseAttributes::OBSERVATION_USAGE_OUTPUT@ {
            seq![attribute(OpenTelemetryGenAIAttributes::USAGE_COMPLETION_TOKENS@, value)]
        } else if attr.key == LangfuseAttributes::OBSERVATION_MODEL_PARAMETERS@ {
            blob_attributes(attr.value)
        } else {
            seq![attr]
        },
    }
}

/// The OpenTelemetry attributes of a list of Langfuse attributes: the
/// attributes that each one gives, in the order of the list.
pub open spec fn to_otel(rules: RuleViews, attrs: Seq<KeyValueView>) -> Seq<KeyValueView>
    decreases attrs.len(),
{
    if attrs.len() == 0 {
        Seq::empty()
    } else {
        to_otel(rules, attrs.drop_last()) + otel_outputs(rules, attrs.last())
    }
}

/// The integer of the last attribute of the list that has the key `key` and
/// holds an integer.
pub open spec fn last_count(attrs: Seq<KeyValueView>, key: Seq<char>) -> Option<i64>
    decreases attrs.len(),
{
    if attrs.len() == 0 {
        None
    } else {
        match attrs.last().value {
            AttributeValueView::I64(n) => if attrs.last().key == key {
                Some(n)
            } else {
                last_count(attrs.drop_last(), key)
            },
            _ => last_count(attrs.drop_last(), key),
        }
    }
}

/// The sum of the prompt tokens and the completion tokens of a list, where
/// it states both.
pub open spec fn total_tokens(attrs: Seq<KeyValueView>) -> Option<int> {
    match (
        last_count(attrs, OpenTelemetryGenAIAttributes::USAGE_PROMPT_TOKENS@),
        last_count(attrs, OpenTelemetryGenAIAttributes::USAGE_COMPLETION_TOKENS@),
    ) {
        (Some(prompt), Some(completion)) => Some(prompt + completion),
        _ => None,
    }
}

/// The total of the tokens, if there is one, fits the integer of an attribute.
pub open spec fn total_fits(attrs: Seq<KeyValueView>) -> bool {
    total_tokens(attrs) matches Some(total) ==> i64::MIN <= total <= i64::MAX
}

/// The list with the total of its tokens behind it, under the key of each
/// vocabulary; the list itself where it does not state both counts.
pub open spec fn with_total(attrs: Seq<KeyValueView>) -> Seq<KeyValueView> {
    match total_tokens(attrs) {
        Some(total) => attrs + seq![
            int_attribute(OpenTelemetryGenAIAttributes::USAGE_TOTAL_TOKENS@, total as i64),
            int_attribute(LangfuseAttributes::OBSERVATION_USAGE_TOTAL@, total as i64),
        ],
        None => attrs,
    }
}

/// The rules that a new mapper has.
pub open spec fn default_rules() -> RuleViews {
    seq![
        (
            OpenTelemetryGenAIAttributes::REQUEST_MODEL@,
            MappingRuleView::Bidirectional {
                langfuse_key: LangfuseAttributes::OBSERVATION_MODEL@,
                otel_key: OpenTelemetryGenAIAttributes::REQUEST_MODEL@,
            },
        ),
        (
            OpenTelemetryGenAIAttributes::USAGE_PROMPT_TOKENS@,
            MappingRuleView::Transform {
                source_key: OpenTelemetryGenAIAttributes::USAGE_PROMPT_TOKENS@,
                target_key: LangfuseAttributes::OBSERVATION_USAGE_INPUT@,
                transformer: Transformer::Identity,
            },
        ),
        (
            OpenTelemetryGenAIAttributes::USAGE_COMPLETION_TOKENS@,
            MappingRuleView::Transform {
                source_key: OpenTelemetryGenAIAttributes::USAGE_COMPLETION_TOKENS@,
                target_key: LangfuseAttributes::OBSERVATION_USAGE_OUTPUT@,
                transformer: Transformer::Identity,
            },
        ),
        (
            MODEL_PARAMETERS_RULE@,
            MappingRuleView::Complex {
                source_key: REQUEST_PATTERN@,
                mapper: Expansion::ModelParameters,
            },
        ),
        (
            LangfuseAttributes::TRACE_USER_ID@,
            MappingRuleView::Bidirectional {
                langfuse_key: LangfuseAttributes::TRACE_USER_ID@,
                otel_key: LangfuseAttributes::TRACE_USER_ID@,
            },
        ),
        (
            LangfuseAttributes::TRACE_SESSION_ID@,
            MappingRuleView::Bidirectional {
                langfuse_key: LangfuseAttributes::TRACE_SESSION_ID@,
                otel_key: LangfuseAttributes::TRACE_SESSION_ID@,
            },
        ),
    ]
}

/// The first rule that reverses `key` stands at `i`: its OpenTelemetry key
/// is the reverse key.
pub proof fn lemma_reverse_key_at(rules: RuleViews, key: Seq<char>, i: int)
    requires
        0 <= i < rules.len(),
        reverses(rules[i].1, key),
        forall|j: int| 0 <= j < i ==> !reverses(rules[j].1, key),
    ensures
        reverse_key(rules, key) == Some(rules[i].1->Bidirectional_otel_key),
    decreases rules.len(),
{
    if i > 0 {
        assert(!reverses(rules[0].1, key));
        assert forall|j: int| 0 <= j < i - 1 implies !reverses(rules.skip(1)[j].1, key) by {
            assert(rules.skip(1)[j] == rules[j + 1]);
        }
        lemma_reverse_key_at(rules.skip(1), key, i - 1);
    }
}

/// No rule reverses `key`: there is no reverse key.
pub proof fn lemma_reverse_key_none(rules: RuleViews, key: Seq<char>)
    requires
        forall|j: int| 0 <= j < rules.len() ==> !reverses(rules[j].1, key),
    ensures
        reverse_key(rules, key) is None,
    decreases rules.len(),
{
    if rules.len() > 0 {
        assert(!reverses(rules[0].1, key));
        assert forall|j: int| 0 <= j < rules.len() - 1 implies !reverses(
            rules.skip(1)[j].1,
            key,
        ) by {
            assert(rules.skip(1)[j] == rules[j + 1]);
        }
        lemma_reverse_key_none(rules.skip(1), key);
    }
}

/// The value that a transformer makes of `value`.
pub fn transform(transformer: Transformer, value: JsonValue) -> (result: JsonValue)
    ensures
        result@ == transformed(transformer, value@),
{
    match transformer {
        Transformer::Identity => value,
    }
}

/// The Langfuse attributes that `rule` makes of the attribute `key`, `value`.
pub fn apply_rule(rule: &MappingRule, key: &str, value: JsonValue) -> (outputs: Vec<KeyValue>)
    ensures
        views(outputs@) == rule_outputs(rule@, key@, value@),
{
    let mut outputs: Vec<KeyValue> = Vec::new();
    match rule {
        MappingRule::Bidirectional { langfuse_key, .. } => {
            outputs.push(json_to_key_value(langfuse_key.clone(), value));
        },
        MappingRule::Transform { target_key, transformer, .. } => {
            outputs.push(json_to_key_value(target_key.clone(), transform(*transformer, value)));
        },
        MappingRule::OneWay { target_key, .. } => {
            outputs.push(json_to_key_value(target_key.clone(), value));
        },
        MappingRule::Complex { mapper, .. } => {
            match mapper {
                Expansion::ModelParameters => {
                    if starts_with(key, REQUEST_PREFIX) && !contains(key, MODEL_WORD) {
                        outputs.push(
                            json_to_key_value(
                                LangfuseAttributes::OBSERVATION_MODEL_PARAMETERS.to_owned(),
                                value,
                            ),
                        );
                    }
                },
            }
        },
    }
    outputs
}

/// The request attributes of the members of a parameter object.
pub fn expand_parameters(members: &Vec<(String, JsonValue)>) -> (outputs: Vec<KeyValue>)
    ensures
        views(outputs@) == request_attributes(entry_views(members@)),
{
    let mut outputs: Vec<KeyValue> = Vec::new();
    let mut i: usize = 0;
    while i < members.len()
        invariant
            i <= members.len(),
            outputs.len() == i,
            forall|j: int|
                0 <= j < i ==> outputs@[j]@ == attribute(
                    REQUEST_PREFIX@ + members@[j].0@,
                    value_of_json(members@[j].1@),
                ),
        decreases members.len() - i,
    {
        let key = concat(REQUEST_PREFIX, members[i].0.as_str());
        outputs.push(json_to_key_value(key, members[i].1.clone()));
        i = i + 1;
    }
    outputs
}

/// Trait for mapping attributes between different conventions.
///
/// Each mapper says by spec functions what its methods return, so that
/// code that holds any mapper can reason about the attributes it gets.
pub trait AttributeMapper: Send + Sync {
    /// The Langfuse attributes of a list of OpenTelemetry attributes.
    spec fn langfuse_of(&self, attributes: Seq<KeyValueView>) -> Seq<KeyValueView>;

    /// The OpenTelemetry attributes of a list of Langfuse attributes.
    spec fn otel_of(&self, attributes: Seq<KeyValueView>) -> Seq<KeyValueView>;

    /// Whether the mapper can enrich the list.
    spec fn can_enrich(&self, attributes: Seq<KeyValueView>) -> bool;

    /// The list with the attributes that the mapper derives from it.
    spec fn enriched(&self, attributes: Seq<KeyValueView>) -> Seq<KeyValueView>;

    /// Maps OpenTelemetry attributes to Langfuse attributes.
    fn map_to_langfuse(&self, otel_attributes: &[KeyValue]) -> (mapped: Vec<KeyValue>)
        ensures
            views(mapped@) == self.langfuse_of(views(otel_attributes@)),
    ;

    /// Maps Langfuse attributes to OpenTelemetry attributes.
    fn map_to_otel(&self, langfuse_attributes: &[KeyValue]) -> (mapped: Vec<KeyValue>)
        ensures
            views(mapped@) == self.otel_of(views(langfuse_attributes@)),
    ;

    /// Whether the mapper can enrich the list.
    fn can_enrich_attributes(&self, attributes: &[KeyValue]) -> (possible: bool)
        ensures
            possible == self.can_enrich(views(attributes@)),
    ;

    /// Enriches attributes with additional mappings.
    fn enrich_attributes(&self, attributes: &[KeyValue]) -> (enriched: Vec<KeyValue>)
        requires
            self.can_enrich(views(attributes@)),
        ensures
            views(enriched@) == self.enriched(views(attributes@)),
    ;
}

/// The prompt tokens and the completion tokens that a list states: for
/// each, the integer of the last attribute that has its key and holds an
/// integer.
pub fn token_counts(attributes: &[KeyValue]) -> (counts: (Option<i64>, Option<i64>))
    ensures
        counts.0 == last_count(
            views(attributes@),
            OpenTelemetryGenAIAttributes::USAGE_PROMPT_TOKENS@,
        ),
        counts.1 == last_count(
            views(attributes@),
            OpenTelemetryGenAIAttributes::USAGE_COMPLETION_TOKENS@,
        ),
{
    let ghost attrs = views(attributes@);
    let mut prompt_tokens: Option<i64> = None;
    let mut completion_tokens: Option<i64> = None;
    let mut i: usize = 0;
    while i < attributes.len()
        invariant
            i <= attributes.len(),
            attrs == views(attributes@),
            prompt_tokens == last_count(
                attrs.take(i as int),
                OpenTelemetryGenAIAttributes::USAGE_PROMPT_TOKENS@,
            ),
            completion_tokens == last_count(
                attrs.take(i as int),
                OpenTelemetryGenAIAttributes::USAGE_COMPLETION_TOKENS@,
            ),
        decreases attributes.len() - i,
    {
        let attr = &attributes[i];
        proof {
            assert(attrs.take(i + 1).drop_last() =~= attrs.take(i as int));
            assert(attrs.take(i + 1).last() == attr@);
        }
        match &attr.value {
            AttributeValue::I64(count) => {
                if attr.key.as_str().eq(OpenTelemetryGenAIAttributes::USAGE_PROMPT_TOKENS) {
                    prompt_tokens = Some(*count);
                }
                if attr.key.as_str().eq(OpenTelemetryGenAIAttributes::USAGE_COMPLETION_TOKENS) {
                    completion_tokens = Some(*count);
                }
            },
            _ => {},
        }
        i = i + 1;
    }
    proof {
        assert(attrs.take(i as int) =~= attrs);
    }
    (prompt_tokens, completion_tokens)
}

/// Mapper for GenAI-specific attributes.
///
/// Its rules stand under the OpenTelemetry key that they apply to, one rule
/// under each key, in the order in which the keys were first given a rule.
pub struct GenAIAttributeMapper {
    mapping_rules: Vec<(String, MappingRule)>,
}

impl View for GenAIAttributeMapper {
    type V = RuleViews;

    closed spec fn view(&self) -> RuleViews {
        entry_views(self.mapping_rules@)
    }
}

/// The keys of the default rules differ from each other, and the rules
/// themselves allow the round trip of their bidirectional keys.
pub proof fn lemma_default_rules()
    ensures
        distinct_keys(default_rules()),
        round_trip_rules(default_rules()),
{
    reveal_strlit("gen_ai.request.model");
    reveal_strlit("gen_ai.usage.prompt_tokens");
    reveal_strlit("gen_ai.usage.completion_tokens");
    reveal_strlit("model_parameters");
    reveal_strlit("user.id");
    reveal_strlit("session.id");
    reveal_strlit("langfuse.observation.model.name");
    let rules = default_rules();
    assert(rules[0].0.len() == 20);
    assert(rules[1].0.len() == 26);
    assert(rules[2].0.len() == 30);
    assert(rules[3].0.len() == 16);
    assert(rules[4].0.len() == 7);
    assert(rules[5].0.len() == 10);
    assert(rules[0].1->Bidirectional_langfuse_key.len() == 31);
}

impl GenAIAttributeMapper {
    #[verifier::type_invariant]
    spec fn well_formed(self) -> bool {
        distinct_keys(entry_views(self.mapping_rules@))
    }

    /// Creates a new GenAI attribute mapper with default mappings: the
    /// model name, the user and the session in both directions; the token
    /// counts towards Langfuse; and the rule for model parameters.
    pub fn new() -> (mapper: Self)
        ensures
            mapper@ == default_rules(),
    {
        let mut rules: Vec<(String, MappingRule)> = Vec::new();
        rules.push(
            (
                OpenTelemetryGenAIAttributes::REQUEST_MODEL.to_owned(),
                MappingRule::Bidirectional {
                    langfuse_key: LangfuseAttributes::OBSERVATION_MODEL.to_owned(),
                    otel_key: OpenTelemetryGenAIAttributes::REQUEST_MODEL.to_owned(),
                },
            ),
        );
        rules.push(
            (
                OpenTelemetryGenAIAttributes::USAGE_PROMPT_TOKENS.to_owned(),
                MappingRule::Transform {
                    source_key: OpenTelemetryGenAIAttributes::USAGE_PROMPT_TOKENS.to_owned(),
                    target_key: LangfuseAttributes::OBSERVATION_USAGE_INPUT.to_owned(),
                    transformer: Transformer::Identity,
                },
            ),
        );
        rules.push(
            (
                OpenTelemetryGenAIAttributes::USAGE_COMPLETION_TOKENS.to_owned(),
                MappingRule::Transform {
                    source_key: OpenTelemetryGenAIAttributes::USAGE_COMPLETION_TOKENS.to_owned(),
                    target_key: LangfuseAttributes::OBSERVATION_USAGE_OUTPUT.to_owned(),
                    transformer: Transformer::Identity,
                },
            ),
        );
        rules.push(
            (
                MODEL_PARAMETERS_RULE.to_owned(),
                MappingRule::Complex {
                    source_key: REQUEST_PATTERN.to_owned(),
                    mapper: Expansion::ModelParameters,
                },
            ),
        );
        rules.push(
            (
                LangfuseAttributes::TRACE_USER_ID.to_owned(),
                MappingRule::Bidirectional {
                    langfuse_key: LangfuseAttributes::TRACE_USER_ID.to_owned(),
                    otel_key: LangfuseAttributes::TRACE_USER_ID.to_owned(),
                },
            ),
        );
        rules.push(
            (
                LangfuseAttributes::TRACE_SESSION_ID.to_owned(),
                MappingRule::Bidirectional {
                    langfuse_key: LangfuseAttributes::TRACE_SESSION_ID.to_owned(),
                    otel_key: LangfuseAttributes::TRACE_SESSION_ID.to_owned(),
                },
            ),
        );
        proof {
            lemma_default_rules();
            assert(entry_views(rules@) =~= default_rules());
        }
        GenAIAttributeMapper { mapping_rules: rules }
    }

    /// Adds a custom mapping rule under `key`, in the place of the rule
    /// that `key` had, if it had one.
    pub fn add_rule(&mut self, key: String, rule: MappingRule)
        ensures
            final(self)@ == upsert(old(self)@, key@, rule@),
            distinct_keys(old(self)@),
            distinct_keys(final(self)@),
    {
        proof {
            use_type_invariant(&*self);
        }
        let mut rules: Vec<(String, MappingRule)> = Vec::new();
        core::mem::swap(&mut self.mapping_rules, &mut rules);
        set_entry(&mut rules, key, rule);
        self.mapping_rules = rules;
    }

    /// Removes the mapping rule of `key` and returns it.
    pub fn remove_rule(&mut self, key: &str) -> (removed: Option<MappingRule>)
        ensures
            final(self)@ == without(old(self)@, key@),
            option_view(removed) == lookup(old(self)@, key@),
    {
        proof {
            use_type_invariant(&*self);
        }
        let mut rules: Vec<(String, MappingRule)> = Vec::new();
        core::mem::swap(&mut self.mapping_rules, &mut rules);
        let removed = remove_entry(&mut rules, key);
        self.mapping_rules = rules;
        removed
    }

    /// What one OpenTelemetry attribute gives towards Langfuse: the
    /// attributes, and its share in the model parameters.
    pub fn langfuse_part(&self, attr: &KeyValue) -> (part: (
        Vec<KeyValue>,
        Option<(String, JsonValue)>,
    ))
        ensures
            views(part.0@) == langfuse_outputs(self@, attr@),
            match part.1 {
                Some(parameter) => langfuse_parameter(self@, attr@) == Some(
                    (parameter.0@, parameter.1@),
                ),
                None => langfuse_parameter(self@, attr@) is None,
            },
    {
        let key = attr.key.as_str();
        let value = value_to_json(&attr.value);
        let mut outputs: Vec<KeyValue> = Vec::new();
        match get_entry(&self.mapping_rules, key) {
            Some(rule) => (apply_rule(rule, key, value), None),
            None => {
                if starts_with(key, REQUEST_PREFIX) && !contains(key, MODEL_WORD) {
                    let name = match strip_prefix(key, REQUEST_PREFIX) {
                        Some(rest) => rest.to_owned(),
                        None => key.to_owned(),
                    };
                    (outputs, Some((name, value)))
                } else if starts_with(key, PROMPT_PREFIX) && ends_with(key, CONTENT_SUFFIX) {
                    outputs.push(
                        json_to_key_value(LangfuseAttributes::OBSERVATION_INPUT.to_owned(), value),
                    );
                    (outputs, None)
                } else if starts_with(key, COMPLETION_PREFIX) && ends_with(key, CONTENT_SUFFIX) {
                    outputs.push(
                        json_to_key_value(LangfuseAttributes::OBSERVATION_OUTPUT.to_owned(), value),
                    );
                    (outputs, None)
                } else {
                    outputs.push(attr.clone());
                    (outputs, None)
                }
            },
        }
    }

    /// The OpenTelemetry key of the first bidirectional rule whose Langfuse
    /// key is `key`.
    pub fn reverse_lookup(&self, key: &str) -> (otel_key: Option<String>)
        ensures
            option_view(otel_key) == reverse_key(self@, key@),
    {
        let mut i: usize = 0;
        while i < self.mapping_rules.len()
            invariant
                i <= self.mapping_rules.len(),
                forall|j: int| 0 <= j < i ==> !reverses(self@[j].1, key@),
            decreases self.mapping_rules.len() - i,
        {
            match &self.mapping_rules[i].1 {
                MappingRule::Bidirectional { langfuse_key, otel_key } => {
                    if langfuse_key.as_str().eq(key) {
                        proof {
                            assert(self@[i as int].1 == self.mapping_rules@[i as int].1@);
                            lemma_reverse_key_at(self@, key@, i as int);
                        }
                        return Some(otel_key.clone());
                    }
                },
                _ => {},
            }
            i = i + 1;
        }
        proof {
            lemma_reverse_key_none(self@, key@);
        }
        None
    }

    /// What one Langfuse attribute gives towards OpenTelemetry.
    pub fn otel_part(&self, attr: &KeyValue) -> (outputs: Vec<KeyValue>)
        ensures
            views(outputs@) == otel_outputs(self@, attr@),
    {
        let key = attr.key.as_str();
        let mut outputs: Vec<KeyValue> = Vec::new();
        match self.reverse_lookup(key) {
            Some(otel_key) => {
                outputs.push(json_to_key_value(otel_key, value_to_json(&attr.value)));
            },
            None => {
                if key.eq(LangfuseAttributes::OBSERVATION_USAGE_INPUT) {
                    outputs.push(
                        json_to_key_value(
                            OpenTelemetryGenAIAttributes::USAGE_PROMPT_TOKENS.to_owned(),
                            value_to_json(&attr.value),
                        ),
                    );
                } else if key.eq(LangfuseAttributes::OBSERVATION_USAGE_OUTPUT) {
                    outputs.push(
                        json_to_key_value(
                            OpenTelemetryGenAIAttributes::USAGE_COMPLETION_TOKENS.to_owned(),
                            value_to_json(&attr.value),
                        ),
                    );
                } else if key.eq(LangfuseAttributes::OBSERVATION_MODEL_PARAMETERS) {
                    match &attr.value {
                        AttributeValue::String(text) => {
                            match JsonValue::parse(text.as_str()) {
                                Some(JsonValue::Object(members)) => {
                                    outputs = expand_parameters(&members);
                                },
                                _ => {},
                            }
                        },
                        _ => {},
                    }
                } else {
                    outputs.push(attr.clone());
                }
            },
        }
        outputs
    }
}

impl Default for GenAIAttributeMapper {
    fn default() -> (mapper: Self)
        ensures
            mapper@ == default_rules(),
    {
        Self::new()
    }
}

impl AttributeMapper for GenAIAttributeMapper {
    open spec fn langfuse_of(&self, attributes: Seq<KeyValueView>) -> Seq<KeyValueView> {
        to_langfuse(self@, attributes)
    }

    open spec fn otel_of(&self, attributes: Seq<KeyValueView>) -> Seq<KeyValueView> {
        to_otel(self@, attributes)
    }

    open spec fn can_enrich(&self, attributes: Seq<KeyValueView>) -> bool {
        total_fits(attributes)
    }

    open spec fn enriched(&self, attributes: Seq<KeyValueView>) -> Seq<KeyValueView> {
        with_total(attributes)
    }

    /// Maps OpenTelemetry attributes to Langfuse attributes.
    ///
    /// An attribute with a rule is mapped by its rule. The request
    /// parameters without a rule are gathered under their names into one
    /// JSON object, which comes last, as text under the key of the model
    /// parameters. The content of a prompt becomes the input of the
    /// observation, the content of a completion its output. Every other
    /// attribute passes through unchanged.
    fn map_to_langfuse(&self, otel_attributes: &[KeyValue]) -> (mapped: Vec<KeyValue>) {
        let mut result: Vec<KeyValue> = Vec::new();
        let mut parameters: Vec<(String, JsonValue)> = Vec::new();
        let ghost attrs = views(otel_attributes@);
        let mut i: usize = 0;
        while i < otel_attributes.len()
            invariant
                i <= otel_attributes.len(),
                attrs == views(otel_attributes@),
                views(result@) == langfuse_mapped(self@, attrs.take(i as int)),
                entry_views(parameters@) == model_parameters(self@, attrs.take(i as int)),
            decreases otel_attributes.len() - i,
        {
            let part = self.langfuse_part(&otel_attributes[i]);
            proof {
                assert(attrs.take(i + 1).drop_last() =~= attrs.take(i as int));
                assert(attrs.take(i + 1).last() == otel_attributes@[i as int]@);
            }
            append_attributes(&mut result, part.0);
            match part.1 {
                Some(parameter) => {
                    set_entry(&mut parameters, parameter.0, parameter.1);
                },
                None => {},
            }
            i = i + 1;
        }
        proof {
            assert(attrs.take(i as int) =~= attrs);
        }
        if parameters.len() > 0 {
            proof {
                lemma_object_view(parameters);
            }
            let blob = json_to_key_value(
                LangfuseAttributes::OBSERVATION_MODEL_PARAMETERS.to_owned(),
                JsonValue::Object(parameters),
            );
            result.push(blob);
        }
        result
    }

    /// Maps Langfuse attributes to OpenTelemetry attributes.
    ///
    /// An attribute whose key is the Langfuse key of a bidirectional rule
    /// gets the OpenTelemetry key of that rule. The token counts get their
    /// GenAI keys. The model parameters are taken apart into one request
    /// attribute for each member; a value that is not the text of a JSON
    /// object gives none, and is passed over in silence. Every other
    /// attribute passes through.
    fn map_to_otel(&self, langfuse_attributes: &[KeyValue]) -> (mapped: Vec<KeyValue>) {
        let mut result: Vec<KeyValue> = Vec::new();
        let ghost attrs = views(langfuse_attributes@);
        let mut i: usize = 0;
        while i < langfuse_attributes.len()
            invariant
                i <= langfuse_attributes.len(),
                attrs == views(langfuse_attributes@),
                views(result@) == to_otel(self@, attrs.take(i as int)),
            decreases langfuse_attributes.len() - i,
        {
            let part = self.otel_part(&langfuse_attributes[i]);
            proof {
                assert(attrs.take(i + 1).drop_last() =~= attrs.take(i as int));
                assert(attrs.take(i + 1).last() == langfuse_attributes@[i as int]@);
            }
            append_attributes(&mut result, part);
            i = i + 1;
        }
        proof {
            assert(attrs.take(i as int) =~= attrs);
        }
        result
    }

    /// Whether the total of the tokens, if the list states both counts,
    /// fits the integer of an attribute.
    fn can_enrich_attributes(&self, attributes: &[KeyValue]) -> (possible: bool) {
        match token_counts(attributes) {
            (Some(prompt), Some(completion)) => {
                if prompt >= 0 {
                    completion <= i64::MAX - prompt
                } else {
                    completion >= i64::MIN - prompt
                }
            },
            _ => true,
        }
    }

    /// Enriches attributes with the total of the tokens.
    ///
    /// Where the list states the prompt tokens and the completion tokens as
    /// integers, their sum is added behind the list, under the key of each
    /// vocabulary; where a count is stated more than once, the last one
    /// counts. The sum must fit the integer of an attribute.
    fn enrich_attributes(&self, attributes: &[KeyValue]) -> (enriched: Vec<KeyValue>) {
        let mut enriched = copy_attributes(attributes);
        let (prompt_tokens, completion_tokens) = token_counts(attributes);
        match (prompt_tokens, completion_tokens) {
            (Some(prompt), Some(completion)) => {
                let total = prompt + completion;
                enriched.push(
                    KeyValue::integer(OpenTelemetryGenAIAttributes::USAGE_TOTAL_TOKENS, total),
                );
                enriched.push(
                    KeyValue::integer(LangfuseAttributes::OBSERVATION_USAGE_TOTAL, total),
                );
            },
            _ => {},
        }
        enriched
    }
}

/// A pass-through mapper that doesn't modify attributes.
pub struct PassThroughMapper;

impl AttributeMapper for PassThroughMapper {
    open spec fn langfuse_of(&self, attributes: Seq<KeyValueView>) -> Seq<KeyValueView> {
        attributes
    }

    open spec fn otel_of(&self, attributes: Seq<KeyValueView>) -> Seq<KeyValueView> {
        attributes
    }

    open spec fn can_enrich(&self, attributes: Seq<KeyValueView>) -> bool {
        true
    }

    open spec fn enriched(&self, attributes: Seq<KeyValueView>) -> Seq<KeyValueView> {
        attributes
    }

    fn map_to_langfuse(&self, otel_attributes: &[KeyValue]) -> (mapped: Vec<KeyValue>) {
        copy_attributes(otel_attributes)
    }

    fn map_to_otel(&self, langfuse_attributes: &[KeyValue]) -> (mapped: Vec<KeyValue>) {
        copy_attributes(langfuse_attributes)
    }

    fn can_enrich_attributes(&self, attributes: &[KeyValue]) -> (possible: bool) {
        true
    }

    fn enrich_attributes(&self, attributes: &[KeyValue]) -> (enriched: Vec<KeyValue>) {
        copy_attributes(attributes)
    }
}

/// Rules that allow the round trip of bidirectional keys: no key has two
/// rules, a bidirectional rule stands under its own OpenTelemetry key, and
/// no two bidirectional rules share a Langfuse key.
pub open spec fn round_trip_rules(rules: RuleViews) -> bool {
    &&& distinct_keys(rules)
    &&& forall|i: int|
        0 <= i < rules.len() && rules[i].1 is Bidirectional ==> rules[i].1->Bidirectional_otel_key
            == rules[i].0
    &&& forall|i: int, j: int|
        0 <= i < rules.len() && 0 <= j < rules.len() && i != j && rules[i].1 is Bidirectional
            && rules[j].1 is Bidirectional ==> rules[i].1->Bidirectional_langfuse_key
            != rules[j].1->Bidirectional_langfuse_key
}

/// Whether the key of `attr` has a bidirectional rule.
pub open spec fn bidirectional(rules: RuleViews, attr: KeyValueView) -> bool {
    lookup(rules, attr.key) matches Some(rule) && rule is Bidirectional
}

/// The attribute with the value that it has after it went through JSON
/// twice, once in each direction of the mapping.
pub open spec fn round_tripped(attr: KeyValueView) -> KeyValueView {
    attribute(
        attr.key,
        value_of_json(json_of_value(value_of_json(json_of_value(attr.value)))),
    )
}

/// The Langfuse attribute of an attribute whose key has a bidirectional rule.
pub open spec fn forward(rules: RuleViews, attr: KeyValueView) -> KeyValueView {
    attribute(
        lookup(rules, attr.key)->0->Bidirectional_langfuse_key,
        value_of_json(json_of_value(attr.value)),
    )
}

/// Under rules that allow the round trip, the Langfuse key of an attribute
/// with a bidirectional rule leads back to the attribute's own key.
pub proof fn lemma_reverse_of_forward(rules: RuleViews, attr: KeyValueView)
    requires
        round_trip_rules(rules),
        bidirectional(rules, attr),
    ensures
        reverse_key(rules, forward(rules, attr).key) == Some(attr.key),
{
    lemma_position(rules, attr.key);
    let p = position(rules, attr.key);
    lemma_first_is_position(rules, attr.key, p);
    let target = forward(rules, attr).key;
    assert(reverses(rules[p].1, target));
    assert forall|j: int| 0 <= j < p implies !reverses(rules[j].1, target) by {
        if reverses(rules[j].1, target) {
            assert(rules[j].1->Bidirectional_langfuse_key == rules[p].1->Bidirectional_langfuse_key);
        }
    }
    lemma_reverse_key_at(rules, target, p);
}

/// Attributes whose keys have bidirectional rules return to their keys:
/// mapped to Langfuse and back, the list has as many attributes as before,
/// in the same order, each under the key it came with and with the value that the
/// two passages through JSON leave. A truth value, an integer, a string and
/// a finite float are left as they were, so such an attribute returns
/// unchanged.
pub proof fn lemma_bidirectional_round_trip(rules: RuleViews, attrs: Seq<KeyValueView>)
    requires
        round_trip_rules(rules),
        forall|i: int| 0 <= i < attrs.len() ==> bidirectional(rules, attrs[i]),
    ensures
        to_langfuse(rules, attrs) == attrs.map_values(|a: KeyValueView| forward(rules, a)),
        to_otel(rules, to_langfuse(rules, attrs)) == attrs.map_values(
            |a: KeyValueView| round_tripped(a),
        ),
        to_otel(rules, to_langfuse(rules, attrs)).len() == attrs.len(),
        forall|i: int|
            0 <= i < attrs.len() ==> to_otel(rules, to_langfuse(rules, attrs))[i].key
                == attrs[i].key,
        forall|i: int|
            0 <= i < attrs.len() && is_scalar(attrs[i].value) ==> to_otel(
                rules,
                to_langfuse(rules, attrs),
            )[i] == attrs[i],
    decreases attrs.len(),
{
    let there = attrs.map_values(|a: KeyValueView| forward(rules, a));
    let back = attrs.map_values(|a: KeyValueView| round_tripped(a));
    if attrs.len() == 0 {
        assert(to_langfuse(rules, attrs) =~= there);
        assert(to_otel(rules, there) =~= back);
    } else {
        let rest = attrs.drop_last();
        let last = attrs.last();
        assert forall|i: int| 0 <= i < rest.len() implies bidirectional(rules, rest[i]) by {
            assert(rest[i] == attrs[i]);
        }
        lemma_bidirectional_round_trip(rules, rest);
        let rest_there = rest.map_values(|a: KeyValueView| forward(rules, a));
        assert(bidirectional(rules, last));
        assert(model_parameters(rules, rest).len() == 0) by {
            lemma_no_parameters(rules, rest);
        }
        lemma_no_parameters(rules, attrs);
        assert(langfuse_outputs(rules, last) =~= seq![forward(rules, last)]);
        assert(to_langfuse(rules, attrs) =~= there);
        assert(there.drop_last() =~= rest_there);
        assert(there.last() == forward(rules, last));
        lemma_reverse_of_forward(rules, last);
        assert(otel_outputs(rules, forward(rules, last)) =~= seq![round_tripped(last)]);
        assert(to_otel(rules, there) =~= back);
    }
    assert forall|i: int| 0 <= i < attrs.len() && is_scalar(attrs[i].value) implies back[i]
        == attrs[i] by {
        lemma_scalar_round_trip(attrs[i].value);
        lemma_scalar_round_trip(value_of_json(json_of_value(attrs[i].value)));
    }
}

/// The attribute that holds the model parameters of a list, if the list
/// has any.
pub open spec fn parameter_part(rules: RuleViews, attrs: Seq<KeyValueView>) -> Seq<KeyValueView> {
    let parameters = model_parameters(rules, attrs);
    if parameters.len() > 0 {
        seq![parameters_attribute(parameters)]
    } else {
        Seq::empty()
    }
}

/// What two lists give towards Langfuse, one after the other, is what the
/// lists give one after the other.
pub proof fn lemma_langfuse_mapped_concat(
    rules: RuleViews,
    a: Seq<KeyValueView>,
    b: Seq<KeyValueView>,
)
    ensures
        langfuse_mapped(rules, a + b) == langfuse_mapped(rules, a) + langfuse_mapped(rules, b),
    decreases b.len(),
{
    if b.len() == 0 {
        assert(a + b =~= a);
        assert(langfuse_mapped(rules, a) + langfuse_mapped(rules, b) =~= langfuse_mapped(
            rules,
            a,
        ));
    } else {
        assert((a + b).drop_last() =~= a + b.drop_last());
        assert((a + b).last() == b.last());
        lemma_langfuse_mapped_concat(rules, a, b.drop_last());
        assert(langfuse_mapped(rules, a + b) =~= langfuse_mapped(rules, a) + langfuse_mapped(
            rules,
            b,
        ));
    }
}

/// What two lists give towards OpenTelemetry, one after the other, is what
/// the lists give one after the other.
pub proof fn lemma_to_otel_concat(rules: RuleViews, a: Seq<KeyValueView>, b: Seq<KeyValueView>)
    ensures
        to_otel(rules, a + b) == to_otel(rules, a) + to_otel(rules, b),
    decreases b.len(),
{
    if b.len() == 0 {
        assert(a + b =~= a);
        assert(to_otel(rules, a) + to_otel(rules, b) =~= to_otel(rules, a));
    } else {
        assert((a + b).drop_last() =~= a + b.drop_last());
        assert((a + b).last() == b.last());
        lemma_to_otel_concat(rules, a, b.drop_last());
        assert(to_otel(rules, a + b) =~= to_otel(rules, a) + to_otel(rules, b));
    }
}

/// In any list, an attribute whose key has a bidirectional rule returns to
/// its key: mapped to Langfuse and back, the list consists of what the
/// attributes before it give, then the attribute under the key it came
/// with, then what the attributes behind it give, then what the model
/// parameters give.
pub proof fn lemma_bidirectional_key_returns(rules: RuleViews, attrs: Seq<KeyValueView>, i: int)
    requires
        round_trip_rules(rules),
        0 <= i < attrs.len(),
        bidirectional(rules, attrs[i]),
    ensures
        to_otel(rules, to_langfuse(rules, attrs)) == to_otel(
            rules,
            langfuse_mapped(rules, attrs.take(i)),
        ) + seq![round_tripped(attrs[i])] + to_otel(
            rules,
            langfuse_mapped(rules, attrs.skip(i + 1)),
        ) + to_otel(rules, parameter_part(rules, attrs)),
        round_tripped(attrs[i]).key == attrs[i].key,
        is_scalar(attrs[i].value) ==> round_tripped(attrs[i]) == attrs[i],
{
    let before = attrs.take(i);
    let one = seq![attrs[i]];
    let behind = attrs.skip(i + 1);
    assert(attrs =~= before + one + behind);
    lemma_langfuse_mapped_concat(rules, before + one, behind);
    lemma_langfuse_mapped_concat(rules, before, one);
    assert(one.drop_last() =~= Seq::empty());
    assert(langfuse_mapped(rules, one.drop_last()) =~= Seq::empty());
    assert(one.last() == attrs[i]);
    assert(langfuse_mapped(rules, one) =~= langfuse_outputs(rules, attrs[i]));
    assert(langfuse_outputs(rules, attrs[i]) =~= seq![forward(rules, attrs[i])]);
    let there = seq![forward(rules, attrs[i])];
    lemma_reverse_of_forward(rules, attrs[i]);
    assert(there.drop_last() =~= Seq::empty());
    assert(to_otel(rules, there.drop_last()) =~= Seq::empty());
    assert(there.last() == forward(rules, attrs[i]));
    assert(to_otel(rules, there) =~= otel_outputs(rules, forward(rules, attrs[i])));
    assert(otel_outputs(rules, forward(rules, attrs[i])) =~= seq![round_tripped(attrs[i])]);
    let mapped_before = langfuse_mapped(rules, before);
    let mapped_behind = langfuse_mapped(rules, behind);
    assert(langfuse_mapped(rules, attrs) == mapped_before + there + mapped_behind);
    lemma_to_otel_concat(rules, mapped_before + there, mapped_behind);
    lemma_to_otel_concat(rules, mapped_before, there);
    let part = parameter_part(rules, attrs);
    assert(to_langfuse(rules, attrs) =~= langfuse_mapped(rules, attrs) + part);
    lemma_to_otel_concat(rules, langfuse_mapped(rules, attrs), part);
    if is_scalar(attrs[i].value) {
        lemma_scalar_round_trip(attrs[i].value);
        lemma_scalar_round_trip(value_of_json(json_of_value(attrs[i].value)));
    }
}

/// Attributes whose keys have rules give no model parameters.
pub proof fn lemma_no_parameters(rules: RuleViews, attrs: Seq<KeyValueView>)
    requires
        forall|i: int| 0 <= i < attrs.len() ==> lookup(rules, attrs[i].key) is Some,
    ensures
        model_parameters(rules, attrs).len() == 0,
    decreases attrs.len(),
{
    if attrs.len() > 0 {
        assert forall|i: int| 0 <= i < attrs.len() - 1 implies lookup(
            rules,
            attrs.drop_last()[i].key,
        ) is Some by {
            assert(attrs.drop_last()[i] == attrs[i]);
        }
        lemma_no_parameters(rules, attrs.drop_last());
    }
}

/// A list that states the prompt tokens and the completion tokens is
/// enriched by two attributes: their sum under the GenAI key and under the
/// Langfuse key.
pub proof fn lemma_enrichment_adds_total(attrs: Seq<KeyValueView>, prompt: i64, completion: i64)
    requires
        last_count(attrs, OpenTelemetryGenAIAttributes::USAGE_PROMPT_TOKENS@) == Some(prompt),
        last_count(attrs, OpenTelemetryGenAIAttributes::USAGE_COMPLETION_TOKENS@) == Some(
            completion,
        ),
        i64::MIN <= prompt + completion <= i64::MAX,
    ensures
        total_fits(attrs),
        with_total(attrs).len() == attrs.len() + 2,
        with_total(attrs).take(attrs.len() as int) == attrs,
        with_total(attrs)[attrs.len() as int] == int_attribute(
            OpenTelemetryGenAIAttributes::USAGE_TOTAL_TOKENS@,
            (prompt + completion) as i64,
        ),
        with_total(attrs)[attrs.len() as int + 1] == int_attribute(
            LangfuseAttributes::OBSERVATION_USAGE_TOTAL@,
            (prompt + completion) as i64,
        ),
{
    assert(with_total(attrs).take(attrs.len() as int) =~= attrs);
}

} // verus!
