//! Typed job parameters and their marshalling into the script module's
//! native key-value structure.
//!
//! A job carries an ordered list of tagged parameters. For each one, a
//! supplied value takes precedence over a default; a parameter with neither
//! contributes nothing. A credential parameter names a key that an external
//! collaborator resolves to a secret; the core decides which keys to resolve
//! ([`credential_keys`]) and then marshals with the resolution outcomes in
//! hand ([`build_parameters`]), so that a failed resolution merely omits the
//! parameter. A requirement parameter is a declarative marker and never
//! marshals a value.

use vstd::prelude::*;
use crate::values::{ScriptValue, ScriptValueView};

verus! {

/// A declarative requirement attached to a job parameter.
#[derive(Debug, Clone, PartialEq)]
pub struct Requirement {
    pub paths: Option<Vec<String>>,
}

/// The mathematical model of a [`Requirement`].
pub struct RequirementView {
    pub paths: Option<Seq<Seq<char>>>,
}

impl View for Requirement {
    type V = RequirementView;

    open spec fn view(&self) -> RequirementView {
        RequirementView { paths: self.paths.deep_view() }
    }
}

impl DeepView for Requirement {
    type V = RequirementView;

    open spec fn deep_view(&self) -> RequirementView {
        self.view()
    }
}

/// One typed job parameter: an identifier, an optional default and an
/// optional supplied value, tagged with its kind.
#[derive(Debug, Clone, PartialEq)]
pub enum Parameter {
    ArrayOfStringsParam { id: String, default: Option<Vec<String>>, value: Option<Vec<String>> },
    BooleanParam { id: String, default: Option<bool>, value: Option<bool> },
    CredentialParam { id: String, default: Option<String>, value: Option<String> },
    IntegerParam { id: String, default: Option<i64>, value: Option<i64> },
    RequirementParam { id: String, default: Option<Requirement>, value: Option<Requirement> },
    StringParam { id: String, default: Option<String>, value: Option<String> },
}

/// The mathematical model of a [`Parameter`].
pub enum ParameterView {
    ArrayOfStringsParam {
        id: Seq<char>,
        default: Option<Seq<Seq<char>>>,
        value: Option<Seq<Seq<char>>>,
    },
    BooleanParam { id: Seq<char>, default: Option<bool>, value: Option<bool> },
    CredentialParam { id: Seq<char>, default: Option<Seq<char>>, value: Option<Seq<char>> },
    IntegerParam { id: Seq<char>, default: Option<i64>, value: Option<i64> },
    RequirementParam {
        id: Seq<char>,
        default: Option<RequirementView>,
        value: Option<RequirementView>,
    },
    StringParam { id: Seq<char>, default: Option<Seq<char>>, value: Option<Seq<char>> },
}

impl View for Parameter {
    type V = ParameterView;

    open spec fn view(&self) -> ParameterView {
        match self {
            Parameter::ArrayOfStringsParam { id, default, value } => (
                ParameterView::ArrayOfStringsParam {
                    id: id@,
                    default: default.deep_view(),
                    value: value.deep_view(),
                }
            ),
            Parameter::BooleanParam { id, default, value } => (
                ParameterView::BooleanParam {
                    id: id@,
                    default: *default,
                    value: *value,
                }
            ),
            Parameter::CredentialParam { id, default, value } => (
                ParameterView::CredentialParam {
                    id: id@,
                    default: default.deep_view(),
                    value: value.deep_view(),
                }
            ),
            Parameter::IntegerParam { id, default, value } => (
                ParameterView::IntegerParam {
                    id: id@,
                    default: *default,
                    value: *value,
                }
            ),
            Parameter::RequirementParam { id, default, value } => (
                ParameterView::RequirementParam {
                    id: id@,
                    default: default.deep_view(),
                    value: value.deep_view(),
                }
            ),
            Parameter::StringParam { id, default, value } => (
                ParameterView::StringParam {
                    id: id@,
                    default: default.deep_view(),
                    value: value.deep_view(),
                }
            ),
        }
    }
}

impl DeepView for Parameter {
    type V = ParameterView;

    open spec fn deep_view(&self) -> ParameterView {
        self.view()
    }
}

/// One entry of the marshalled structure: the parameter's identifier and the
/// native value chosen for it. The entries are kept in parameter order; the
/// interpreter applies them to its key-value structure in that order.
#[derive(Debug, Clone, PartialEq)]
pub struct ParameterEntry {
    pub id: String,
    pub value: ScriptValue,
}

/// The mathematical model of a [`ParameterEntry`].
pub struct ParameterEntryView {
    pub id: Seq<char>,
    pub value: ScriptValueView,
}

impl View for ParameterEntry {
    type V = ParameterEntryView;

    open spec fn view(&self) -> ParameterEntryView {
        ParameterEntryView { id: self.id@, value: self.value@ }
    }
}

impl DeepView for ParameterEntry {
    type V = ParameterEntryView;

    open spec fn deep_view(&self) -> ParameterEntryView {
        self.view()
    }
}

/// The value-over-default resolution shared by every parameter kind.
pub open spec fn chosen<T>(value: Option<T>, default: Option<T>) -> Option<T> {
    if value is Some {
        value
    } else {
        default
    }
}

/// The credential key a credential parameter asks to resolve: its supplied
/// value, else its default, else nothing. Every other kind asks for nothing.
pub open spec fn chosen_credential_key(p: ParameterView) -> Option<Seq<char>> {
    match p {
        ParameterView::CredentialParam { id, default, value } => chosen(value, default),
        _ => Option::None,
    }
}

/// Whether a parameter asks for a credential resolution.
pub open spec fn needs_credential(p: ParameterView) -> bool {
    chosen_credential_key(p) is Some
}

/// Whether a parameter carries a supplied value.
pub open spec fn has_supplied_value(p: ParameterView) -> bool {
    match p {
        ParameterView::ArrayOfStringsParam { value, .. } => value is Some,
        ParameterView::BooleanParam { value, .. } => value is Some,
        ParameterView::CredentialParam { value, .. } => value is Some,
        ParameterView::IntegerParam { value, .. } => value is Some,
        ParameterView::RequirementParam { value, .. } => value is Some,
        ParameterView::StringParam { value, .. } => value is Some,
    }
}

/// Whether a parameter carries a default.
pub open spec fn has_default(p: ParameterView) -> bool {
    match p {
        ParameterView::ArrayOfStringsParam { default, .. } => default is Some,
        ParameterView::BooleanParam { default, .. } => default is Some,
        ParameterView::CredentialParam { default, .. } => default is Some,
        ParameterView::IntegerParam { default, .. } => default is Some,
        ParameterView::RequirementParam { default, .. } => default is Some,
        ParameterView::StringParam { default, .. } => default is Some,
    }
}

/// The entries one parameter contributes to the marshalled structure.
///
/// `credential` is the resolution outcome handed to a credential parameter:
/// the secret when resolution succeeded, nothing when it failed or when no
/// key was configured. Other kinds ignore it.
pub open spec fn entries_of(p: ParameterView, credential: Option<Seq<char>>) -> Seq<
    ParameterEntryView,
> {
    match p {
        ParameterView::ArrayOfStringsParam { id, default, value } => (
            match chosen(value, default) {
                Option::Some(items) => seq![
                    ParameterEntryView { id, value: ScriptValueView::TextList(items) },
                ],
                Option::None => Seq::empty(),
            }
        ),
        ParameterView::BooleanParam { id, default, value } => (
            match chosen(value, default) {
                Option::Some(flag) => seq![
                    ParameterEntryView { id, value: ScriptValueView::Flag(flag) },
                ],
                Option::None => Seq::empty(),
            }
        ),
        ParameterView::CredentialParam { id, default, value } => (
            match credential {
                Option::Some(secret) => seq![
                    ParameterEntryView { id, value: ScriptValueView::Text(secret) },
                ],
                Option::None => Seq::empty(),
            }
        ),
        ParameterView::IntegerParam { id, default, value } => (
            match chosen(value, default) {
                Option::Some(number) => seq![
                    ParameterEntryView { id, value: ScriptValueView::Number(number) },
                ],
                Option::None => Seq::empty(),
            }
        ),
        ParameterView::RequirementParam { .. } => Seq::empty(),
        ParameterView::StringParam { id, default, value } => (
            match chosen(value, default) {
                Option::Some(text) => seq![
                    ParameterEntryView { id, value: ScriptValueView::Text(text) },
                ],
                Option::None => Seq::empty(),
            }
        ),
    }
}

/// The ordered credential keys a parameter list asks to resolve.
pub open spec fn credential_keys_model(params: Seq<ParameterView>) -> Seq<Seq<char>>
    decreases params.len(),
{
    if params.len() == 0 {
        Seq::empty()
    } else {
        credential_keys_model(params.drop_last()) + (match chosen_credential_key(params.last()) {
            Option::Some(key) => seq![key],
            Option::None => Seq::empty(),
        })
    }
}

/// The whole marshalled structure for a parameter list, given the ordered
/// credential resolution outcomes (one per entry of
/// [`credential_keys_model`], a secret or nothing).
pub open spec fn marshal_entries(
    params: Seq<ParameterView>,
    resolved: Seq<Option<Seq<char>>>,
) -> Seq<ParameterEntryView>
    decreases params.len(),
{
    if params.len() == 0 {
        Seq::empty()
    } else {
        let p = params.last();
        let credential = if needs_credential(p) {
            let j = credential_keys_model(params.drop_last()).len() as int;
            if j < resolved.len() {
                resolved[j]
            } else {
                Option::None
            }
        } else {
            Option::None
        };
        marshal_entries(params.drop_last(), resolved) + entries_of(p, credential)
    }
}

/// A prefix never asks for more credential resolutions than the whole list.
proof fn lemma_credential_prefix_bound(params: Seq<ParameterView>, k: int)
    requires
        0 <= k <= params.len(),
    ensures
        credential_keys_model(params.take(k)).len() <= credential_keys_model(params).len(),
    decreases params.len() - k,
{
    if k == params.len() {
        assert(params.take(k) =~= params);
    } else {
        assert(params.take(k + 1).drop_last() =~= params.take(k));
        assert(params.take(k + 1).last() == params[k]);
        lemma_credential_prefix_bound(params, k + 1);
    }
}

/// Lists, in order, the credential keys the parameter list asks to resolve:
/// for each credential parameter, its supplied key, else its default key.
/// The caller resolves them and hands the outcomes to [`build_parameters`].
pub fn credential_keys(params: &Vec<Parameter>) -> (r: Vec<String>)
    ensures
        r.deep_view() == credential_keys_model(params.deep_view()),
{
    let mut keys: Vec<String> = Vec::new();
    let mut i: usize = 0;
    while i < params.len()
        invariant
            i <= params@.len(),
            keys.deep_view() == credential_keys_model(params.deep_view().take(i as int)),
        decreases params@.len() - i,
    {
        let ghost pview = params.deep_view();
        let ghost prior = keys.deep_view();
        match &params[i] {
            Parameter::CredentialParam { id, default, value } => {
                if let Option::Some(key) = value {
                    keys.push(key.clone());
                } else if let Option::Some(key) = default {
                    keys.push(key.clone());
                }
            },
            _ => {},
        }
        proof {
            assert(pview.take(i + 1).drop_last() =~= pview.take(i as int));
            assert(pview.take(i + 1).last() == pview[i as int]);
            match chosen_credential_key(pview[i as int]) {
                Option::Some(key) => {
                    assert(keys.deep_view() =~= prior + seq![key]);
                },
                Option::None => {
                    assert(keys.deep_view() =~= prior + Seq::<Seq<char>>::empty());
                },
            }
        }
        i = i + 1;
    }
    proof {
        assert(params.deep_view().take(params@.len() as int) =~= params.deep_view());
    }
    keys
}

/// Marshals a parameter list into the ordered entries of the dynamic
/// key-value structure.
///
/// `resolved` holds one resolution outcome per key listed by
/// [`credential_keys`], in the same order: the secret when the collaborator
/// resolved the key, nothing when it failed. A failed resolution, like a
/// parameter with neither value nor default, omits the parameter and never
/// stops the marshalling.
pub fn build_parameters(params: &Vec<Parameter>, resolved: &Vec<Option<String>>) -> (r: Vec<
    ParameterEntry,
>)
    requires
        resolved.deep_view().len() == credential_keys_model(params.deep_view()).len(),
    ensures
        r.deep_view() == marshal_entries(params.deep_view(), resolved.deep_view()),
{
    let mut entries: Vec<ParameterEntry> = Vec::new();
    let mut used: usize = 0;
    let mut i: usize = 0;
    while i < params.len()
        invariant
            i <= params@.len(),
            resolved.deep_view().len() == credential_keys_model(params.deep_view()).len(),
            used == credential_keys_model(params.deep_view().take(i as int)).len(),
            entries.deep_view() == marshal_entries(
                params.deep_view().take(i as int),
                resolved.deep_view(),
            ),
        decreases params@.len() - i,
    {
        let ghost pview = params.deep_view();
        let ghost prior = entries.deep_view();
        proof {
            assert(pview.take(i + 1).drop_last() =~= pview.take(i as int));
            assert(pview.take(i + 1).last() == pview[i as int]);
            lemma_credential_prefix_bound(pview, i + 1);
        }
        match &params[i] {
            Parameter::ArrayOfStringsParam { id, default, value } => {
                if let Option::Some(items) = value {
                    entries.push(
                        ParameterEntry { id: id.clone(), value: ScriptValue::TextList(items.clone()) },
                    );
                } else if let Option::Some(items) = default {
                    entries.push(
                        ParameterEntry { id: id.clone(), value: ScriptValue::TextList(items.clone()) },
                    );
                }
            },
            Parameter::BooleanParam { id, default, value } => {
                if let Option::Some(flag) = value {
                    entries.push(ParameterEntry { id: id.clone(), value: ScriptValue::Flag(*flag) });
                } else if let Option::Some(flag) = default {
                    entries.push(ParameterEntry { id: id.clone(), value: ScriptValue::Flag(*flag) });
                }
            },
            Parameter::CredentialParam { id, default, value } => {
                if value.is_some() || default.is_some() {
                    let outcome_count = resolved.len();
                    proof {
                        assert(credential_keys_model(pview.take(i + 1)).len() == used + 1);
                        assert(used < outcome_count);
                    }
                    match &resolved[used] {
                        Option::Some(secret) => {
                            entries.push(
                                ParameterEntry {
                                    id: id.clone(),
                                    value: ScriptValue::Text(secret.clone()),
                                },
                            );
                        },
                        Option::None => {},
                    }
                    used = used + 1;
                }
            },
            Parameter::IntegerParam { id, default, value } => {
                if let Option::Some(number) = value {
                    entries.push(
                        ParameterEntry { id: id.clone(), value: ScriptValue::Number(*number) },
                    );
                } else if let Option::Some(number) = default {
                    entries.push(
                        ParameterEntry { id: id.clone(), value: ScriptValue::Number(*number) },
                    );
                }
            },
            Parameter::RequirementParam { .. } => {},
            Parameter::StringParam { id, default, value } => {
                if let Option::Some(text) = value {
                    entries.push(
                        ParameterEntry { id: id.clone(), value: ScriptValue::Text(text.clone()) },
                    );
                } else if let Option::Some(text) = default {
                    entries.push(
                        ParameterEntry { id: id.clone(), value: ScriptValue::Text(text.clone()) },
                    );
                }
            },
        }
        proof {
            let p = pview[i as int];
            let credential = if needs_credential(p) {
                let j = credential_keys_model(pview.take(i as int)).len() as int;
                if j < resolved.deep_view().len() {
                    resolved.deep_view()[j]
                } else {
                    Option::None
                }
            } else {
                Option::None
            };
            assert(entries.deep_view() =~= prior + entries_of(p, credential));
        }
        i = i + 1;
    }
    proof {
        assert(params.deep_view().take(params@.len() as int) =~= params.deep_view());
    }
    entries
}

/// A parameter with neither a supplied value nor a default is omitted from
/// the marshalled structure: appending it to any parameter list leaves the
/// marshalled entries unchanged, whatever the resolution outcomes.
pub proof fn lemma_unset_parameter_omitted(
    params: Seq<ParameterView>,
    resolved: Seq<Option<Seq<char>>>,
    p: ParameterView,
)
    requires
        !has_supplied_value(p),
        !has_default(p),
    ensures
        marshal_entries(params.push(p), resolved) == marshal_entries(params, resolved),
{
    assert(params.push(p).drop_last() =~= params);
    assert(params.push(p).last() == p);
    assert(marshal_entries(params.push(p), resolved) =~= marshal_entries(params, resolved));
}

/// When both a value and a default are present, the marshalled entry carries
/// the supplied value, never the default: the parameter contributes exactly
/// one entry, keyed by its identifier, holding the value it supplied.
pub proof fn lemma_value_precedence(p: ParameterView, credential: Option<Seq<char>>)
    requires
        has_supplied_value(p),
    ensures
        p matches ParameterView::ArrayOfStringsParam { id, value: Option::Some(items), .. }
            ==> entries_of(p, credential) == seq![
            ParameterEntryView { id, value: ScriptValueView::TextList(items) },
        ],
        p matches ParameterView::BooleanParam { id, value: Option::Some(flag), .. }
            ==> entries_of(p, credential) == seq![
            ParameterEntryView { id, value: ScriptValueView::Flag(flag) },
        ],
        p matches ParameterView::IntegerParam { id, value: Option::Some(number), .. }
            ==> entries_of(p, credential) == seq![
            ParameterEntryView { id, value: ScriptValueView::Number(number) },
        ],
        p matches ParameterView::StringParam { id, value: Option::Some(text), .. }
            ==> entries_of(p, credential) == seq![
            ParameterEntryView { id, value: ScriptValueView::Text(text) },
        ],
        p matches ParameterView::CredentialParam { value: Option::Some(key), .. }
            ==> chosen_credential_key(p) == Option::Some(key),
{
}

/// A credential parameter whose resolution failed is omitted from the
/// marshalled structure, and the marshalling of the rest goes on unchanged:
/// appending it to a list whose outcomes end in a failed resolution yields
/// the same entries as the list alone.
pub proof fn lemma_unresolved_credential_omitted(
    params: Seq<ParameterView>,
    resolved: Seq<Option<Seq<char>>>,
    p: ParameterView,
)
    requires
        needs_credential(p),
        credential_keys_model(params).len() < resolved.len(),
        resolved[credential_keys_model(params).len() as int] is None,
    ensures
        marshal_entries(params.push(p), resolved) == marshal_entries(params, resolved),
{
    assert(params.push(p).drop_last() =~= params);
    assert(params.push(p).last() == p);
    assert(marshal_entries(params.push(p), resolved) =~= marshal_entries(params, resolved));
}

} // verus!
