//! Discovery of the script module's declared parameter schema.
//!
//! The module declares its parameters as a sequence of records, each with a
//! label, an identifier, a list of accepted kind tags and an optional
//! required flag. The interpreter boundary hands those records over as plain
//! optional values, one option per field, with nothing for a field that is
//! missing; the core turns them into typed schema entries, in the declared
//! order. A missing required field or an unrecognized kind tag is a fatal
//! schema error: the worker must not advertise a schema it cannot describe.

use vstd::prelude::*;
use vstd::string::StringExecFns;

verus! {

/// An enumerated tag naming one parameter kind a schema entry accepts.
#[derive(Debug, Clone, Copy, PartialEq, Eq, Structural)]
pub enum ParameterType {
    /// Declared by the tag `array_of_strings`.
    ArrayOfStrings,
    /// Declared by the tag `boolean`.
    Boolean,
    /// Declared by the tag `credential`.
    Credential,
    /// Declared by the tag `integer`.
    Integer,
    /// Declared by the tag `requirement`.
    Requirement,
    /// Declared by the tag `string`.
    StringType,
}

/// One raw schema record, as the interpreter boundary hands it over: each
/// declared field as a plain value, or nothing where the record lacks it.
#[derive(Debug, Clone, PartialEq)]
pub struct SchemaRecord {
    pub label: Option<String>,
    pub identifier: Option<String>,
    pub kind: Option<Vec<String>>,
    pub required: Option<bool>,
}

/// The mathematical model of a [`SchemaRecord`].
pub struct SchemaRecordView {
    pub label: Option<Seq<char>>,
    pub identifier: Option<Seq<char>>,
    pub kind: Option<Seq<Seq<char>>>,
    pub required: Option<bool>,
}

impl View for SchemaRecord {
    type V = SchemaRecordView;

    open spec fn view(&self) -> SchemaRecordView {
        SchemaRecordView {
            label: self.label.deep_view(),
            identifier: self.identifier.deep_view(),
            kind: self.kind.deep_view(),
            required: self.required,
        }
    }
}

impl DeepView for SchemaRecord {
    type V = SchemaRecordView;

    open spec fn deep_view(&self) -> SchemaRecordView {
        self.view()
    }
}

/// One typed schema entry: label, identifier, the ordered accepted kinds and
/// the required flag (absent in the record means not required).
#[derive(Debug, Clone, PartialEq)]
pub struct ParameterSchemaEntry {
    pub label: String,
    pub identifier: String,
    pub kind: Vec<ParameterType>,
    pub required: bool,
}

/// The mathematical model of a [`ParameterSchemaEntry`].
pub struct ParameterSchemaEntryView {
    pub label: Seq<char>,
    pub identifier: Seq<char>,
    pub kind: Seq<ParameterType>,
    pub required: bool,
}

impl View for ParameterSchemaEntry {
    type V = ParameterSchemaEntryView;

    open spec fn view(&self) -> ParameterSchemaEntryView {
        ParameterSchemaEntryView {
            label: self.label@,
            identifier: self.identifier@,
            kind: self.kind@,
            required: self.required,
        }
    }
}

impl DeepView for ParameterSchemaEntry {
    type V = ParameterSchemaEntryView;

    open spec fn deep_view(&self) -> ParameterSchemaEntryView {
        self.view()
    }
}

/// A fatal schema error: the declared records break the module contract.
#[derive(Debug, Clone, PartialEq)]
pub enum SchemaError {
    /// A record has no label.
    MissingLabel,
    /// A record has no identifier.
    MissingIdentifier,
    /// A record has no kind list.
    MissingKind,
    /// A kind list names a tag that matches no parameter kind.
    UnknownKind { tag: String },
}

/// The mathematical model of a [`SchemaError`].
pub enum SchemaErrorView {
    MissingLabel,
    MissingIdentifier,
    MissingKind,
    UnknownKind { tag: Seq<char> },
}

impl View for SchemaError {
    type V = SchemaErrorView;

    open spec fn view(&self) -> SchemaErrorView {
        match self {
            SchemaError::MissingLabel => SchemaErrorView::MissingLabel,
            SchemaError::MissingIdentifier => SchemaErrorView::MissingIdentifier,
            SchemaError::MissingKind => SchemaErrorView::MissingKind,
            SchemaError::UnknownKind { tag } => SchemaErrorView::UnknownKind { tag: tag@ },
        }
    }
}

impl DeepView for SchemaError {
    type V = SchemaErrorView;

    open spec fn deep_view(&self) -> SchemaErrorView {
        self.view()
    }
}

/// The descriptive message of a fatal schema error.
pub open spec fn spec_schema_message(e: SchemaErrorView) -> Seq<char> {
    match e {
        SchemaErrorView::MissingLabel => "missing label in parameter"@,
        SchemaErrorView::MissingIdentifier => "missing identifier in parameter"@,
        SchemaErrorView::MissingKind => "missing kind in parameter"@,
        SchemaErrorView::UnknownKind { tag } => "unknown parameter kind: "@ + tag,
    }
}

impl SchemaError {
    /// Builds the descriptive message that aborting discovery must carry.
    pub fn message(&self) -> (r: String)
        ensures
            r@ == spec_schema_message(self@),
    {
        match self {
            SchemaError::MissingLabel => String::from_str("missing label in parameter"),
            SchemaError::MissingIdentifier => String::from_str("missing identifier in parameter"),
            SchemaError::MissingKind => String::from_str("missing kind in parameter"),
            SchemaError::UnknownKind { tag } => {
                let mut m = String::from_str("unknown parameter kind: ");
                m.append(tag.as_str());
                m
            },
        }
    }
}

/// The parameter kind a tag names, if any.
pub open spec fn parameter_type_of_tag(tag: Seq<char>) -> Option<ParameterType> {
    if tag == "array_of_strings"@ {
        Option::Some(ParameterType::ArrayOfStrings)
    } else if tag == "boolean"@ {
        Option::Some(ParameterType::Boolean)
    } else if tag == "credential"@ {
        Option::Some(ParameterType::Credential)
    } else if tag == "integer"@ {
        Option::Some(ParameterType::Integer)
    } else if tag == "requirement"@ {
        Option::Some(ParameterType::Requirement)
    } else if tag == "string"@ {
        Option::Some(ParameterType::StringType)
    } else {
        Option::None
    }
}

/// Maps one declared kind tag to its parameter kind; an unrecognized tag
/// maps to nothing.
pub fn parse_parameter_type(tag: &String) -> (r: Option<ParameterType>)
    ensures
        r == parameter_type_of_tag(tag@),
{
    if *tag == String::from_str("array_of_strings") {
        Option::Some(ParameterType::ArrayOfStrings)
    } else if *tag == String::from_str("boolean") {
        Option::Some(ParameterType::Boolean)
    } else if *tag == String::from_str("credential") {
        Option::Some(ParameterType::Credential)
    } else if *tag == String::from_str("integer") {
        Option::Some(ParameterType::Integer)
    } else if *tag == String::from_str("requirement") {
        Option::Some(ParameterType::Requirement)
    } else if *tag == String::from_str("string") {
        Option::Some(ParameterType::StringType)
    } else {
        Option::None
    }
}

/// The kinds a whole tag list declares, or the first unrecognized tag.
pub open spec fn kinds_of_tags(tags: Seq<Seq<char>>) -> Result<Seq<ParameterType>, Seq<char>>
    decreases tags.len(),
{
    if tags.len() == 0 {
        Result::Ok(Seq::empty())
    } else {
        match kinds_of_tags(tags.drop_last()) {
            Result::Err(tag) => Result::Err(tag),
            Result::Ok(rest) => match parameter_type_of_tag(tags.last()) {
                Option::Some(kind) => Result::Ok(rest.push(kind)),
                Option::None => Result::Err(tags.last()),
            },
        }
    }
}

/// The typed entry one record declares, or the first contract violation in
/// it, checked in declaration order: label, identifier, kind, required.
pub open spec fn entry_of_record(r: SchemaRecordView) -> Result<
    ParameterSchemaEntryView,
    SchemaErrorView,
> {
    match r.label {
        Option::None => Result::Err(SchemaErrorView::MissingLabel),
        Option::Some(label) => match r.identifier {
            Option::None => Result::Err(SchemaErrorView::MissingIdentifier),
            Option::Some(identifier) => match r.kind {
                Option::None => Result::Err(SchemaErrorView::MissingKind),
                Option::Some(tags) => match kinds_of_tags(tags) {
                    Result::Err(tag) => Result::Err(SchemaErrorView::UnknownKind { tag }),
                    Result::Ok(kinds) => Result::Ok(
                        ParameterSchemaEntryView {
                            label,
                            identifier,
                            kind: kinds,
                            required: match r.required {
                                Option::Some(flag) => flag,
                                Option::None => false,
                            },
                        },
                    ),
                },
            },
        },
    }
}

/// The ordered schema a whole record list declares, or the first contract
/// violation among the records.
pub open spec fn schema_model(records: Seq<SchemaRecordView>) -> Result<
    Seq<ParameterSchemaEntryView>,
    SchemaErrorView,
>
    decreases records.len(),
{
    if records.len() == 0 {
        Result::Ok(Seq::empty())
    } else {
        match schema_model(records.drop_last()) {
            Result::Err(e) => Result::Err(e),
            Result::Ok(rest) => match entry_of_record(records.last()) {
                Result::Err(e) => Result::Err(e),
                Result::Ok(entry) => Result::Ok(rest.push(entry)),
            },
        }
    }
}

/// An unrecognized tag in a prefix decides the whole tag list.
proof fn lemma_kinds_error_persists(tags: Seq<Seq<char>>, k: int)
    requires
        0 <= k <= tags.len(),
        kinds_of_tags(tags.take(k)) is Err,
    ensures
        kinds_of_tags(tags) == kinds_of_tags(tags.take(k)),
    decreases tags.len() - k,
{
    if k == tags.len() {
        assert(tags.take(k) =~= tags);
    } else {
        assert(tags.take(k + 1).drop_last() =~= tags.take(k));
        assert(tags.take(k + 1).last() == tags[k]);
        lemma_kinds_error_persists(tags, k + 1);
    }
}

/// A contract violation in a prefix decides the whole record list.
proof fn lemma_schema_error_persists(records: Seq<SchemaRecordView>, k: int)
    requires
        0 <= k <= records.len(),
        schema_model(records.take(k)) is Err,
    ensures
        schema_model(records) == schema_model(records.take(k)),
    decreases records.len() - k,
{
    if k == records.len() {
        assert(records.take(k) =~= records);
    } else {
        assert(records.take(k + 1).drop_last() =~= records.take(k));
        assert(records.take(k + 1).last() == records[k]);
        lemma_schema_error_persists(records, k + 1);
    }
}

/// The model of a schema reading's outcome.
pub open spec fn schema_result_model(r: Result<Vec<ParameterSchemaEntry>, SchemaError>) -> Result<
    Seq<ParameterSchemaEntryView>,
    SchemaErrorView,
> {
    match r {
        Result::Ok(entries) => Result::Ok(entries.deep_view()),
        Result::Err(e) => Result::Err(e@),
    }
}

/// Reads the declared schema out of the raw records, in order, or reports
/// the first contract violation among them.
pub fn read_schema(records: &Vec<SchemaRecord>) -> (r: Result<
    Vec<ParameterSchemaEntry>,
    SchemaError,
>)
    ensures
        schema_result_model(r) == schema_model(records.deep_view()),
{
    let ghost rview = records.deep_view();
    let mut entries: Vec<ParameterSchemaEntry> = Vec::new();
    let mut i: usize = 0;
    proof {
        assert(rview.take(0) =~= Seq::<SchemaRecordView>::empty());
        assert(entries.deep_view() =~= Seq::<ParameterSchemaEntryView>::empty());
    }
    while i < records.len()
        invariant
            i <= records@.len(),
            rview == records.deep_view(),
            schema_model(rview.take(i as int)) == Result::<
                Seq<ParameterSchemaEntryView>,
                SchemaErrorView,
            >::Ok(entries.deep_view()),
        decreases records@.len() - i,
    {
        let ghost prior = entries.deep_view();
        proof {
            assert(rview.take(i + 1).drop_last() =~= rview.take(i as int));
            assert(rview.take(i + 1).last() == rview[i as int]);
        }
        let record = &records[i];
        let label = match &record.label {
            Option::Some(label) => label.clone(),
            Option::None => {
                proof {
                    lemma_schema_error_persists(rview, i + 1);
                }
                return Result::Err(SchemaError::MissingLabel);
            },
        };
        let identifier = match &record.identifier {
            Option::Some(identifier) => identifier.clone(),
            Option::None => {
                proof {
                    lemma_schema_error_persists(rview, i + 1);
                }
                return Result::Err(SchemaError::MissingIdentifier);
            },
        };
        let tags = match &record.kind {
            Option::Some(tags) => tags,
            Option::None => {
                proof {
                    lemma_schema_error_persists(rview, i + 1);
                }
                return Result::Err(SchemaError::MissingKind);
            },
        };
        let ghost tview = tags.deep_view();
        let mut kinds: Vec<ParameterType> = Vec::new();
        let mut j: usize = 0;
        while j < tags.len()
            invariant
                j <= tags@.len(),
                i < rview.len(),
                rview == records.deep_view(),
                tview == tags.deep_view(),
                rview[i as int].label == Option::Some(label@),
                rview[i as int].identifier == Option::Some(identifier@),
                rview[i as int].kind == Option::Some(tview),
                rview[i as int].required == records@[i as int].required,
                schema_model(rview.take(i as int)) == Result::<
                    Seq<ParameterSchemaEntryView>,
                    SchemaErrorView,
                >::Ok(prior),
                kinds_of_tags(tview.take(j as int)) == Result::<
                    Seq<ParameterType>,
                    Seq<char>,
                >::Ok(kinds@),
            decreases tags@.len() - j,
        {
            proof {
                assert(tview.take(j + 1).drop_last() =~= tview.take(j as int));
                assert(tview.take(j + 1).last() == tview[j as int]);
            }
            let tag = &tags[j];
            match parse_parameter_type(tag) {
                Option::Some(kind) => {
                    kinds.push(kind);
                },
                Option::None => {
                    proof {
                        lemma_kinds_error_persists(tview, j + 1);
                        assert(tview.take(tview.len() as int) =~= tview);
                        assert(rview.take(i + 1).drop_last() =~= rview.take(i as int));
                        assert(rview.take(i + 1).last() == rview[i as int]);
                        lemma_schema_error_persists(rview, i + 1);
                    }
                    return Result::Err(SchemaError::UnknownKind { tag: tag.clone() });
                },
            }
            j = j + 1;
        }
        proof {
            assert(tview.take(tags@.len() as int) =~= tview);
        }
        let required = match &record.required {
            Option::Some(flag) => *flag,
            Option::None => false,
        };
        entries.push(ParameterSchemaEntry { label, identifier, kind: kinds, required });
        proof {
            let entry = entry_of_record(rview[i as int]);
            assert(entry is Ok);
            assert(entries.deep_view() =~= prior.push(entry->Ok_0));
        }
        i = i + 1;
    }
    proof {
        assert(rview.take(records@.len() as int) =~= rview);
    }
    Result::Ok(entries)
}

/// Schema discovery is idempotent: two readings of one unchanged record
/// list yield identical ordered outcomes.
pub proof fn lemma_schema_discovery_idempotent(
    records: Seq<SchemaRecordView>,
    first: Result<Seq<ParameterSchemaEntryView>, SchemaErrorView>,
    second: Result<Seq<ParameterSchemaEntryView>, SchemaErrorView>,
)
    requires
        first == schema_model(records),
        second == schema_model(records),
    ensures
        first == second,
{
}

} // verus!
