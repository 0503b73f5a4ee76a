use vstd::prelude::*;
use vstd::string::StringExecFns;
use crate::status::error_code_to_status_code;
use crate::status::reason_text;
use crate::status::spec_status_class;
use crate::status::spec_status_code;
use crate::status::status_code_to_class;
use crate::status::status_text_of;

verus! {

/// The value of one dimensional tag: a string or a signed integer.
#[derive(Clone, Debug, PartialEq, Eq)]
pub enum TagValue {
    Text(String),
    Int(i64),
}

/// One dimensional tag attached to an observation.
#[derive(Clone, Debug, PartialEq, Eq)]
pub struct Tag {
    pub key: String,
    pub value: TagValue,
}

/// The mathematical value of a tag value.
#[verifier::ext_equal]
pub enum TagValueModel {
    Text(Seq<char>),
    Int(int),
}

/// The mathematical value of a tag.
#[verifier::ext_equal]
pub struct TagModel {
    pub key: Seq<char>,
    pub value: TagValueModel,
}

impl View for TagValue {
    type V = TagValueModel;

    open spec fn view(&self) -> TagValueModel {
        match self {
            TagValue::Text(s) => TagValueModel::Text(s@),
            TagValue::Int(i) => TagValueModel::Int(*i as int),
        }
    }
}

impl View for Tag {
    type V = TagModel;

    open spec fn view(&self) -> TagModel {
        TagModel { key: self.key@, value: self.value@ }
    }
}

/// The models of a sequence of tags, in order.
pub open spec fn tag_models(s: Seq<Tag>) -> Seq<TagModel> {
    s.map_values(|t: Tag| t@)
}

/// What telemetry reads from a parsed request: the declared operation name,
/// and the target database where resolution succeeded. `database` is `None`
/// where resolution failed; telemetry degrades to an empty name rather than
/// failing the request.
#[derive(Clone, Debug, PartialEq, Eq)]
pub struct RequestSummary {
    pub operation: String,
    pub database: Option<String>,
}

/// How one request ended: a success, or a command error with its numeric
/// code and the retry count the gateway reached.
#[derive(Clone, Copy, Debug, PartialEq, Eq)]
pub enum RequestOutcome {
    Success,
    Failure { code: i32, retries: usize },
}

/// The numeric error code of an outcome: zero on success, the command
/// error's own code on failure.
pub open spec fn spec_error_code(outcome: RequestOutcome) -> i32 {
    match outcome {
        RequestOutcome::Success => 0,
        RequestOutcome::Failure { code, .. } => code,
    }
}

/// The operation tag: the request's declared name, or a sentinel where
/// header parsing failed and no request exists.
pub open spec fn spec_operation_name(request: Option<RequestSummary>) -> Seq<char> {
    match request {
        Option::Some(r) => r.operation@,
        Option::None => "unknown"@,
    }
}

/// The database tag: the resolved name, or empty where there is no request
/// or resolution failed.
pub open spec fn spec_database_name(request: Option<RequestSummary>) -> Seq<char> {
    match request {
        Option::Some(r) => match r.database {
            Option::Some(d) => d@,
            Option::None => ""@,
        },
        Option::None => ""@,
    }
}

/// The full tag set derived for one observation, in order: the constant
/// transport and auth dimensions, then the per-request ones.
pub open spec fn spec_tags(
    request: Option<RequestSummary>,
    outcome: RequestOutcome,
    collection: Seq<char>,
) -> Seq<TagModel> {
    let code = spec_error_code(outcome);
    let status = spec_status_code(code);
    seq![
        TagModel { key: "Authentication"@, value: TagValueModel::Text("SASL"@) },
        TagModel { key: "CollectionName"@, value: TagValueModel::Text(collection) },
        TagModel { key: "Protocol"@, value: TagValueModel::Text("TCP"@) },
        TagModel { key: "DatabaseName"@, value: TagValueModel::Text(spec_database_name(request)) },
        TagModel { key: "ErrorCode"@, value: TagValueModel::Int(code as int) },
        TagModel { key: "Operation"@, value: TagValueModel::Text(spec_operation_name(request)) },
        TagModel { key: "StatusCode"@, value: TagValueModel::Int(status as int) },
        TagModel { key: "StatusCodeClass"@, value: TagValueModel::Text(spec_status_class(status)) },
        TagModel { key: "StatusText"@, value: TagValueModel::Text(reason_text(status as int)) },
    ]
}

/// A success outcome always yields error code zero and a failure outcome
/// always yields its command error's own code, both in the outcome's code and
/// in the `ErrorCode` tag of every derived tag set.
pub proof fn lemma_error_code_tag(
    request: Option<RequestSummary>,
    outcome: RequestOutcome,
    collection: Seq<char>,
)
    ensures
        outcome is Success ==> spec_error_code(outcome) == 0,
        (outcome matches RequestOutcome::Failure { code, .. } ==> spec_error_code(outcome)
            == code),
        spec_tags(request, outcome, collection)[4] == (TagModel {
            key: "ErrorCode"@,
            value: TagValueModel::Int(spec_error_code(outcome) as int),
        }),
{
}

/// A missing request yields the sentinel operation name and an empty
/// database name in the derived tag set — degraded defaults, never an error.
pub proof fn lemma_missing_request_defaults(outcome: RequestOutcome, collection: Seq<char>)
    ensures
        spec_operation_name(Option::None) == "unknown"@,
        spec_database_name(Option::None) == ""@,
        spec_tags(Option::None, outcome, collection)[5] == (TagModel {
            key: "Operation"@,
            value: TagValueModel::Text("unknown"@),
        }),
        spec_tags(Option::None, outcome, collection)[3] == (TagModel {
            key: "DatabaseName"@,
            value: TagValueModel::Text(""@),
        }),
{
}

/// Derives the tag set for one finished exchange. Total: a missing request or
/// an unresolved database degrades to its default value, never to an error.
pub fn derive_tags(
    request: &Option<RequestSummary>,
    outcome: &RequestOutcome,
    collection: String,
) -> (r: Vec<Tag>)
    ensures
        tag_models(r@) == spec_tags(*request, *outcome, collection@),
{
    let db: String = match request {
        Option::Some(req) => match &req.database {
            Option::Some(d) => d.clone(),
            Option::None => String::new(),
        },
        Option::None => String::new(),
    };
    let operation_name: String = match request {
        Option::Some(req) => req.operation.clone(),
        Option::None => String::from_str("unknown"),
    };
    let error_code: i32 = match outcome {
        RequestOutcome::Success => 0,
        RequestOutcome::Failure { code, .. } => *code,
    };
    let status_code: u16 = error_code_to_status_code(error_code);
    let status_code_class: &str = status_code_to_class(status_code);
    let status_text: String = status_text_of(status_code);

    let mut attributes: Vec<Tag> = Vec::new();
    attributes.push(Tag {
        key: String::from_str("Authentication"),
        value: TagValue::Text(String::from_str("SASL")),
    });
    attributes.push(Tag { key: String::from_str("CollectionName"), value: TagValue::Text(collection) });
    attributes.push(Tag {
        key: String::from_str("Protocol"),
        value: TagValue::Text(String::from_str("TCP")),
    });
    attributes.push(Tag { key: String::from_str("DatabaseName"), value: TagValue::Text(db) });
    attributes.push(Tag {
        key: String::from_str("ErrorCode"),
        value: TagValue::Int(error_code as i64),
    });
    attributes.push(Tag { key: String::from_str("Operation"), value: TagValue::Text(operation_name) });
    attributes.push(Tag {
        key: String::from_str("StatusCode"),
        value: TagValue::Int(status_code as i64),
    });
    attributes.push(Tag {
        key: String::from_str("StatusCodeClass"),
        value: TagValue::Text(String::from_str(status_code_class)),
    });
    attributes.push(Tag { key: String::from_str("StatusText"), value: TagValue::Text(status_text) });
    proof {
        reveal_strlit("");
        assert(tag_models(attributes@) =~~= spec_tags(*request, *outcome, collection@));
    }
    attributes
}

} // verus!
