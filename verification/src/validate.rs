//! The rule vocabulary and the message that each rule carries.
use crate::text::{decimal, decimal_text};
use vstd::prelude::*;
use vstd::string::*;

verus! {

/// A validation rule. The variant decides which parameters a rule has.
///
/// `Date`, `Json` and `InArray` are reserved: they have a message and no
/// check. `NoneExist` is never configured by a caller; its message is what a
/// cross-field rule reports when the field it refers to is missing.
#[derive(Eq, PartialEq, Hash, Clone)]
#[allow(inconsistent_fields)]
pub enum Rules {
    Numeric,
    Required,
    Array,
    Between { min: i64, max: i64 },
    Boolean,
    Date,
    Email,
    InArray { field: String },
    GreaterThan { field: String },
    LessThan { field: String },
    In { value: String },
    NotIn { value: String },
    Equal { field: String },
    EqualString { value: String },
    Json,
    Max { value: i64 },
    Min { value: i64 },
    String,
    NoneExist { field: String },
}

/// A list of messages.
pub struct Message {
    pub messages: Vec<String>,
}

/// The outcome of one check: whether it passed, and if not, on which field
/// and with which message.
#[derive(Debug)]
pub struct ValidationResult {
    pub(crate) message: Option<String>,
    pub(crate) field: Option<String>,
    pub(crate) valid: bool,
}

/// The message of a rule, with the rule's own parameters written in and the
/// marker `:field` still standing where the field's name belongs.
pub open spec fn template(rule: Rules) -> Seq<char> {
    match rule {
        Rules::Numeric => ":field must be numeric."@,
        Rules::Required => ":field is required."@,
        Rules::Array => ":field must be an array."@,
        Rules::Between { min, max } => ":field must be between "@ + decimal(min as int)
            + "  and "@ + decimal(max as int) + "."@,
        Rules::Boolean => ":field must be boolean."@,
        Rules::Date => ":field must be  date."@,
        Rules::Email => ":field must be an email."@,
        Rules::InArray { field } => ":field must be in "@ + field@,
        Rules::GreaterThan { field } => ":field must be greater than "@ + field@,
        Rules::LessThan { field } => ":field must be less than "@ + field@,
        Rules::Equal { field } => ":field must be equal to  "@ + field@,
        Rules::EqualString { value } => ":field must be equal to  "@ + value@,
        Rules::Json => "Fields must be in an JSON."@,
        Rules::Max { value } => "Length of :field must be less than  "@ + decimal(value as int),
        Rules::Min { value } => "Length of :field must be greater than "@ + decimal(
            value as int,
        ),
        Rules::String => ":field must be string."@,
        Rules::NoneExist { field } => field@ + " not exists."@,
        Rules::In { value } => ":field not exists in "@ + value@,
        Rules::NotIn { value } => ":field exists in "@ + value@,
    }
}

/// A fixed text followed by a parameter.
fn followed(head: &str, tail: &str) -> (out: String)
    ensures
        out@ == head@ + tail@,
{
    let mut out = String::from_str(head);
    out.append(tail);
    out
}

/// The message of a rule that is held by reference.
pub fn message_of(rule: &Rules) -> (message: String)
    ensures
        message@ == template(*rule),
{
    match rule {
        Rules::Numeric => String::from_str(":field must be numeric."),
        Rules::Required => String::from_str(":field is required."),
        Rules::Array => String::from_str(":field must be an array."),
        Rules::Between { min, max } => {
            let mut out = String::from_str(":field must be between ");
            let low = decimal_text(*min);
            let high = decimal_text(*max);
            out.append(low.as_str());
            out.append("  and ");
            out.append(high.as_str());
            out.append(".");
            out
        },
        Rules::Boolean => String::from_str(":field must be boolean."),
        Rules::Date => String::from_str(":field must be  date."),
        Rules::Email => String::from_str(":field must be an email."),
        Rules::InArray { field } => followed(":field must be in ", field.as_str()),
        Rules::GreaterThan { field } => followed(":field must be greater than ", field.as_str()),
        Rules::LessThan { field } => followed(":field must be less than ", field.as_str()),
        Rules::Equal { field } => followed(":field must be equal to  ", field.as_str()),
        Rules::EqualString { value } => followed(":field must be equal to  ", value.as_str()),
        Rules::Json => String::from_str("Fields must be in an JSON."),
        Rules::Max { value } => {
            let bound = decimal_text(*value);
            followed("Length of :field must be less than  ", bound.as_str())
        },
        Rules::Min { value } => {
            let bound = decimal_text(*value);
            followed("Length of :field must be greater than ", bound.as_str())
        },
        Rules::String => String::from_str(":field must be string."),
        Rules::NoneExist { field } => followed(field.as_str(), " not exists."),
        Rules::In { value } => followed(":field not exists in ", value.as_str()),
        Rules::NotIn { value } => followed(":field exists in ", value.as_str()),
    }
}

/// The message of a rule: every variant has one.
pub fn rule_messages(rule: Rules) -> (message: String)
    ensures
        message@ == template(rule),
{
    message_of(&rule)
}

} // verus!
