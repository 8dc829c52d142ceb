//! The checks themselves: one rule against one field, the rules of a field in
//! their order, and the fields of a rule list.
use crate::json::{lookup, read_field, seen, Facts, Kind, Reading};
use crate::number::{alike, below, is_alike, is_below};
use crate::pattern::{regex_match, search};
use crate::text::{listed, pieces, remove_char, replace_all, replace_text, same_text, without};
use crate::validate::{message_of, template, Rules};
use vstd::prelude::*;
use vstd::string::*;
use vstd::utf8::encode_utf8;

verus! {

/// The pattern of an email address. It is anchored at the start of the text
/// only, so anything may follow the address.
pub const EMAIL_PATTERN: &'static str =
    r"^([a-z0-9_+]([a-z0-9_+.]*[a-z0-9_+])?)@([a-z0-9]+([\-\.]{1}[a-z0-9]+)*\.[a-z]{2,6})";

/// The rules of one field, in the order in which they are checked.
pub struct FieldRules {
    pub field: String,
    pub rules: Vec<Rules>,
}

impl FieldRules {
    /// The rules for the field of the given name.
    pub fn new(field: &str, rules: Vec<Rules>) -> (out: FieldRules)
        ensures
            out.field@ == field@,
            out.rules == rules,
    {
        FieldRules { field: String::from_str(field), rules }
    }
}

/// The messages of the rules that one field broke, in the order of the rules.
pub struct FieldErrors {
    pub field: String,
    pub messages: Vec<String>,
}

/// The mathematical value of a `FieldErrors`.
pub ghost struct Entry {
    pub field: Seq<char>,
    pub messages: Seq<Seq<char>>,
}

impl View for FieldErrors {
    type V = Entry;

    open spec fn view(&self) -> Entry {
        Entry { field: self.field@, messages: texts(self.messages@) }
    }
}

/// The characters of each string of a list.
pub open spec fn texts(items: Seq<String>) -> Seq<Seq<char>> {
    items.map_values(|s: String| s@)
}

/// The value of each entry of a report.
pub open spec fn entries(errors: Seq<FieldErrors>) -> Seq<Entry> {
    errors.map_values(|e: FieldErrors| e@)
}

/// The text by which a value is compared with literals: its JSON text with
/// every double quote removed.
pub open spec fn bare(value: Facts) -> Seq<char> {
    without(value.text, '"')
}

/// The number of bytes of a value's JSON text in UTF-8.
pub open spec fn byte_length(value: Facts) -> int {
    encode_utf8(value.text).len() as int
}

/// Whether a text starts with an email address. A pattern that did not
/// compile would match nothing.
pub open spec fn email_shaped(text: Seq<char>) -> bool {
    regex_match(EMAIL_PATTERN@, text) == Some(true)
}

/// The name of the other field that a cross-field rule refers to.
pub open spec fn referred(rule: Rules) -> Option<Seq<char>> {
    match rule {
        Rules::GreaterThan { field } => Some(field@),
        Rules::LessThan { field } => Some(field@),
        Rules::Equal { field } => Some(field@),
        _ => None,
    }
}

/// Whether a value that is present breaks a rule. `other` is the field that a
/// cross-field rule refers to, `None` where the document has no such field.
///
/// The comparisons report a failure when the relation they test holds: the
/// value below the other for `GreaterThan`, above it for `LessThan`, equal to
/// it for `Equal`, and equal to the literal for `EqualString`. The bounds of
/// `Min` and `Max` are compared with the length as integers, so no text is
/// shorter than a negative bound and every text is longer than one. The
/// reserved variants are never satisfied.
pub open spec fn fails(rule: Rules, value: Facts, other: Option<Facts>) -> bool {
    match rule {
        Rules::Required => value.kind == Kind::Null,
        Rules::Numeric => value.kind != Kind::Number,
        Rules::Array => value.kind != Kind::Array,
        Rules::Boolean => value.kind != Kind::Boolean,
        Rules::String => value.kind != Kind::Text,
        Rules::Email => !email_shaped(bare(value)),
        Rules::In { value: list } => !pieces(list@, ',').contains(bare(value)),
        Rules::NotIn { value: list } => pieces(list@, ',').contains(bare(value)),
        Rules::Between { min, max } => match value.integer {
            Some(v) => v > max || v < min,
            None => true,
        },
        Rules::Min { value: bound } => byte_length(value) < bound,
        Rules::Max { value: bound } => byte_length(value) > bound,
        Rules::EqualString { value: literal } => bare(value) == literal@,
        Rules::GreaterThan { field } => match other {
            Some(o) => below(value.double_bits, o.double_bits),
            None => true,
        },
        Rules::LessThan { field } => match other {
            Some(o) => below(o.double_bits, value.double_bits),
            None => true,
        },
        Rules::Equal { field } => match other {
            Some(o) => alike(value.double_bits, o.double_bits),
            None => true,
        },
        _ => true,
    }
}

/// The message, before the field's name is written in, with which a broken
/// rule is reported: the rule's own, except that a cross-field rule whose
/// other field is missing reports that field as missing, and that a reserved
/// variant reports an unknown error.
pub open spec fn complaint(rule: Rules, other: Option<Facts>) -> Seq<char> {
    match rule {
        Rules::GreaterThan { field } => if other is None {
            template(Rules::NoneExist { field })
        } else {
            template(rule)
        },
        Rules::LessThan { field } => if other is None {
            template(Rules::NoneExist { field })
        } else {
            template(rule)
        },
        Rules::Equal { field } => if other is None {
            template(Rules::NoneExist { field })
        } else {
            template(rule)
        },
        Rules::Date => "Unknown error."@,
        Rules::Json => "Unknown error."@,
        Rules::InArray { field } => "Unknown error."@,
        Rules::NoneExist { field } => "Unknown error."@,
        _ => template(rule),
    }
}

/// A message with the field's name in place of every `:field`.
pub open spec fn render(message: Seq<char>, field: Seq<char>) -> Seq<char> {
    replace_all(message, ":field"@, field)
}

/// The message that one rule gives for a value that is present, or `None`
/// where the value satisfies the rule.
pub open spec fn verdict(rule: Rules, field: Seq<char>, value: Facts, other: Option<Facts>) -> Option<
    Seq<char>,
> {
    if fails(rule, value, other) {
        Some(render(complaint(rule, other), field))
    } else {
        None
    }
}

/// The message that one rule gives for one field of a document. A field that
/// the document lacks breaks every rule, each with the rule's own message.
pub open spec fn outcome(doc: serde_json::Value, field: Seq<char>, rule: Rules) -> Option<Seq<char>> {
    match lookup(doc, field) {
        Some(value) => verdict(
            rule,
            field,
            value,
            match referred(rule) {
                Some(name) => lookup(doc, name),
                None => None,
            },
        ),
        None => Some(render(template(rule), field)),
    }
}

/// The messages that a list of rules gives for one field, in the order of the
/// rules.
pub open spec fn field_messages(doc: serde_json::Value, field: Seq<char>, rules: Seq<Rules>) -> Seq<
    Seq<char>,
>
    decreases rules.len(),
{
    if rules.len() == 0 {
        Seq::empty()
    } else {
        let before = field_messages(doc, field, rules.drop_last());
        match outcome(doc, field, rules.last()) {
            Some(message) => before.push(message),
            None => before,
        }
    }
}

/// The report for a document: for each field of the list that broke a rule,
/// in the order of the list, the field with its messages. A field that broke
/// no rule has no entry.
pub open spec fn report(doc: serde_json::Value, mapping: Seq<FieldRules>) -> Seq<Entry>
    decreases mapping.len(),
{
    if mapping.len() == 0 {
        Seq::empty()
    } else {
        let before = report(doc, mapping.drop_last());
        let last = mapping.last();
        let found = field_messages(doc, last.field@, last.rules@);
        if found.len() > 0 {
            before.push(Entry { field: last.field@, messages: found })
        } else {
            before
        }
    }
}

/// Writes the field's name into a message.
pub fn fill_in(message: &str, field: &str) -> (out: String)
    ensures
        out@ == render(message@, field@),
{
    replace_text(message, ":field", field)
}

/// The message of a rule with the field's name written in.
pub fn render_rule(rule: &Rules, field: &str) -> (out: String)
    ensures
        out@ == render(template(*rule), field@),
{
    let raw = message_of(rule);
    fill_in(raw.as_str(), field)
}

/// Whether the email rule is broken, given what the search for the email
/// pattern in the value's text answered: it is, unless the pattern was found.
pub fn email_broken(answer: Option<bool>) -> (broken: bool)
    ensures
        broken == (answer != Some(true)),
{
    match answer {
        Some(found) => !found,
        None => true,
    }
}

/// Whether a value that is present breaks a rule.
fn is_broken(rule: &Rules, value: &Reading, other: &Option<Reading>) -> (broken: bool)
    ensures
        broken == fails(*rule, value@, seen(*other)),
{
    match rule {
        Rules::Required => value.kind == Kind::Null,
        Rules::Numeric => value.kind != Kind::Number,
        Rules::Array => value.kind != Kind::Array,
        Rules::Boolean => value.kind != Kind::Boolean,
        Rules::String => value.kind != Kind::Text,
        Rules::Email => {
            let plain = remove_char(value.text.as_str(), '"');
            email_broken(search(EMAIL_PATTERN, plain.as_str()))
        },
        Rules::In { value: list } => {
            let plain = remove_char(value.text.as_str(), '"');
            !listed(list.as_str(), ',', plain.as_str())
        },
        Rules::NotIn { value: list } => {
            let plain = remove_char(value.text.as_str(), '"');
            listed(list.as_str(), ',', plain.as_str())
        },
        Rules::Between { min, max } => match value.integer {
            Some(v) => v > *max || v < *min,
            None => true,
        },
        Rules::Min { value: bound } => {
            let length: usize = value.text.as_str().as_bytes().len();
            *bound >= 0 && (length as u64) < (*bound as u64)
        },
        Rules::Max { value: bound } => {
            let length: usize = value.text.as_str().as_bytes().len();
            *bound < 0 || (length as u64) > (*bound as u64)
        },
        Rules::EqualString { value: literal } => {
            let plain = remove_char(value.text.as_str(), '"');
            same_text(plain.as_str(), literal.as_str())
        },
        Rules::GreaterThan { field: _ } => match other {
            Some(o) => is_below(value.double_bits, o.double_bits),
            None => true,
        },
        Rules::LessThan { field: _ } => match other {
            Some(o) => is_below(o.double_bits, value.double_bits),
            None => true,
        },
        Rules::Equal { field: _ } => match other {
            Some(o) => is_alike(value.double_bits, o.double_bits),
            None => true,
        },
        _ => true,
    }
}

/// The message of a cross-field rule: the rule's own where the other field is
/// there, else the one that reports the other field as missing.
fn cross_message(rule: &Rules, name: &String, other: &Option<Reading>) -> (message: String)
    requires
        referred(*rule) == Some(name@),
    ensures
        message@ == complaint(*rule, seen(*other)),
{
    if other.is_none() {
        let missing = Rules::NoneExist { field: name.clone() };
        let message = message_of(&missing);
        assert(message@ == complaint(*rule, seen(*other)));
        message
    } else {
        message_of(rule)
    }
}

/// The message with which a broken rule is reported, before the field's name
/// is written in.
fn complaint_of(rule: &Rules, other: &Option<Reading>) -> (message: String)
    ensures
        message@ == complaint(*rule, seen(*other)),
{
    match rule {
        Rules::GreaterThan { field } => cross_message(rule, field, other),
        Rules::LessThan { field } => cross_message(rule, field, other),
        Rules::Equal { field } => cross_message(rule, field, other),
        Rules::Date => String::from_str("Unknown error."),
        Rules::Json => String::from_str("Unknown error."),
        Rules::InArray { field: _ } => String::from_str("Unknown error."),
        Rules::NoneExist { field: _ } => String::from_str("Unknown error."),
        _ => message_of(rule),
    }
}

/// Checks one rule against a value that has been read. `other` is the field
/// that a cross-field rule refers to, as it was read, or `None` where the
/// document has none of that name.
pub fn check_reading(rule: &Rules, field: &str, value: &Reading, other: &Option<Reading>) -> (message:
    Option<String>)
    ensures
        match message {
            Some(m) => verdict(*rule, field@, value@, seen(*other)) == Some(m@),
            None => verdict(*rule, field@, value@, seen(*other)) is None,
        },
{
    if is_broken(rule, value, other) {
        let raw = complaint_of(rule, other);
        Some(fill_in(raw.as_str(), field))
    } else {
        None
    }
}

/// Reads the field that a cross-field rule refers to.
fn read_referred(rule: &Rules, json: &serde_json::Value) -> (other: Option<Reading>)
    ensures
        seen(other) == match referred(*rule) {
            Some(name) => lookup(*json, name),
            None => None,
        },
{
    match rule {
        Rules::GreaterThan { field } => read_field(json, field.as_str()),
        Rules::LessThan { field } => read_field(json, field.as_str()),
        Rules::Equal { field } => read_field(json, field.as_str()),
        _ => None,
    }
}

/// Checks one rule against a field that has been read already.
fn check_read(rule: &Rules, field: &str, value: &Option<Reading>, json: &serde_json::Value) -> (message:
    Option<String>)
    requires
        seen(*value) == lookup(*json, field@),
    ensures
        match message {
            Some(m) => outcome(*json, field@, *rule) == Some(m@),
            None => outcome(*json, field@, *rule) is None,
        },
{
    match value {
        Some(reading) => {
            let other = read_referred(rule, json);
            check_reading(rule, field, reading, &other)
        },
        None => Some(render_rule(rule, field)),
    }
}

/// Checks one rule against one field of a document, and gives the message
/// with the field's name written in where the rule is broken.
pub fn error_checker(rule: &Rules, field: &str, json: &serde_json::Value) -> (message: Option<String>)
    ensures
        match message {
            Some(m) => outcome(*json, field@, *rule) == Some(m@),
            None => outcome(*json, field@, *rule) is None,
        },
{
    let value = read_field(json, field);
    check_read(rule, field, &value, json)
}

/// Checks the rules of one field in their order and collects the messages of
/// those that are broken.
pub fn required(rules: &Vec<Rules>, field: &str, json: &serde_json::Value) -> (errors: Vec<String>)
    ensures
        texts(errors@) == field_messages(*json, field@, rules@),
{
    let value = read_field(json, field);
    let mut errors: Vec<String> = Vec::new();
    let mut i: usize = 0;
    assert(rules@.take(0) =~= Seq::<Rules>::empty());
    assert(texts(errors@) =~= Seq::<Seq<char>>::empty());
    while i < rules.len()
        invariant
            i <= rules.len(),
            seen(value) == lookup(*json, field@),
            texts(errors@) == field_messages(*json, field@, rules@.take(i as int)),
        decreases rules.len() - i,
    {
        assert(rules@.take(i + 1).drop_last() =~= rules@.take(i as int));
        assert(rules@.take(i + 1).last() == rules@[i as int]);
        let ghost before = errors@;
        match check_read(&rules[i], field, &value, json) {
            Some(message) => {
                errors.push(message);
                assert(texts(errors@) =~= texts(before).push(message@));
            },
            None => {},
        }
        i += 1;
    }
    assert(rules@.take(rules.len() as int) =~= rules@);
    errors
}

/// Checks every field of the rule list against the document. The report has
/// an entry for each field that broke a rule, in the order of the list, with
/// the messages in the order of the field's rules; a field that broke none has
/// no entry.
pub fn validate(json: serde_json::Value, rules: Vec<FieldRules>) -> (errors: Vec<FieldErrors>)
    ensures
        entries(errors@) == report(json, rules@),
        forall|i: int| 0 <= i < errors.len() ==> (#[trigger] errors[i]).messages.len() > 0,
{
    let mut errors: Vec<FieldErrors> = Vec::new();
    let mut i: usize = 0;
    assert(rules@.take(0) =~= Seq::<FieldRules>::empty());
    assert(entries(errors@) =~= Seq::<Entry>::empty());
    while i < rules.len()
        invariant
            i <= rules.len(),
            entries(errors@) == report(json, rules@.take(i as int)),
            forall|k: int| 0 <= k < errors.len() ==> (#[trigger] errors[k]).messages.len() > 0,
        decreases rules.len() - i,
    {
        assert(rules@.take(i + 1).drop_last() =~= rules@.take(i as int));
        assert(rules@.take(i + 1).last() == rules@[i as int]);
        let ghost before = errors@;
        let found = required(&rules[i].rules, rules[i].field.as_str(), &json);
        if found.len() > 0 {
            let entry = FieldErrors { field: rules[i].field.clone(), messages: found };
            errors.push(entry);
            assert(entries(errors@) =~= entries(before).push(entry@));
        }
        i += 1;
    }
    assert(rules@.take(rules.len() as int) =~= rules@);
    errors
}

} // verus!
