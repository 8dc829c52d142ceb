//! What holds of every report, whatever the document and the rules.
use crate::json::lookup;
use crate::validate::{template, Rules};
use crate::validator::{entries, field_messages, render, report, FieldErrors, FieldRules};
use vstd::prelude::*;

verus! {

/// A field gets at most one message from each of its rules.
pub proof fn messages_bounded_by_rules(doc: serde_json::Value, field: Seq<char>, rules: Seq<Rules>)
    ensures
        field_messages(doc, field, rules).len() <= rules.len(),
    decreases rules.len(),
{
    if rules.len() > 0 {
        messages_bounded_by_rules(doc, field, rules.drop_last());
    }
}

/// A report has no entry with an empty list of messages: a field that broke
/// no rule is left out.
pub proof fn report_has_no_empty_entry(doc: serde_json::Value, mapping: Seq<FieldRules>)
    ensures
        forall|i: int|
            0 <= i < report(doc, mapping).len() ==> (#[trigger] report(doc, mapping)[i]).messages.len()
                > 0,
    decreases mapping.len(),
{
    if mapping.len() > 0 {
        let before = report(doc, mapping.drop_last());
        report_has_no_empty_entry(doc, mapping.drop_last());
        assert forall|i: int| 0 <= i < report(doc, mapping).len() implies (#[trigger] report(
            doc,
            mapping,
        )[i]).messages.len() > 0 by {
            if i < before.len() {
                assert(report(doc, mapping)[i] == before[i]);
            }
        }
    }
}

/// A report is no longer than the rule list.
pub proof fn report_bounded_by_mapping(doc: serde_json::Value, mapping: Seq<FieldRules>)
    ensures
        report(doc, mapping).len() <= mapping.len(),
    decreases mapping.len(),
{
    if mapping.len() > 0 {
        report_bounded_by_mapping(doc, mapping.drop_last());
    }
}

/// Every entry of a report belongs to a field of the rule list: it carries
/// that field's name and the messages of that field's rules, which are at
/// least one and at most as many as the field has rules.
pub proof fn entry_belongs_to_field(doc: serde_json::Value, mapping: Seq<FieldRules>, i: int)
    requires
        0 <= i < report(doc, mapping).len(),
    ensures
        exists|j: int|
            0 <= j < mapping.len() && report(doc, mapping)[i].field == (#[trigger] mapping[j]).field@
                && report(doc, mapping)[i].messages == field_messages(
                doc,
                mapping[j].field@,
                mapping[j].rules@,
            ) && 0 < report(doc, mapping)[i].messages.len() <= mapping[j].rules@.len(),
    decreases mapping.len(),
{
    let shorter = mapping.drop_last();
    let before = report(doc, shorter);
    if i < before.len() {
        entry_belongs_to_field(doc, shorter, i);
        let j = choose|j: int|
            0 <= j < shorter.len() && before[i].field == (#[trigger] shorter[j]).field@
                && before[i].messages == field_messages(doc, shorter[j].field@, shorter[j].rules@)
                && 0 < before[i].messages.len() <= shorter[j].rules@.len();
        assert(shorter[j] == mapping[j]);
    } else {
        let j = mapping.len() - 1;
        messages_bounded_by_rules(doc, mapping[j].field@, mapping[j].rules@);
        assert(mapping.last() == mapping[j]);
    }
}

/// A field that the document lacks gets one message from each of its rules,
/// in their order: the rule's own message with the field's name written in.
pub proof fn absent_field_breaks_every_rule(doc: serde_json::Value, field: Seq<char>, rules: Seq<Rules>)
    requires
        lookup(doc, field) is None,
    ensures
        field_messages(doc, field, rules).len() == rules.len(),
        forall|i: int|
            0 <= i < rules.len() ==> (#[trigger] field_messages(doc, field, rules)[i]) == render(
                template(rules[i]),
                field,
            ),
    decreases rules.len(),
{
    if rules.len() > 0 {
        let shorter = rules.drop_last();
        absent_field_breaks_every_rule(doc, field, shorter);
        assert forall|i: int| 0 <= i < rules.len() implies (#[trigger] field_messages(
            doc,
            field,
            rules,
        )[i]) == render(template(rules[i]), field) by {
            if i < shorter.len() {
                assert(field_messages(doc, field, rules)[i] == field_messages(doc, field, shorter)[i]);
                assert(shorter[i] == rules[i]);
            }
        }
    }
}

/// Where no two fields of the rule list have the same name, no two entries of
/// the report have.
pub proof fn report_fields_distinct(doc: serde_json::Value, mapping: Seq<FieldRules>)
    requires
        forall|i: int, j: int|
            0 <= i < j < mapping.len() ==> (#[trigger] mapping[i]).field@ != (#[trigger] mapping[j]).field@,
    ensures
        forall|i: int, j: int|
            0 <= i < j < report(doc, mapping).len() ==> (#[trigger] report(doc, mapping)[i]).field != (
            #[trigger] report(doc, mapping)[j]).field,
    decreases mapping.len(),
{
    if mapping.len() > 0 {
        let shorter = mapping.drop_last();
        let before = report(doc, shorter);
        let whole = report(doc, mapping);
        assert forall|i: int, j: int| 0 <= i < j < shorter.len() implies (#[trigger] shorter[i]).field@ != (
        #[trigger] shorter[j]).field@ by {
            assert(shorter[i] == mapping[i]);
            assert(shorter[j] == mapping[j]);
        }
        report_fields_distinct(doc, shorter);
        assert forall|i: int, j: int| 0 <= i < j < whole.len() implies (#[trigger] whole[i]).field != (
        #[trigger] whole[j]).field by {
            assert(whole[i] == before[i]);
            if j < before.len() {
                assert(whole[j] == before[j]);
            } else {
                entry_belongs_to_field(doc, shorter, i);
                let k = choose|k: int|
                    0 <= k < shorter.len() && before[i].field == (#[trigger] shorter[k]).field@;
                assert(shorter[k] == mapping[k]);
                assert(whole[j].field == mapping[mapping.len() - 1].field@);
            }
        }
    }
}

/// Checking is a function of the document and the rule list: two reports for
/// the same document and the same rules have the same entries, one by one.
pub proof fn reports_agree(
    doc: serde_json::Value,
    mapping: Seq<FieldRules>,
    first: Seq<FieldErrors>,
    second: Seq<FieldErrors>,
)
    requires
        entries(first) == report(doc, mapping),
        entries(second) == report(doc, mapping),
    ensures
        first.len() == second.len(),
        forall|i: int| 0 <= i < first.len() ==> (#[trigger] first[i])@ == second[i]@,
{
    assert(entries(first).len() == first.len());
    assert(entries(second).len() == second.len());
    assert forall|i: int| 0 <= i < first.len() implies (#[trigger] first[i])@ == second[i]@ by {
        assert(entries(first)[i] == first[i]@);
        assert(entries(second)[i] == second[i]@);
    }
}

} // verus!
