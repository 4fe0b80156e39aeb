//! Labels as YAML.
//!
//! A label is written as a record of its fields, a list of labels as a list of such records.
//! This module decides what a record holds; the text is made by the `serde_yaml_ng` crate,
//! which is not verified. What this module believes of it is said at the end of the file.

use vstd::prelude::*;

use crate::label::{Label, LabelView};

verus! {

/// A field of a record: its key and its text.
pub type Field = (String, String);

/// Why a record could not be written as YAML.
#[derive(Eq, PartialEq, Debug)]
pub struct YamlError {
    message: String,
}

impl View for YamlError {
    type V = Seq<char>;

    /// What the serializer said about its failure.
    closed spec fn view(&self) -> Seq<char> {
        self.message@
    }
}

impl YamlError {
    /// Returns what the serializer said about its failure.
    pub fn message(&self) -> (text: &str)
        ensures
            text@ == self@,
    {
        self.message.as_str()
    }
}

impl LabelView {
    /// The record that a label is written as: its name, its color and, only if it has one,
    /// its description, under the keys `name`, `color` and `description`.
    pub open spec fn record(self) -> Seq<(Seq<char>, Seq<char>)> {
        let required = seq![("name"@, self.name), ("color"@, self.color)];
        match self.description {
            Some(description) => required.push(("description"@, description)),
            None => required,
        }
    }

    /// The record of a label without a description has no field for one: it is made of the
    /// name and the color alone. The record of a label with a description holds it, as it
    /// is, behind the name and the color.
    pub proof fn lemma_record_omits_absent_description(self)
        ensures
            self.record().len() == (if self.description is Some { 3int } else { 2int }),
            self.record()[0] == ("name"@, self.name),
            self.record()[1] == ("color"@, self.color),
            self.description is Some ==> self.record()[2] == ("description"@, self.description->0),
            self.description is None ==> forall|i: int|
                0 <= i < self.record().len() ==> (#[trigger] self.record()[i]).0
                    != "description"@,
    {
        reveal_strlit("name");
        reveal_strlit("color");
        reveal_strlit("description");
        assert("name"@.len() == 4 && "color"@.len() == 5 && "description"@.len() == 11);
    }
}

/// The records of a list of labels, in the order of the labels.
pub open spec fn records(labels: Seq<LabelView>) -> Seq<Seq<(Seq<char>, Seq<char>)>> {
    labels.map_values(|label: LabelView| label.record())
}

impl Label {
    /// Returns the record that the label is written as.
    pub fn record(&self) -> (record: Vec<Field>)
        ensures
            record.deep_view() == self@.record(),
    {
        let mut record: Vec<Field> = Vec::new();
        record.push(("name".to_owned(), self.name().get().to_owned()));
        record.push(("color".to_owned(), self.color().get().to_owned()));
        match self.description() {
            Some(description) => {
                record.push(("description".to_owned(), description.get().to_owned()));
            },
            None => {},
        }
        assert(record.deep_view() =~= self@.record());
        record
    }

    /// Writes the label as YAML: a mapping of the fields of its record. The text is what the
    /// serializer makes of the record; the call fails only where the serializer does.
    pub fn to_yaml(&self) -> (result: Result<String, YamlError>)
        ensures
            match yaml_of_record(self@.record()) {
                Some(text) => result matches Ok(written) && written@ == text,
                None => result is Err,
            },
    {
        let record = self.record();
        match write_record(&record) {
            Ok(text) => Ok(text),
            Err(error) => Err(YamlError::new(error.to_string())),
        }
    }
}

/// Writes a list of labels as YAML: a sequence of the mappings of their records. The text is
/// what the serializer makes of the records; the call fails only where the serializer does.
pub fn to_yaml(labels: &Vec<Label>) -> (result: Result<String, YamlError>)
    ensures
        match yaml_of_records(records(labels.deep_view())) {
            Some(text) => result matches Ok(written) && written@ == text,
            None => result is Err,
        },
{
    let mut all: Vec<Vec<Field>> = Vec::new();
    for i in 0..labels.len()
        invariant
            all@.len() == i,
            forall|k: int| 0 <= k < i ==> (#[trigger] all@[k]).deep_view() == labels@[k]@.record(),
    {
        all.push(labels[i].record());
    }
    assert(all.deep_view() =~= records(labels.deep_view()));
    match write_records(&all) {
        Ok(text) => Ok(text),
        Err(error) => Err(YamlError::new(error.to_string())),
    }
}

impl YamlError {
    /// Makes the error of what the serializer said about its failure.
    pub fn new(message: String) -> (error: YamlError)
        ensures
            error@ == message@,
    {
        YamlError { message }
    }
}

// What follows is believed of the `serde_yaml_ng` crate, not proved.

/// The error of the serializer of the `serde_yaml_ng` crate. Nothing is known of its content.
#[verifier::external_type_specification]
#[verifier::external_body]
pub struct ExYamlError(serde_yaml_ng::Error);

/// What `serde_yaml_ng::to_string` makes of a mapping whose keys and values are the strings of
/// `record`, entered in that order: the text, or nothing where the serializer fails.
pub uninterp spec fn yaml_of_record(record: Seq<(Seq<char>, Seq<char>)>) -> Option<Seq<char>>;

/// What `serde_yaml_ng::to_string` makes of a sequence of such mappings, one for each of
/// `records`: the text, or nothing where the serializer fails.
pub uninterp spec fn yaml_of_records(records: Seq<Seq<(Seq<char>, Seq<char>)>>) -> Option<Seq<char>>;

/// Calls `serde_yaml_ng::to_string` on a `serde_yaml_ng::Mapping` that is filled with the
/// fields of `record`, each key and each text as a YAML string. The contract claims that the
/// outcome depends on the fields alone: whether a text comes back, and which. It does not
/// claim that one comes back.
#[verifier::external_body]
fn write_record(record: &Vec<Field>) -> (result: Result<String, serde_yaml_ng::Error>)
    ensures
        match result {
            Ok(text) => yaml_of_record(record.deep_view()) == Some(text@),
            Err(_) => yaml_of_record(record.deep_view()) is None,
        },
{
    let mapping: serde_yaml_ng::Mapping = record.iter().map(
        |(key, text)| (key.as_str().into(), text.as_str().into()),
    ).collect();
    serde_yaml_ng::to_string(&mapping)
}

/// Calls `serde_yaml_ng::to_string` on a vector of mappings, each filled with the fields of
/// one of `records` as in [`write_record`]. The contract claims that the outcome depends on
/// the fields alone: whether a text comes back, and which. It does not claim that one comes
/// back.
#[verifier::external_body]
fn write_records(records: &Vec<Vec<Field>>) -> (result: Result<String, serde_yaml_ng::Error>)
    ensures
        match result {
            Ok(text) => yaml_of_records(records.deep_view()) == Some(text@),
            Err(_) => yaml_of_records(records.deep_view()) is None,
        },
{
    let mappings: Vec<serde_yaml_ng::Mapping> = records.iter().map(
        |record| record.iter().map(
            |(key, text)| (key.as_str().into(), text.as_str().into()),
        ).collect(),
    ).collect();
    serde_yaml_ng::to_string(&mappings)
}

} // verus!
