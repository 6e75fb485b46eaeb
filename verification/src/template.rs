//! Template specs: their validation and the freshness of their output.

use vstd::prelude::*;

use crate::error::Missing;
use crate::status::{OutputStatus, Snapshot, Timestamp};

verus! {

/// One unit of generation: a data file and a template file, and optionally the
/// output that is generated from them.
#[derive(Debug)]
pub struct TemplateSpec {
    /// A name for the unit. Nothing here requires it to be unique.
    pub name: String,
    /// Path of the data file.
    pub data: String,
    /// Path of the template file.
    pub template: String,
    /// Path of the output. Where there is none, the output is always generated.
    pub output: Option<String>,
}

/// A template spec as a mathematical value.
pub struct TemplateSpecView {
    pub name: Seq<char>,
    pub data: Seq<char>,
    pub template: Seq<char>,
    pub output: Option<Seq<char>>,
}

impl View for TemplateSpec {
    type V = TemplateSpecView;

    open spec fn view(&self) -> TemplateSpecView {
        TemplateSpecView {
            name: self.name@,
            data: self.data@,
            template: self.template@,
            output: match self.output {
                Some(path) => Some(path@),
                None => None,
            },
        }
    }
}

impl Clone for TemplateSpec {
    fn clone(&self) -> (copy: TemplateSpec)
        ensures
            copy == *self,
    {
        TemplateSpec {
            name: self.name.clone(),
            data: self.data.clone(),
            template: self.template.clone(),
            output: match &self.output {
                Some(path) => Some(path.clone()),
                None => None,
            },
        }
    }
}

impl PartialEq for TemplateSpec {
    /// Two template specs are equal where all four of their fields are.
    fn eq(&self, other: &TemplateSpec) -> (equal: bool) {
        let same_output = match (&self.output, &other.output) {
            (Some(mine), Some(theirs)) => *mine == *theirs,
            (None, None) => true,
            _ => false,
        };
        self.name == other.name && self.data == other.data && self.template == other.template
            && same_output
    }
}

impl Eq for TemplateSpec {

}

impl vstd::std_specs::cmp::PartialEqSpecImpl for TemplateSpec {
    open spec fn obeys_eq_spec() -> bool {
        true
    }

    open spec fn eq_spec(&self, other: &TemplateSpec) -> bool {
        self@ == other@
    }
}

/// The description under which a missing template file is reported.
pub open spec fn template_description(path: Seq<char>) -> Seq<char> {
    "template file: "@ + path
}

/// The description under which a missing data file is reported.
pub open spec fn data_description(path: Seq<char>) -> Seq<char> {
    "data file: "@ + path
}

/// The descriptions of the required inputs that do not exist: the template
/// first, then the data.
pub open spec fn absent_inputs(
    data: Seq<char>,
    template: Seq<char>,
    data_exists: bool,
    template_exists: bool,
) -> Seq<Seq<char>> {
    let for_template = if template_exists {
        Seq::<Seq<char>>::empty()
    } else {
        seq![template_description(template)]
    };
    let for_data = if data_exists {
        Seq::<Seq<char>>::empty()
    } else {
        seq![data_description(data)]
    };
    for_template + for_data
}

impl TemplateSpec {
    /// The template spec with the given fields. Nothing is checked.
    pub fn new_unchecked(name: String, data: String, template: String, output: Option<String>) -> (spec:
        TemplateSpec)
        ensures
            spec.name == name,
            spec.data == data,
            spec.template == template,
            spec.output == output,
    {
        TemplateSpec { name, data, template, output }
    }

    /// The template spec with the given fields, provided that both of its
    /// inputs exist; else the report of those that do not.
    ///
    /// `data_exists` and `template_exists` say whether the file system holds
    /// anything at `data` and at `template`.
    pub fn new(
        name: String,
        data: String,
        template: String,
        output: Option<String>,
        data_exists: bool,
        template_exists: bool,
    ) -> (outcome: Result<TemplateSpec, Missing>)
        ensures
            outcome is Ok <==> data_exists && template_exists,
            outcome matches Ok(spec) ==> {
                &&& spec.name == name
                &&& spec.data == data
                &&& spec.template == template
                &&& spec.output == output
            },
            outcome matches Err(missing) ==> missing@ == absent_inputs(
                data@,
                template@,
                data_exists,
                template_exists,
            ),
    {
        let spec = TemplateSpec::new_unchecked(name, data, template, output);
        match spec.validate_files(data_exists, template_exists) {
            Ok(()) => Ok(spec),
            Err(missing) => Err(missing),
        }
    }

    /// Succeeds where both inputs exist. Otherwise reports every input that
    /// does not: the template first, then the data. Whether the output exists
    /// plays no part.
    pub fn validate_files(&self, data_exists: bool, template_exists: bool) -> (outcome: Result<
        (),
        Missing,
    >)
        ensures
            outcome is Ok <==> data_exists && template_exists,
            outcome matches Err(missing) ==> missing@ == absent_inputs(
                self.data@,
                self.template@,
                data_exists,
                template_exists,
            ),
    {
        if data_exists && template_exists {
            return Ok(());
        }
        let mut descriptions: Vec<String> = Vec::new();
        if !template_exists {
            let mut description = String::from_str("template file: ");
            description.append(self.template.as_str());
            descriptions.push(description);
        }
        if !data_exists {
            let mut description = String::from_str("data file: ");
            description.append(self.data.as_str());
            descriptions.push(description);
        }
        Err(Missing::from(descriptions))
    }

    /// The status that the facts in `facts` give this template spec's output.
    pub open spec fn status(&self, facts: Snapshot) -> OutputStatus {
        facts.status(self.output is Some)
    }

    /// Whether the output has to be generated: unless it is known to be up to
    /// date, it has.
    pub fn should_build(&self, facts: Snapshot) -> (build: bool)
        ensures
            build == self.status(facts).calls_for_build(),
    {
        match self.up_to_date(facts) {
            OutputStatus::UpToDate => false,
            _ => true,
        }
    }

    /// Classifies the output by the facts in `facts`.
    pub fn up_to_date(&self, facts: Snapshot) -> (status: OutputStatus)
        ensures
            status == self.status(facts),
    {
        if self.output.is_none() {
            return OutputStatus::Forced;
        }
        if !facts.output_exists {
            return OutputStatus::FileMissing;
        }
        let output_modified = match facts.output_modified {
            Ok(moment) => moment,
            Err(failure) => {
                return OutputStatus::CannotDetermine(failure);
            },
        };
        let data_modified = match facts.data_modified {
            Ok(moment) => moment,
            Err(failure) => {
                return OutputStatus::CannotDetermine(failure);
            },
        };
        let template_modified = match facts.template_modified {
            Ok(moment) => moment,
            Err(failure) => {
                return OutputStatus::CannotDetermine(failure);
            },
        };
        if output_modified.nanos < template_modified.nanos || output_modified.nanos
            < data_modified.nanos {
            OutputStatus::OutOfDate
        } else {
            OutputStatus::UpToDate
        }
    }
}

/// Where neither input exists, exactly two are reported: the template, then
/// the data.
pub proof fn lemma_both_inputs_absent(data: Seq<char>, template: Seq<char>)
    ensures
        absent_inputs(data, template, false, false) == seq![
            template_description(template),
            data_description(data),
        ],
{
}

/// Every input that does not exist is reported, and none that exists: the
/// report holds one description for each absent input.
pub proof fn lemma_every_absent_input_is_reported(
    data: Seq<char>,
    template: Seq<char>,
    data_exists: bool,
    template_exists: bool,
)
    ensures
        ({
            let absent = absent_inputs(data, template, data_exists, template_exists);
            &&& !template_exists ==> absent.first() == template_description(template)
            &&& !data_exists ==> absent.last() == data_description(data)
            &&& data_exists && template_exists ==> absent.len() == 0
            &&& data_exists != template_exists ==> absent.len() == 1
            &&& !data_exists && !template_exists ==> absent.len() == 2
        }),
{
}

/// A template spec that names no output is always generated, whatever the
/// file system holds.
pub proof fn lemma_no_output_forces_build(spec: TemplateSpec, facts: Snapshot)
    requires
        spec.output is None,
    ensures
        spec.status(facts) == OutputStatus::Forced,
        spec.status(facts).calls_for_build(),
{
}

/// Where the named output does not exist, it is missing and has to be
/// generated.
pub proof fn lemma_absent_output_is_missing(spec: TemplateSpec, facts: Snapshot)
    requires
        spec.output is Some,
        !facts.output_exists,
    ensures
        spec.status(facts) == OutputStatus::FileMissing,
        spec.status(facts).calls_for_build(),
{
}

/// An output that exists and is no older than the template and no older than
/// the data is up to date, and is not generated again.
pub proof fn lemma_recent_output_is_up_to_date(spec: TemplateSpec, facts: Snapshot)
    requires
        spec.output is Some,
        facts.output_exists,
        facts.output_modified matches Ok(output) && facts.data_modified matches Ok(data)
            && facts.template_modified matches Ok(template) && output.nanos >= template.nanos
            && output.nanos >= data.nanos,
    ensures
        spec.status(facts) == OutputStatus::UpToDate,
        !spec.status(facts).calls_for_build(),
{
}

/// An output that exists and is older than the template or older than the
/// data is out of date, and has to be generated.
pub proof fn lemma_older_output_is_out_of_date(spec: TemplateSpec, facts: Snapshot)
    requires
        spec.output is Some,
        facts.output_exists,
        facts.output_modified matches Ok(output) && facts.data_modified matches Ok(data)
            && facts.template_modified matches Ok(template) && (output.nanos < template.nanos
            || output.nanos < data.nanos),
    ensures
        spec.status(facts) == OutputStatus::OutOfDate,
        spec.status(facts).calls_for_build(),
{
}

/// An output modified at the very moment of both of its inputs is up to date:
/// only a strictly older output is stale.
pub proof fn lemma_equal_times_are_up_to_date(spec: TemplateSpec, facts: Snapshot, moment: Timestamp)
    requires
        spec.output is Some,
        facts.output_exists,
        facts.output_modified == Ok::<Timestamp, std::io::Error>(moment),
        facts.data_modified == Ok::<Timestamp, std::io::Error>(moment),
        facts.template_modified == Ok::<Timestamp, std::io::Error>(moment),
    ensures
        spec.status(facts) == OutputStatus::UpToDate,
        !spec.status(facts).calls_for_build(),
{
}

/// A modification time that could not be read never passes for freshness:
/// the status carries the first failure in the order output, data, template,
/// and the output has to be generated.
pub proof fn lemma_unreadable_time_calls_for_build(spec: TemplateSpec, facts: Snapshot)
    requires
        spec.output is Some,
        facts.output_exists,
        facts.output_modified is Err || facts.data_modified is Err || facts.template_modified
            is Err,
    ensures
        spec.status(facts) is CannotDetermine,
        spec.status(facts).calls_for_build(),
        facts.output_modified matches Err(failure) ==> spec.status(facts)
            == OutputStatus::CannotDetermine(failure),
        facts.output_modified is Ok ==> (facts.data_modified matches Err(failure) ==> spec.status(
            facts,
        ) == OutputStatus::CannotDetermine(failure)),
        facts.output_modified is Ok && facts.data_modified is Ok ==> (
        facts.template_modified matches Err(failure) ==> spec.status(facts)
            == OutputStatus::CannotDetermine(failure)),
{
}

} // verus!
