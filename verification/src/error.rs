//! The failures that generation can end in, and the report of missing inputs.

use vstd::prelude::*;

verus! {

/// `std::io::Error`: the failure of a file-system operation. It is carried as
/// it came; nothing is known of what it holds.
#[verifier::external_type_specification]
#[verifier::external_body]
pub struct ExIoError(std::io::Error);

/// `handlebars::RenderError`: the failure to render a template. It is carried
/// as it came; nothing is known of what it holds.
#[verifier::external_type_specification]
#[verifier::external_body]
pub struct ExRenderError(handlebars::RenderError);

/// `handlebars::TemplateRenderError`: the failure to compile or render a
/// template given as text. It is carried as it came; nothing is known of what
/// it holds.
#[verifier::external_type_specification]
#[verifier::external_body]
pub struct ExTemplateRenderError(handlebars::TemplateRenderError);

/// `serde_json::Error`: the failure to read or write structured data. It is
/// carried as it came; nothing is known of what it holds.
#[verifier::external_type_specification]
#[verifier::external_body]
pub struct ExJsonError(serde_json::Error);

/// `clap::Error`: the failure to make sense of the command line. It is
/// carried as it came; nothing is known of what it holds.
#[verifier::external_type_specification]
#[verifier::external_body]
pub struct ExClapError(clap::Error);

/// The required input files that were not found, one description for each.
pub struct Missing(Vec<String>);

/// The line that reports one missing file.
pub open spec fn missing_line(description: Seq<char>) -> Seq<char> {
    "missing file: "@ + description + "\n"@
}

/// The report of the given descriptions: one line for each, in order.
pub open spec fn missing_report(descriptions: Seq<Seq<char>>) -> Seq<char>
    decreases descriptions.len(),
{
    if descriptions.len() == 0 {
        Seq::empty()
    } else {
        missing_report(descriptions.drop_last()) + missing_line(descriptions.last())
    }
}

impl View for Missing {
    type V = Seq<Seq<char>>;

    /// The descriptions, in the order in which they are reported.
    closed spec fn view(&self) -> Seq<Seq<char>> {
        self.0.deep_view()
    }
}

impl Missing {
    /// The report as text: for each description the words `missing file: `,
    /// the description and a line feed.
    pub fn to_string(&self) -> (text: String)
        ensures
            text@ == missing_report(self@),
    {
        let mut text = String::new();
        let mut i: usize = 0;
        while i < self.0.len()
            invariant
                i <= self.0.len(),
                text@ == missing_report(self@.take(i as int)),
            decreases self.0.len() - i,
        {
            proof {
                assert(self@.take(i + 1).drop_last() == self@.take(i as int));
            }
            text.append("missing file: ");
            text.append(self.0[i].as_str());
            text.append("\n");
            i += 1;
        }
        proof {
            assert(self@.take(i as int) == self@);
        }
        text
    }
}

impl From<Vec<String>> for Missing {
    fn from(descriptions: Vec<String>) -> (missing: Missing)
        ensures
            missing@ == descriptions.deep_view(),
    {
        Missing(descriptions)
    }
}

impl vstd::std_specs::convert::FromSpecImpl<Vec<String>> for Missing {
    open spec fn obeys_from_spec() -> bool {
        true
    }

    closed spec fn from_spec(descriptions: Vec<String>) -> Missing {
        Missing(descriptions)
    }
}

/// Every failure that generation can end in, by kind. Each kind carries the
/// failure as it arose.
pub enum TTGenError {
    /// A file-system operation failed.
    IOError(Box<std::io::Error>),
    /// A template could not be rendered.
    RenderError(Box<handlebars::RenderError>),
    /// Structured data could not be parsed.
    JSONError(Box<serde_json::Error>),
    /// A template given as text could not be compiled or rendered.
    TemplateRenderError(Box<handlebars::TemplateRenderError>),
    /// The command line could not be understood.
    ClapError(Box<clap::Error>),
    /// Required input files do not exist.
    Missing(Box<Missing>),
}

impl TTGenError {
    /// The failure as text. Missing files are reported line by line; every
    /// other kind reads exactly as the failure it carries displays itself.
    pub fn to_string(&self) -> (text: String)
        ensures
            match self {
                TTGenError::IOError(failure) => vstd::string::to_string_from_display_ensures::<
                    std::io::Error,
                >(&**failure, text),
                TTGenError::RenderError(failure) => vstd::string::to_string_from_display_ensures::<
                    handlebars::RenderError,
                >(&**failure, text),
                TTGenError::JSONError(failure) => vstd::string::to_string_from_display_ensures::<
                    serde_json::Error,
                >(&**failure, text),
                TTGenError::TemplateRenderError(failure) =>
                    vstd::string::to_string_from_display_ensures::<handlebars::TemplateRenderError>(
                        &**failure,
                        text,
                    ),
                TTGenError::ClapError(failure) => vstd::string::to_string_from_display_ensures::<
                    clap::Error,
                >(&**failure, text),
                TTGenError::Missing(missing) => text@ == missing_report(missing@),
            },
    {
        match self {
            TTGenError::IOError(failure) => (**failure).to_string(),
            TTGenError::RenderError(failure) => (**failure).to_string(),
            TTGenError::JSONError(failure) => (**failure).to_string(),
            TTGenError::TemplateRenderError(failure) => (**failure).to_string(),
            TTGenError::ClapError(failure) => (**failure).to_string(),
            TTGenError::Missing(missing) => missing.to_string(),
        }
    }
}

impl From<std::io::Error> for TTGenError {
    fn from(failure: std::io::Error) -> (error: TTGenError)
        ensures
            error == TTGenError::IOError(Box::new(failure)),
    {
        TTGenError::IOError(Box::new(failure))
    }
}

impl vstd::std_specs::convert::FromSpecImpl<std::io::Error> for TTGenError {
    open spec fn obeys_from_spec() -> bool {
        true
    }

    open spec fn from_spec(failure: std::io::Error) -> TTGenError {
        TTGenError::IOError(Box::new(failure))
    }
}

impl From<handlebars::RenderError> for TTGenError {
    fn from(failure: handlebars::RenderError) -> (error: TTGenError)
        ensures
            error == TTGenError::RenderError(Box::new(failure)),
    {
        TTGenError::RenderError(Box::new(failure))
    }
}

impl vstd::std_specs::convert::FromSpecImpl<handlebars::RenderError> for TTGenError {
    open spec fn obeys_from_spec() -> bool {
        true
    }

    open spec fn from_spec(failure: handlebars::RenderError) -> TTGenError {
        TTGenError::RenderError(Box::new(failure))
    }
}

impl From<serde_json::Error> for TTGenError {
    fn from(failure: serde_json::Error) -> (error: TTGenError)
        ensures
            error == TTGenError::JSONError(Box::new(failure)),
    {
        TTGenError::JSONError(Box::new(failure))
    }
}

impl vstd::std_specs::convert::FromSpecImpl<serde_json::Error> for TTGenError {
    open spec fn obeys_from_spec() -> bool {
        true
    }

    open spec fn from_spec(failure: serde_json::Error) -> TTGenError {
        TTGenError::JSONError(Box::new(failure))
    }
}

impl From<handlebars::TemplateRenderError> for TTGenError {
    fn from(failure: handlebars::TemplateRenderError) -> (error: TTGenError)
        ensures
            error == TTGenError::TemplateRenderError(Box::new(failure)),
    {
        TTGenError::TemplateRenderError(Box::new(failure))
    }
}

impl vstd::std_specs::convert::FromSpecImpl<handlebars::TemplateRenderError> for TTGenError {
    open spec fn obeys_from_spec() -> bool {
        true
    }

    open spec fn from_spec(failure: handlebars::TemplateRenderError) -> TTGenError {
        TTGenError::TemplateRenderError(Box::new(failure))
    }
}

impl From<clap::Error> for TTGenError {
    fn from(failure: clap::Error) -> (error: TTGenError)
        ensures
            error == TTGenError::ClapError(Box::new(failure)),
    {
        TTGenError::ClapError(Box::new(failure))
    }
}

impl vstd::std_specs::convert::FromSpecImpl<clap::Error> for TTGenError {
    open spec fn obeys_from_spec() -> bool {
        true
    }

    open spec fn from_spec(failure: clap::Error) -> TTGenError {
        TTGenError::ClapError(Box::new(failure))
    }
}

impl From<Missing> for TTGenError {
    fn from(missing: Missing) -> (error: TTGenError)
        ensures
            error == TTGenError::Missing(Box::new(missing)),
    {
        TTGenError::Missing(Box::new(missing))
    }
}

impl vstd::std_specs::convert::FromSpecImpl<Missing> for TTGenError {
    open spec fn obeys_from_spec() -> bool {
        true
    }

    open spec fn from_spec(missing: Missing) -> TTGenError {
        TTGenError::Missing(Box::new(missing))
    }
}

} // verus!
