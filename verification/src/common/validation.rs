use vstd::prelude::*;
use vstd::string::*;

verus! {

/// What is known of the paths of one step of the driver: the extension of the input path,
/// whether the input is a file, whether an output path was given and with what extension,
/// whether the input path has a file stem, and whether the output path that would be
/// derived from the input path exists already.
#[derive(Debug)]
pub struct PathFacts {
    pub input_extension: Option<String>,
    pub input_is_file: bool,
    pub output_given: bool,
    pub output_extension: Option<String>,
    pub input_has_file_stem: bool,
    pub derived_output_exists: bool,
}

/// Which output path a step is to write.
#[derive(Debug, PartialEq)]
pub enum OutputChoice {
    /// The output path that was given.
    Given,
    /// The input path with its extension replaced by this one.
    WithExtension(String),
    /// The file stem of the input path, without directory and extension.
    FileStem,
}

/// Why the paths of a step were refused.
#[derive(Debug, PartialEq)]
pub enum ValidationError {
    /// The input path does not have the extension `expected`.
    InvalidInputExtension { expected: String },
    /// The input path names no file.
    InputNotAFile,
    /// The output path that was given does not have the extension `expected`.
    InvalidOutputExtension { expected: String },
    /// The output path that was given has an extension where none is wanted.
    UnexpectedOutputExtension,
    /// The output path that is derived from the input path exists already.
    OutputAlreadyExists,
    /// The input path has no file stem to derive the output path from.
    MissingFileStem,
}

/// The mathematical value of an [`OutputChoice`].
pub enum OutputChoiceView {
    Given,
    WithExtension(Seq<char>),
    FileStem,
}

/// The mathematical value of a [`ValidationError`].
pub enum ValidationErrorView {
    InvalidInputExtension { expected: Seq<char> },
    InputNotAFile,
    InvalidOutputExtension { expected: Seq<char> },
    UnexpectedOutputExtension,
    OutputAlreadyExists,
    MissingFileStem,
}

impl DeepView for OutputChoice {
    type V = OutputChoiceView;

    open spec fn deep_view(&self) -> OutputChoiceView {
        match self {
            OutputChoice::Given => OutputChoiceView::Given,
            OutputChoice::WithExtension(extension) => OutputChoiceView::WithExtension(extension@),
            OutputChoice::FileStem => OutputChoiceView::FileStem,
        }
    }
}

impl DeepView for ValidationError {
    type V = ValidationErrorView;

    open spec fn deep_view(&self) -> ValidationErrorView {
        match self {
            ValidationError::InvalidInputExtension { expected } => {
                ValidationErrorView::InvalidInputExtension { expected: expected@ }
            },
            ValidationError::InputNotAFile => ValidationErrorView::InputNotAFile,
            ValidationError::InvalidOutputExtension { expected } => {
                ValidationErrorView::InvalidOutputExtension { expected: expected@ }
            },
            ValidationError::UnexpectedOutputExtension => {
                ValidationErrorView::UnexpectedOutputExtension
            },
            ValidationError::OutputAlreadyExists => ValidationErrorView::OutputAlreadyExists,
            ValidationError::MissingFileStem => ValidationErrorView::MissingFileStem,
        }
    }
}

/// Whether the extension of a path is the one wanted. A path without extension has none.
pub open spec fn spec_valid_extension(found: Option<Seq<char>>, wanted: Seq<char>) -> bool {
    found == Some(wanted)
}

/// The characters of an extension that may be missing.
pub open spec fn extension_view(extension: Option<String>) -> Option<Seq<char>> {
    match extension {
        Some(extension) => Some(extension@),
        None => None,
    }
}

/// The verdict on the paths of a step that reads `input_ext` files and writes
/// `output_ext` files, or files without extension where `output_ext` is `None`. The input
/// is looked at first: its extension, then whether it is a file. An output path that was
/// given must have the extension wanted, or none where none is wanted. Where none was
/// given, the output path is derived from the input path and must not exist yet.
pub open spec fn spec_validate_paths(
    facts: PathFacts,
    input_ext: Seq<char>,
    output_ext: Option<Seq<char>>,
) -> Result<OutputChoiceView, ValidationErrorView> {
    if !spec_valid_extension(extension_view(facts.input_extension), input_ext) {
        Err(ValidationErrorView::InvalidInputExtension { expected: input_ext })
    } else if !facts.input_is_file {
        Err(ValidationErrorView::InputNotAFile)
    } else if facts.output_given {
        match output_ext {
            Some(extension) => {
                if spec_valid_extension(extension_view(facts.output_extension), extension) {
                    Ok(OutputChoiceView::Given)
                } else {
                    Err(ValidationErrorView::InvalidOutputExtension { expected: extension })
                }
            },
            None => {
                if facts.output_extension is Some {
                    Err(ValidationErrorView::UnexpectedOutputExtension)
                } else {
                    Ok(OutputChoiceView::Given)
                }
            },
        }
    } else {
        match output_ext {
            Some(extension) => {
                if facts.derived_output_exists {
                    Err(ValidationErrorView::OutputAlreadyExists)
                } else {
                    Ok(OutputChoiceView::WithExtension(extension))
                }
            },
            None => {
                if !facts.input_has_file_stem {
                    Err(ValidationErrorView::MissingFileStem)
                } else if facts.derived_output_exists {
                    Err(ValidationErrorView::OutputAlreadyExists)
                } else {
                    Ok(OutputChoiceView::FileStem)
                }
            },
        }
    }
}

/// Whether a verdict that was given is the verdict of the rules.
pub open spec fn verdict_agrees(
    given: Result<OutputChoice, ValidationError>,
    verdict: Result<OutputChoiceView, ValidationErrorView>,
) -> bool {
    match verdict {
        Ok(choice) => given is Ok && given->Ok_0.deep_view() == choice,
        Err(error) => given is Err && given->Err_0.deep_view() == error,
    }
}

/// Tells whether the extension of a path is the one wanted.
pub fn is_valid_path_extension(path_extension: Option<&str>, extension: &str) -> (valid: bool)
    ensures
        valid == match path_extension {
            Some(found) => found@ == extension@,
            None => false,
        },
{
    match path_extension {
        Some(found) => {
            let found = String::from_str(found);
            let wanted = String::from_str(extension);
            found == wanted
        },
        None => false,
    }
}

/// Tells whether an extension that may be missing is the one wanted.
fn has_extension(found: &Option<String>, wanted: &str) -> (valid: bool)
    ensures
        valid == spec_valid_extension(extension_view(*found), wanted@),
{
    match found {
        Some(found) => is_valid_path_extension(Some(found.as_str()), wanted),
        None => false,
    }
}

/// Gives the verdict on the paths of a step that reads `input_ext` files and writes
/// `output_ext` files, or files without extension where `output_ext` is `None`.
pub fn validate_paths_internal(
    facts: &PathFacts,
    input_ext: &str,
    output_ext: Option<&str>,
) -> (verdict: Result<OutputChoice, ValidationError>)
    ensures
        verdict_agrees(
            verdict,
            spec_validate_paths(
                *facts,
                input_ext@,
                match output_ext {
                    Some(extension) => Some(extension@),
                    None => None,
                },
            ),
        ),
{
    if !has_extension(&facts.input_extension, input_ext) {
        return Err(ValidationError::InvalidInputExtension { expected: String::from_str(input_ext) });
    }
    if !facts.input_is_file {
        return Err(ValidationError::InputNotAFile);
    }
    if facts.output_given {
        match output_ext {
            Some(extension) => {
                if !has_extension(&facts.output_extension, extension) {
                    return Err(
                        ValidationError::InvalidOutputExtension {
                            expected: String::from_str(extension),
                        },
                    );
                }
            },
            None => {
                if facts.output_extension.is_some() {
                    return Err(ValidationError::UnexpectedOutputExtension);
                }
            },
        }
        Ok(OutputChoice::Given)
    } else {
        match output_ext {
            Some(extension) => {
                if facts.derived_output_exists {
                    return Err(ValidationError::OutputAlreadyExists);
                }
                Ok(OutputChoice::WithExtension(String::from_str(extension)))
            },
            None => {
                if !facts.input_has_file_stem {
                    return Err(ValidationError::MissingFileStem);
                }
                if facts.derived_output_exists {
                    return Err(ValidationError::OutputAlreadyExists);
                }
                Ok(OutputChoice::FileStem)
            },
        }
    }
}

/// Gives the verdict on the paths of the preprocessor: from a `.c` file to a `.i` file.
pub fn validate_preprocessor_paths(facts: &PathFacts) -> (verdict: Result<
    OutputChoice,
    ValidationError,
>)
    ensures
        verdict_agrees(verdict, spec_validate_paths(*facts, "c"@, Some("i"@))),
{
    validate_paths_internal(facts, "c", Some("i"))
}

/// Gives the verdict on the paths of the compiler: from a `.i` file to a `.s` file.
pub fn validate_compiler_paths(facts: &PathFacts) -> (verdict: Result<
    OutputChoice,
    ValidationError,
>)
    ensures
        verdict_agrees(verdict, spec_validate_paths(*facts, "i"@, Some("s"@))),
{
    validate_paths_internal(facts, "i", Some("s"))
}

/// Gives the verdict on the paths of the linker: from a `.s` file to a file without
/// extension.
pub fn validate_linker_paths(facts: &PathFacts) -> (verdict: Result<OutputChoice, ValidationError>)
    ensures
        verdict_agrees(verdict, spec_validate_paths(*facts, "s"@, None)),
{
    validate_paths_internal(facts, "s", None)
}

impl ValidationErrorView {
    /// The message of the error, where `path` is the text of the path concerned: the
    /// input path, or the output path that was derived.
    pub open spec fn message(self, path: Seq<char>) -> Seq<char> {
        match self {
            ValidationErrorView::InvalidInputExtension { expected } => {
                "Input path must have a '."@ + expected + "' extension: "@ + path
            },
            ValidationErrorView::InputNotAFile => {
                "Input file does not exist or is not a file: "@ + path
            },
            ValidationErrorView::InvalidOutputExtension { expected } => {
                "Output path must end with '."@ + expected + "' extension"@
            },
            ValidationErrorView::UnexpectedOutputExtension => {
                "Output path for linker should typically not have a file extension"@
            },
            ValidationErrorView::OutputAlreadyExists => "Output file already exists: "@ + path,
            ValidationErrorView::MissingFileStem => "Input path has no file stem"@,
        }
    }
}

impl ValidationError {
    /// Returns the message of the error, where `path` is the text of the path concerned.
    pub fn message(&self, path: &str) -> (text: String)
        ensures
            text@ == self.deep_view().message(path@),
    {
        let mut text = String::new();
        match self {
            ValidationError::InvalidInputExtension { expected } => {
                text.append("Input path must have a '.");
                text.append(expected.as_str());
                text.append("' extension: ");
                text.append(path);
            },
            ValidationError::InputNotAFile => {
                text.append("Input file does not exist or is not a file: ");
                text.append(path);
            },
            ValidationError::InvalidOutputExtension { expected } => {
                text.append("Output path must end with '.");
                text.append(expected.as_str());
                text.append("' extension");
            },
            ValidationError::UnexpectedOutputExtension => {
                text.append("Output path for linker should typically not have a file extension");
            },
            ValidationError::OutputAlreadyExists => {
                text.append("Output file already exists: ");
                text.append(path);
            },
            ValidationError::MissingFileStem => {
                text.append("Input path has no file stem");
            },
        }
        assert(text@ =~= self.deep_view().message(path@));
        text
    }
}

} // verus!
