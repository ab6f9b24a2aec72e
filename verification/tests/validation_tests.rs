use cmm::common::validation::{
    is_valid_path_extension, validate_compiler_paths, validate_linker_paths,
    validate_paths_internal, validate_preprocessor_paths, OutputChoice, PathFacts,
    ValidationError,
};
use std::path::Path;

fn extension_of(path: &str) -> Option<String> {
    Path::new(path).extension().and_then(|extension| extension.to_str()).map(String::from)
}

fn facts(input: &str, input_is_file: bool, output: Option<&str>, derived_exists: bool) -> PathFacts {
    PathFacts {
        input_extension: extension_of(input),
        input_is_file,
        output_given: output.is_some(),
        output_extension: output.and_then(extension_of),
        input_has_file_stem: Path::new(input).file_stem().is_some(),
        derived_output_exists: derived_exists,
    }
}

#[test]
fn test_valid_path_extension() {
    let extension = extension_of("src/compiler_driver.c");
    assert!(is_valid_path_extension(extension.as_deref(), "c"));
}

#[test]
fn test_invalid_path_extension() {
    let extension = extension_of("src/compiler_driver.rs");
    assert!(!is_valid_path_extension(extension.as_deref(), "c"));
}

#[test]
fn test_no_path_extension() {
    let extension = extension_of("src/compiler_driver");
    assert!(!is_valid_path_extension(extension.as_deref(), "c"));
}

#[test]
fn test_invalid_input_ext_explicit_output() {
    let result = validate_preprocessor_paths(&facts("dir/existing_file.s", true, None, false));
    assert_eq!(result, Err(ValidationError::InvalidInputExtension { expected: "c".to_string() }));
    assert!(result
        .unwrap_err()
        .message("dir/existing_file.s")
        .contains("must have a '.c' extension"));
}

#[test]
fn test_input_file_does_not_exist() {
    let result =
        validate_preprocessor_paths(&facts("dir/non_existent_file.c", false, Some("dir/output.i"), false));
    assert_eq!(result, Err(ValidationError::InputNotAFile));
    assert!(result
        .unwrap_err()
        .message("dir/non_existent_file.c")
        .contains("does not exist or is not a file"));
}

#[test]
fn test_invalid_output_extension() {
    let result = validate_preprocessor_paths(&facts(
        "dir/existing_file.c",
        true,
        Some("dir/nonexisting_output.s"),
        false,
    ));
    assert_eq!(result, Err(ValidationError::InvalidOutputExtension { expected: "i".to_string() }));
    assert!(result.unwrap_err().message("").contains("must end with '.i' extension"));
}

#[test]
fn test_default_output_already_exists() {
    let result = validate_preprocessor_paths(&facts("dir/main.c", true, None, true));
    assert_eq!(result, Err(ValidationError::OutputAlreadyExists));
    assert!(result.unwrap_err().message("dir/main.i").contains("Output file already exists"));
}

#[test]
fn test_valid_paths_explicit_output() {
    let result = validate_preprocessor_paths(&facts(
        "dir/existing_file.c",
        true,
        Some("dir/nonexisting_output.i"),
        false,
    ));
    assert_eq!(result, Ok(OutputChoice::Given));
}

#[test]
fn test_valid_paths_default_output() {
    let result = validate_preprocessor_paths(&facts("dir/main.c", true, None, false));
    assert_eq!(result, Ok(OutputChoice::WithExtension("i".to_string())));
}

#[test]
fn compiler_paths_go_from_i_to_s() {
    assert_eq!(
        validate_compiler_paths(&facts("main.i", true, None, false)),
        Ok(OutputChoice::WithExtension("s".to_string()))
    );
    assert_eq!(
        validate_compiler_paths(&facts("main.c", true, None, false)),
        Err(ValidationError::InvalidInputExtension { expected: "i".to_string() })
    );
    assert_eq!(
        validate_compiler_paths(&facts("main.i", true, Some("out.i"), false)),
        Err(ValidationError::InvalidOutputExtension { expected: "s".to_string() })
    );
    assert_eq!(
        validate_compiler_paths(&facts("main.i", true, Some("out"), false)),
        Err(ValidationError::InvalidOutputExtension { expected: "s".to_string() })
    );
}

#[test]
fn linker_paths_want_no_output_extension() {
    assert_eq!(validate_linker_paths(&facts("main.s", true, None, false)), Ok(OutputChoice::FileStem));
    assert_eq!(
        validate_linker_paths(&facts("main.s", true, Some("bin/main"), true)),
        Ok(OutputChoice::Given)
    );
    assert_eq!(
        validate_linker_paths(&facts("main.s", true, Some("main.exe"), false)),
        Err(ValidationError::UnexpectedOutputExtension)
    );
    assert_eq!(
        validate_linker_paths(&facts("main.s", true, None, true)),
        Err(ValidationError::OutputAlreadyExists)
    );
}

#[test]
fn input_is_judged_before_output() {
    assert_eq!(
        validate_preprocessor_paths(&facts("main.s", false, Some("out.s"), true)),
        Err(ValidationError::InvalidInputExtension { expected: "c".to_string() })
    );
    assert_eq!(
        validate_preprocessor_paths(&facts("main.c", false, Some("out.s"), true)),
        Err(ValidationError::InputNotAFile)
    );
}

#[test]
fn missing_file_stem_is_reported() {
    let without_stem = PathFacts {
        input_extension: Some("s".to_string()),
        input_is_file: true,
        output_given: false,
        output_extension: None,
        input_has_file_stem: false,
        derived_output_exists: false,
    };
    assert_eq!(validate_paths_internal(&without_stem, "s", None), Err(ValidationError::MissingFileStem));
    assert_eq!(
        validate_paths_internal(&without_stem, "s", Some("o")),
        Ok(OutputChoice::WithExtension("o".to_string()))
    );
}

#[test]
fn validation_messages() {
    assert_eq!(
        ValidationError::InvalidInputExtension { expected: "c".to_string() }.message("a/b.s"),
        "Input path must have a '.c' extension: a/b.s"
    );
    assert_eq!(
        ValidationError::InputNotAFile.message("a/b.c"),
        "Input file does not exist or is not a file: a/b.c"
    );
    assert_eq!(
        ValidationError::InvalidOutputExtension { expected: "i".to_string() }.message("a/b.c"),
        "Output path must end with '.i' extension"
    );
    assert_eq!(
        ValidationError::UnexpectedOutputExtension.message(""),
        "Output path for linker should typically not have a file extension"
    );
    assert_eq!(
        ValidationError::OutputAlreadyExists.message("a/b.i"),
        "Output file already exists: a/b.i"
    );
    assert_eq!(ValidationError::MissingFileStem.message("x"), "Input path has no file stem");
}
