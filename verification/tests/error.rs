use chess_perft::error::GenError;

#[test]
fn a_message_names_the_stage_and_what_it_failed_on() {
    assert_eq!(
        GenError::MalformedInput { file: "build/perft_inputs.json".to_string() }.message(),
        "load: malformed input in build/perft_inputs.json"
    );
    assert_eq!(
        GenError::EmptyInputSet.message(),
        "normalize: no numeric id to take a padding width from"
    );
    assert_eq!(
        GenError::DuplicateGeneratedName { name: "perft_01_chess".to_string() }.message(),
        "expand: duplicate entry name perft_01_chess"
    );
    assert_eq!(GenError::EmitError.message(), "emit: the output artifact cannot be written");
}

#[test]
fn errors_compare_by_what_they_hold() {
    assert_eq!(
        GenError::MalformedInput { file: "a".to_string() },
        GenError::MalformedInput { file: "a".to_string() }
    );
    assert_ne!(
        GenError::MalformedInput { file: "a".to_string() },
        GenError::MalformedInput { file: "b".to_string() }
    );
    assert_ne!(GenError::EmptyInputSet, GenError::EmitError);
}
