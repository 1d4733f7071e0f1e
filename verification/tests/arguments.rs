use xrt_core::common::{
    argument_type_of, scalar_size_exec, validate_arguments, Argument, ArgumentType, ScalarType,
};
use xrt_core::error::Error;

#[test]
fn scalar_sizes() {
    assert_eq!(scalar_size_exec(ScalarType::U32), 4);
    assert_eq!(scalar_size_exec(ScalarType::I32), 4);
    assert_eq!(scalar_size_exec(ScalarType::F32), 4);
    assert_eq!(scalar_size_exec(ScalarType::U64), 8);
    assert_eq!(scalar_size_exec(ScalarType::I64), 8);
    assert_eq!(scalar_size_exec(ScalarType::F64), 8);
}

#[test]
fn argument_type_of_each_shape() {
    let scalar: Argument<u32> = Argument::Scalar(5);
    assert_eq!(argument_type_of(&scalar), ArgumentType::Scalar);
    let values: [u64; 2] = [1, 2];
    let buffer: Argument<u64> = Argument::Buffer(&values);
    assert_eq!(argument_type_of(&buffer), ArgumentType::Buffer(ScalarType::U64));
}

#[test]
fn matching_arguments_validate() {
    let supplied = vec![
        ArgumentType::Buffer(ScalarType::U32),
        ArgumentType::Scalar,
        ArgumentType::Buffer(ScalarType::I64),
    ];
    let expected = supplied.clone();
    assert!(validate_arguments(&supplied, &expected).is_ok());
}

#[test]
fn empty_argument_lists_validate() {
    let supplied: Vec<ArgumentType> = Vec::new();
    let expected: Vec<ArgumentType> = Vec::new();
    assert!(validate_arguments(&supplied, &expected).is_ok());
}

#[test]
fn wrong_count_fails_before_position_checks() {
    // Even with a kind mismatch at position 0, the length check comes
    // first.
    let supplied = vec![ArgumentType::Scalar];
    let expected = vec![
        ArgumentType::Buffer(ScalarType::U32),
        ArgumentType::Scalar,
    ];
    assert!(matches!(
        validate_arguments(&supplied, &expected),
        Err(Error::ArgumentNumberMismatchError)
    ));
}

#[test]
fn kind_mismatch_fails_at_every_position() {
    let expected = vec![
        ArgumentType::Scalar,
        ArgumentType::Buffer(ScalarType::U32),
        ArgumentType::Scalar,
    ];
    for position in 0..expected.len() {
        let mut supplied = expected.clone();
        supplied[position] = match supplied[position] {
            ArgumentType::Scalar => ArgumentType::Buffer(ScalarType::U32),
            ArgumentType::Buffer(_) => ArgumentType::Scalar,
        };
        assert!(matches!(
            validate_arguments(&supplied, &expected),
            Err(Error::PassVecToScalarArgumentError)
        ));
    }
}

#[test]
fn buffer_element_type_mismatch_fails() {
    let supplied = vec![ArgumentType::Buffer(ScalarType::U64)];
    let expected = vec![ArgumentType::Buffer(ScalarType::U32)];
    assert!(matches!(
        validate_arguments(&supplied, &expected),
        Err(Error::PassVecToScalarArgumentError)
    ));
}
