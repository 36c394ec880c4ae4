use postscript::compact1::number::{Number, Real};
use postscript::compact1::operation::{Operation, Operations};
use postscript::compact1::operator::Operator;
use postscript::{Error, Tape};

fn read(bytes: Vec<u8>) -> Result<Operations, Error> {
    Operations::read(&mut Tape::new(bytes))
}

fn numbers(values: &[i32]) -> Vec<Number> {
    values.iter().map(|value| Number::Integer(*value)).collect()
}

#[test]
fn operations_in_their_order() {
    // 709 Version, 388 Weight, -178 -335 1138 918 FontBBox, .0375 BlueScale
    let operations = read(vec![
        249, 89, 0, 248, 24, 4, 251, 70, 251, 227, 28, 0x04, 0x72, 250, 42, 5, 30, 0xa0, 0x37, 0x5f,
        12, 9,
    ])
    .unwrap();
    assert_eq!(
        operations.0,
        vec![
            Operation(Operator::Version, numbers(&[709])),
            Operation(Operator::Weight, numbers(&[388])),
            Operation(Operator::FontBBox, numbers(&[-178, -335, 1138, 918])),
            Operation(
                Operator::BlueScale,
                vec![Number::Real(Real { text: b".0375".to_vec() })]
            ),
        ]
    );
    assert_eq!(
        operations.ordering(),
        vec![Operator::Version, Operator::Weight, Operator::FontBBox, Operator::BlueScale]
    );
    assert_eq!(operations.len(), 4);
    assert_eq!(operations.get(Operator::Weight), Some(&numbers(&[388])));
    assert_eq!(operations.get(Operator::Notice), None);
}

#[test]
fn operations_read_to_the_end_of_the_tape() {
    let mut tape = Tape::new(vec![139, 0, 140, 1]);
    tape.jump(2).unwrap();
    let operations = Operations::read(&mut tape).unwrap();
    assert_eq!(operations.0, vec![Operation(Operator::Notice, numbers(&[1]))]);
    assert_eq!(tape.position(), 4);
    assert_eq!(Operations::read(&mut tape), Ok(Operations(vec![])));
    assert_eq!(tape.position(), 4);
}

#[test]
fn empty_dictionary() {
    let operations = read(vec![]).unwrap();
    assert_eq!(operations.len(), 0);
    assert_eq!(operations.ordering(), vec![]);
    assert_eq!(operations.get(Operator::Version), None);
}

#[test]
fn last_operation_of_an_operator_counts() {
    let operations = read(vec![140, 4, 141, 0, 142, 143, 4]).unwrap();
    assert_eq!(
        operations.ordering(),
        vec![Operator::Weight, Operator::Version, Operator::Weight]
    );
    assert_eq!(operations.get(Operator::Weight), Some(&numbers(&[3, 4])));
    assert_eq!(operations.get(Operator::Version), Some(&numbers(&[2])));
    assert_eq!(operations.get_single(Operator::Weight), None);
    assert_eq!(
        operations.get_double(Operator::Weight),
        Some((&Number::Integer(3), &Number::Integer(4)))
    );
}

#[test]
fn operator_without_operands() {
    let operations = read(vec![0, 139, 1]).unwrap();
    assert_eq!(
        operations.0,
        vec![Operation(Operator::Version, vec![]), Operation(Operator::Notice, numbers(&[0]))]
    );
    assert_eq!(operations.get(Operator::Version), Some(&vec![]));
    assert_eq!(operations.get_single(Operator::Version), None);
    assert_eq!(operations.get_double(Operator::Version), None);
    assert_eq!(
        operations.get_integer(Operator::Version),
        Err(Error::MissingOperand(Operator::Version))
    );
    assert_eq!(
        operations.get_required_integers(Operator::Version),
        Err(Error::MissingOperand(Operator::Version))
    );
    assert_eq!(
        operations.get_required_integers(Operator::Notice),
        Err(Error::MissingOperand(Operator::Notice))
    );
}

#[test]
fn single_and_double_operands() {
    let operations = read(vec![140, 0, 140, 141, 1, 140, 141, 142, 2]).unwrap();
    assert_eq!(operations.get_single(Operator::Version), Some(&Number::Integer(1)));
    assert_eq!(operations.get_single(Operator::Notice), None);
    assert_eq!(operations.get_single(Operator::FullName), None);
    assert_eq!(operations.get_single(Operator::Weight), None);
    assert_eq!(operations.get_double(Operator::Version), None);
    assert_eq!(
        operations.get_double(Operator::Notice),
        Some((&Number::Integer(1), &Number::Integer(2)))
    );
    assert_eq!(
        operations.get_double(Operator::FullName),
        Some((&Number::Integer(1), &Number::Integer(2)))
    );
    assert_eq!(operations.get_double(Operator::Weight), None);
}

#[test]
fn integer_operands() {
    // 1 Version, 1 2 Notice, 1.5 FullName, 1 2.5 FamilyName, 1.5 2 3 Weight
    let operations = read(vec![
        140, 0, 140, 141, 1, 30, 0x1a, 0x5f, 2, 140, 30, 0x2a, 0x5f, 3, 30, 0x1a, 0x5f, 141, 142, 4,
    ])
    .unwrap();
    assert_eq!(operations.get_integer(Operator::Version), Ok(Some(1)));
    assert_eq!(operations.get_integer(Operator::Copyright), Ok(None));
    assert_eq!(
        operations.get_integer(Operator::Notice),
        Err(Error::MalformedOperation(Operator::Notice))
    );
    assert_eq!(
        operations.get_integer(Operator::FullName),
        Err(Error::MalformedOperation(Operator::FullName))
    );
    assert_eq!(operations.get_required_integer(Operator::Version), Ok(1));
    assert_eq!(
        operations.get_required_integer(Operator::Copyright),
        Err(Error::MissingOperation(Operator::Copyright))
    );
    assert_eq!(
        operations.get_required_integer(Operator::FullName),
        Err(Error::MalformedOperation(Operator::FullName))
    );
    assert_eq!(operations.get_integer_or(Operator::Version, 7), Ok(1));
    assert_eq!(operations.get_integer_or(Operator::Copyright, 7), Ok(7));
    assert_eq!(
        operations.get_integer_or(Operator::Notice, 7),
        Err(Error::MalformedOperation(Operator::Notice))
    );
    assert_eq!(operations.get_required_integers(Operator::Notice), Ok((1, 2)));
    assert_eq!(
        operations.get_required_integers(Operator::Version),
        Err(Error::MissingOperand(Operator::Version))
    );
    assert_eq!(
        operations.get_required_integers(Operator::FamilyName),
        Err(Error::MalformedOperation(Operator::FamilyName))
    );
    assert_eq!(
        operations.get_required_integers(Operator::Weight),
        Err(Error::MalformedOperation(Operator::Weight))
    );
    assert_eq!(
        operations.get_required_integers(Operator::Private),
        Err(Error::MissingOperation(Operator::Private))
    );
}

#[test]
fn malformed_dictionaries() {
    // Operands that no operator follows.
    assert_eq!(read(vec![139]), Err(Error::Truncated));
    assert_eq!(read(vec![139, 0, 140]), Err(Error::Truncated));
    // The second byte of an operator is missing.
    assert_eq!(read(vec![12]), Err(Error::Truncated));
    // A number is cut short.
    assert_eq!(read(vec![28, 1]), Err(Error::Truncated));
    assert_eq!(read(vec![30, 0x12]), Err(Error::MalformedNumber));
    // Codes that are not assigned.
    assert_eq!(read(vec![12, 15]), Err(Error::MalformedOperator));
    assert_eq!(read(vec![12, 16]), Err(Error::MalformedOperator));
    assert_eq!(read(vec![12, 24]), Err(Error::MalformedOperator));
    assert_eq!(read(vec![12, 39]), Err(Error::MalformedOperator));
    assert_eq!(read(vec![12, 255]), Err(Error::MalformedOperator));
    // Bytes that begin neither an operator nor a number.
    for first in [22, 23, 24, 25, 26, 27, 31, 255] {
        assert_eq!(read(vec![first]), Err(Error::MalformedNumber));
    }
    assert_eq!(read(vec![139, 0, 30, 0xdf, 1]), Err(Error::MalformedNumber));
}

#[test]
fn operators_by_code() {
    let mut found = 0;
    for code in 0..=u16::MAX {
        if let Some(operator) = Operator::get(code) {
            assert_eq!(operator.code(), code);
            assert!(code <= 21 && code != 12 || (0x0c00..=0x0c26).contains(&code));
            found += 1;
        }
    }
    assert_eq!(found, 52);
    assert_eq!(Operator::get(0), Some(Operator::Version));
    assert_eq!(Operator::get(12), None);
    assert_eq!(Operator::get(15), Some(Operator::CharSet));
    assert_eq!(Operator::get(16), Some(Operator::Encoding));
    assert_eq!(Operator::get(17), Some(Operator::CharStrings));
    assert_eq!(Operator::get(18), Some(Operator::Private));
    assert_eq!(Operator::get(19), Some(Operator::Subrs));
    assert_eq!(Operator::get(21), Some(Operator::NominalWidthX));
    assert_eq!(Operator::get(22), None);
    assert_eq!(Operator::get(0x0c00), Some(Operator::Copyright));
    assert_eq!(Operator::get(0x0c06), Some(Operator::CharStringType));
    assert_eq!(Operator::get(0x0c1e), Some(Operator::ROS));
    assert_eq!(Operator::get(0x0c24), Some(Operator::FDArray));
    assert_eq!(Operator::get(0x0c25), Some(Operator::FDSelect));
    assert_eq!(Operator::get(0x0c26), Some(Operator::FontName));
    assert_eq!(Operator::get(0x0c27), None);
}

#[test]
fn operators_of_two_bytes() {
    let operations = read(vec![139, 12, 30, 140, 12, 38, 141, 12, 0]).unwrap();
    assert_eq!(
        operations.ordering(),
        vec![Operator::ROS, Operator::FontName, Operator::Copyright]
    );
}
