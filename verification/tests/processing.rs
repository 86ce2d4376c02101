use processing_instructions::processor::LEGAL_AGE;
use processing_instructions::{process_instruction, DecodeError, Errors, InstructionData};
use solana_program::program_error::ProgramError;

fn instruction(name: &str, age: u8) -> Vec<u8> {
    InstructionData::new(name.to_string(), age).to_vec().unwrap()
}

#[test]
fn legal_age_is_eighteen() {
    assert_eq!(LEGAL_AGE, 18);
}

#[test]
fn adult_is_greeted_and_served() {
    let done = process_instruction(&instruction("Alice", 21)).unwrap();
    assert_eq!(done.greeting, "Welcome to the bar, Alice");
    assert_eq!(done.verdict, Ok(()));
}

#[test]
fn eighteen_is_old_enough() {
    let done = process_instruction(&instruction("Bob", 18)).unwrap();
    assert_eq!(done.greeting, "Welcome to the bar, Bob");
    assert_eq!(done.verdict, Ok(()));
}

#[test]
fn seventeen_is_greeted_and_turned_away() {
    let done = process_instruction(&instruction("Carol", 17)).unwrap();
    assert_eq!(done.greeting, "Welcome to the bar, Carol");
    assert_eq!(done.verdict, Err(Errors::Ineligible));
}

#[test]
fn youngest_and_oldest() {
    let baby = process_instruction(&instruction("Dot", 0)).unwrap();
    assert_eq!(baby.verdict, Err(Errors::Ineligible));
    let elder = process_instruction(&instruction("Ed", 255)).unwrap();
    assert_eq!(elder.verdict, Ok(()));
}

#[test]
fn every_age_is_served_from_eighteen_on() {
    for age in 0..=255u8 {
        let done = process_instruction(&instruction("Someone", age)).unwrap();
        assert_eq!(done.verdict.is_ok(), age >= 18);
        assert_eq!(done.greeting, "Welcome to the bar, Someone");
    }
}

#[test]
fn nameless_customer_is_greeted_too() {
    let done = process_instruction(&[0, 0, 0, 0, 40]).unwrap();
    assert_eq!(done.greeting, "Welcome to the bar, ");
    assert_eq!(done.verdict, Ok(()));
}

#[test]
fn malformed_data_is_refused_before_the_greeting() {
    assert_eq!(
        process_instruction(&[]).unwrap_err(),
        DecodeError::InvalidName
    );
    assert_eq!(
        process_instruction(&[1, 0, 0, 0, b'A']).unwrap_err(),
        DecodeError::MissingAge
    );
    assert_eq!(
        process_instruction(&[1, 0, 0, 0, b'A', 30, 30]).unwrap_err(),
        DecodeError::TrailingBytes
    );
}

#[test]
fn greeting_and_age_check_of_a_record() {
    let minor = InstructionData::new("Gus".to_string(), 12);
    assert_eq!(minor.greeting(), "Welcome to the bar, Gus");
    assert_eq!(minor.check_age(), Err(Errors::Ineligible));
    let adult = InstructionData::new("Hal".to_string(), 19);
    assert_eq!(adult.greeting(), "Welcome to the bar, Hal");
    assert_eq!(adult.check_age(), Ok(()));
}

#[test]
fn ineligible_has_code_zero() {
    assert_eq!(Errors::Ineligible.code(), 0);
}

#[test]
fn ineligible_describes_itself() {
    assert_eq!(Errors::Ineligible.message(), "Not eligible to drink beer");
}

#[test]
fn ineligible_becomes_the_custom_program_error_zero() {
    assert_eq!(ProgramError::from(Errors::Ineligible), ProgramError::Custom(0));
    let converted: ProgramError = Errors::Ineligible.into();
    assert_eq!(converted, ProgramError::Custom(0));
    assert_ne!(converted, ProgramError::Custom(1));
}
