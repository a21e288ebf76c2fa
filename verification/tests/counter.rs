use craps_pinocchio::address_info::{AddressInfo, CreateAddressInfoInstructionData, Instruction};
use craps_pinocchio::error::ProgramError;

#[test]
fn test_cross_program_invocation_example() {
    println!("Cross-program invocation test - implement based on your program's needs");
}

#[test]
fn test_state_transitions_example() {
    println!("State transition tests - implement based on your program's state management");
}

#[test]
fn bench_instruction_execution_example() {
    println!("Benchmark tests - implement based on performance requirements");
}

#[test]
fn address_data_is_exactly_151_bytes() {
    let mut data = vec![0u8; 151];
    data[0] = b'S';
    data[50] = 136;
    data[51] = b'P';
    data[101] = b'C';
    let parsed = CreateAddressInfoInstructionData::try_from(&data).ok().unwrap();
    assert_eq!(parsed.name[0], b'S');
    assert_eq!(parsed.house_number, 136);
    assert_eq!(parsed.street[0], b'P');
    assert_eq!(parsed.city[0], b'C');
    assert!(matches!(CreateAddressInfoInstructionData::try_from(&data[..150]), Err(ProgramError::InvalidInstructionData)));
}

#[test]
fn set_inner_replaces_every_field() {
    let mut info = AddressInfo { name: [1; 50], house_number: 1, street: [1; 50], city: [1; 50] };
    let new = AddressInfo { name: [2; 50], house_number: 50, street: [3; 50], city: [4; 50] };
    let r = info.set_inner(new);
    assert_eq!(r.house_number, 50);
    assert_eq!(info.house_number, 50);
    assert_eq!(info.city, [4; 50]);
}

#[test]
fn address_instruction_numbers() {
    match Instruction::try_from(&0) {
        Ok(Instruction::Create(d)) => assert_eq!(d.house_number, 0),
        _ => panic!("instruction 0 creates"),
    }
    assert!(matches!(Instruction::try_from(&255), Err(ProgramError::InvalidInstructionData)));
}
