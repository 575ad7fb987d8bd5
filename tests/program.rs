use chipolata::{Program};

fn setup_test_program() -> Vec<u8> {
    vec![0xA1, 0x14, 0x0C, 0xFD, 0xA3]
}

#[test]
fn test_program_data() {
    let mut program: Program = Program::default();
    let test_program: Vec<u8> = setup_test_program();
    program.set_program_data(test_program.clone()).unwrap();
    assert_eq!(program.program_data(), &test_program);
}

#[test]
fn test_program_data_size() {
    let mut program: Program = Program::default();
    let test_program: Vec<u8> = setup_test_program();
    program.set_program_data(test_program.clone()).unwrap();
    assert_eq!(program.program_data_size(), test_program.len());
}

