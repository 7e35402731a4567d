use icarus::spirv::{Decoration, ExecutionModel, Instruction, ShaderModule, StorageClass};

fn op(word_count: u32, opcode: u32) -> u32 {
    (word_count << 16) | opcode
}

fn to_bytes(words: &[u32]) -> Vec<u8> {
    words.iter().flat_map(|w| w.to_le_bytes()).collect()
}

/// A vertex shader with two inputs: a vec3 at location 1 and a vec2 at location 0.
fn two_input_module() -> Vec<u32> {
    vec![
        0x07230203, 0x0001_0000, 7, 20, 0,
        op(7, 15), 0, 1, u32::from_le_bytes(*b"main"), 0, 10, 11,
        op(4, 71), 10, 30, 1,
        op(4, 71), 11, 30, 0,
        op(4, 23), 5, 4, 3,
        op(4, 23), 6, 4, 2,
        op(4, 32), 7, 1, 5,
        op(4, 32), 8, 1, 6,
        op(4, 59), 7, 10, 1,
        op(4, 59), 8, 11, 1,
    ]
}

#[test]
fn parses_header_and_instructions() {
    let bytes = to_bytes(&two_input_module());
    let module = ShaderModule::try_from(bytes.as_slice()).unwrap();
    assert_eq!(module.magic, 0x07230203);
    assert_eq!(module.version, 0x0001_0000);
    assert_eq!(module.generator, 7);
    assert_eq!(module.bound, 20);
    assert_eq!(module.instructions.len(), 9);
    match &module.instructions[0] {
        Instruction::OpEntryPoint { execution_model, entry_point, name, interface, .. } => {
            assert!(matches!(execution_model, ExecutionModel::Vertex));
            assert_eq!(*entry_point, 1);
            assert_eq!(name.as_str(), "main");
            assert_eq!(interface, &vec![10, 11]);
        }
        _ => panic!("expected an entry point"),
    }
    match &module.instructions[1] {
        Instruction::OpDecorate { target, decoration, extra, .. } => {
            assert_eq!(*target, 10);
            assert!(matches!(decoration, Decoration::Location));
            assert_eq!(extra, &vec![1]);
        }
        _ => panic!("expected a decoration"),
    }
    match &module.instructions[7] {
        Instruction::OpVariable { result_type, result, storage_class, initializer, .. } => {
            assert_eq!((*result_type, *result), (7, 10));
            assert!(matches!(storage_class, StorageClass::Input));
            assert_eq!(*initializer, None);
        }
        _ => panic!("expected a variable"),
    }
}

#[test]
fn input_descriptions_in_location_order() {
    let bytes = to_bytes(&two_input_module());
    let module = ShaderModule::try_from(bytes.as_slice()).unwrap();
    assert_eq!(module.input_descriptions(), vec![2, 3]);
}

#[test]
fn refuses_bad_headers() {
    let mut words = two_input_module();
    let bytes = to_bytes(&words);
    assert_eq!(
        ShaderModule::try_from(&bytes[..bytes.len() - 1]).err(),
        Some("Length should be an even multiple of 4.")
    );
    words[0] = 0x03022307;
    assert_eq!(
        ShaderModule::try_from(to_bytes(&words).as_slice()).err(),
        Some("Magic number should be 0x07230203.")
    );
    let mut words = two_input_module();
    words[1] = 0x0001_0700;
    assert_eq!(ShaderModule::try_from(to_bytes(&words).as_slice()).err(), Some("Unexpected version number."));
    let mut words = two_input_module();
    words[4] = 1;
    assert_eq!(ShaderModule::try_from(to_bytes(&words).as_slice()).err(), Some("Reserved should be 0."));
    let empty: [u8; 0] = [];
    assert_eq!(ShaderModule::try_from(&empty[..]).err(), Some("IO Error"));
    let header = to_bytes(&[0x07230203, 0x0001_0000, 0]);
    assert_eq!(ShaderModule::try_from(header.as_slice()).err(), Some("IO Error"));
}

#[test]
fn truncated_instruction_is_an_io_error() {
    let words = two_input_module();
    let bytes = to_bytes(&words[..words.len() - 1]);
    assert_eq!(ShaderModule::try_from(bytes.as_slice()).err(), Some("IO Error"));
}

#[test]
fn decodes_single_instructions() {
    let inst = Instruction::try_from(&[op(4, 23), 5, 4, 3][..]).unwrap();
    match inst {
        Instruction::OpTypeVector { result, component_type, component_count, .. } => {
            assert_eq!((result, component_type, component_count), (5, 4, 3));
        }
        _ => panic!("expected a vector type"),
    }
    let inst = Instruction::try_from(&[op(5, 59), 7, 10, 1, 42][..]).unwrap();
    match inst {
        Instruction::OpVariable { initializer, .. } => assert_eq!(initializer, Some(42)),
        _ => panic!("expected a variable"),
    }
}
