use icarus::blender::{parse_blend, parse_dna, str_eq};

fn pad4(v: &mut Vec<u8>) {
    while v.len() % 4 != 0 {
        v.push(0);
    }
}

/// A catalogue with one struct `Foo { int x; char *next; char arr[2][3]; }`.
fn sample_dna() -> Vec<u8> {
    let mut v = Vec::new();
    v.extend_from_slice(b"SDNANAME");
    v.extend_from_slice(&3u32.to_le_bytes());
    v.extend_from_slice(b"x\0*next\0arr[2][3]\0");
    pad4(&mut v);
    v.extend_from_slice(b"TYPE");
    v.extend_from_slice(&3u32.to_le_bytes());
    v.extend_from_slice(b"int\0char\0Foo\0");
    pad4(&mut v);
    v.extend_from_slice(b"TLEN");
    for len in [4u16, 1, 18] {
        v.extend_from_slice(&len.to_le_bytes());
    }
    pad4(&mut v);
    v.extend_from_slice(b"STRC");
    v.extend_from_slice(&1u32.to_le_bytes());
    for x in [2u16, 3, 0, 0, 1, 1, 1, 2] {
        v.extend_from_slice(&x.to_le_bytes());
    }
    v
}

fn block(tag: &[u8; 4], sdna_idx: u32, count: u32, data: &[u8]) -> Vec<u8> {
    let mut v = Vec::new();
    v.extend_from_slice(tag);
    v.extend_from_slice(&(data.len() as u32).to_le_bytes());
    v.extend_from_slice(&0x1000u64.to_le_bytes());
    v.extend_from_slice(&sdna_idx.to_le_bytes());
    v.extend_from_slice(&count.to_le_bytes());
    v.extend_from_slice(data);
    v
}

#[test]
fn dna_catalogue_is_read() {
    let dna = parse_dna(&sample_dna()).unwrap();
    assert_eq!(dna.names, vec!["x", "*next", "arr[2][3]"]);
    assert_eq!(dna.types, vec!["int", "char", "Foo"]);
    assert_eq!(dna.types_len, vec![4, 1, 18]);
    assert_eq!(dna.structs.len(), 1);
    assert_eq!(dna.structs[0].name, "Foo");
    assert_eq!(dna.structs[0].fields.len(), 3);
    assert_eq!(dna.structs[0].fields[1].ttype, "char");
    assert_eq!(dna.structs[0].fields[1].name, "*next");
}

#[test]
fn struct_size_counts_pointers_and_arrays() {
    let dna = parse_dna(&sample_dna()).unwrap();
    // int x (4) + char *next (8) + char arr[2][3] (6)
    assert_eq!(dna.get_struct_size("Foo"), 18);
}

#[test]
fn truncated_catalogue_is_an_error() {
    let bytes = sample_dna();
    assert!(parse_dna(&bytes[..bytes.len() - 2]).is_err());
    assert!(parse_dna(&bytes[..6]).is_err());
}

#[test]
fn blend_file_blocks_and_catalogue() {
    let mut file = b"BLENDER-v300".to_vec();
    file.extend(block(b"DNA1", 0, 1, &sample_dna()));
    file.extend(block(b"DATA", 0, 1, &[0u8; 18]));
    file.extend(block(b"ENDB", 0, 0, &[]));
    let blend = parse_blend(&file).unwrap();
    assert_eq!(blend.blocks.len(), 3);
    assert_eq!(blend.blocks[0].tag, "DNA1");
    assert_eq!(blend.blocks[1].tag, "DATA");
    assert_eq!(blend.blocks[1].size, 18);
    assert_eq!(blend.blocks[1].addr, 0x1000);
    assert_eq!(blend.blocks[1].count, 1);
    assert_eq!(blend.blocks[2].tag, "ENDB");
    assert_eq!(blend.dna.structs[0].name, "Foo");
}

#[test]
fn blend_file_without_end_block_is_an_error() {
    let mut file = b"BLENDER-v300".to_vec();
    file.extend(block(b"DNA1", 0, 1, &sample_dna()));
    assert!(parse_blend(&file).is_err());
    assert!(parse_blend(b"BLENDER-v3").is_err());
}

#[test]
fn text_equality() {
    assert!(str_eq("SDNA", "SDNA"));
    assert!(!str_eq("SDNA", "SDN"));
    assert!(!str_eq("", "x"));
}
