use icarus::string_util::format_uuid;

#[test]
fn uuid_text_is_8_4_4_4_12_lowercase_hex() {
    let bytes = [
        0x12, 0x34, 0x56, 0x78, 0x9a, 0xbc, 0xde, 0xf0, 0x01, 0x23, 0x45, 0x67, 0x89, 0xab, 0xcd, 0xef,
    ];
    assert_eq!(format_uuid(bytes), "12345678-9abc-def0-0123-456789abcdef");
}

#[test]
fn zero_uuid() {
    let s = format_uuid([0; 16]);
    assert_eq!(s, "00000000-0000-0000-0000-000000000000");
    assert_eq!(s.len(), 36);
}
