use jadis::byte_reader::ByteReader;
use jadis::disassembler::{DisassemberConfig, Disassembler, DisassemblerVisibility};
use jadis::error::ErrorKind;

#[test]
fn config_defaults_and_setters() {
    let mut config = DisassemberConfig::new();
    assert_eq!(config.visibility, DisassemblerVisibility::PACKAGE);
    assert!(!config.show_line_numbers && !config.show_instructions && !config.show_type_signatures);
    assert!(!config.show_system_info && !config.show_final_constants);
    config.with_visibility(DisassemblerVisibility::PRIVATE);
    config.show_line_numbers();
    config.show_assembly_instructions();
    config.show_type_signatures();
    config.show_system_info();
    config.show_final_constants();
    assert_eq!(config.visibility, DisassemblerVisibility::PRIVATE);
    assert!(config.show_line_numbers && config.show_instructions && config.show_type_signatures);
    assert!(config.show_system_info && config.show_final_constants);
}

#[test]
fn disassembler_decodes_class() {
    let config = DisassemberConfig::new();
    let bytes = vec![
        0xCA, 0xFE, 0xBA, 0xBE, 0x00, 0x00, 0x00, 0x34, 0x00, 0x03, 0x01, 0x00, 0x01, b'A', 0x07, 0x00,
        0x01, 0x00, 0x01, 0x00, 0x02, 0x00, 0x00, 0x00, 0x00, 0x00, 0x00, 0x00, 0x00, 0x00, 0x00,
    ];
    let mut reader = ByteReader::from_bytes(bytes);
    let d = Disassembler::new(&config, &mut reader).unwrap();
    assert_eq!(d.class.major_version, 0x34);
    assert_eq!(d.config.visibility, DisassemblerVisibility::PACKAGE);
    let mut reader = ByteReader::from_bytes(vec![0xCA, 0xFE]);
    let r = Disassembler::new(&config, &mut reader);
    assert_eq!(r.err().unwrap().kind, ErrorKind::UnexpectedEof);
}
