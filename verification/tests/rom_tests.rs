use asteroids::rom::{RomError, ROM};
use std::io::{Cursor, Write};
use zip::write::SimpleFileOptions;
use zip::{CompressionMethod, ZipWriter};

const PARTS: [(&str, usize, u8); 5] = [
    ("035145-04e.ef2", 0x800, 1),
    ("035144-04e.h2", 0x800, 2),
    ("035143-02.j2", 0x800, 3),
    ("035127-02.np3", 0x800, 4),
    ("034602-01.c8", 0x100, 5),
];

/// A zip archive with the given files, each filled with a byte.
fn archive(files: &[(&str, usize, u8)], method: CompressionMethod) -> Vec<u8> {
    let mut writer = ZipWriter::new(Cursor::new(Vec::new()));
    let options = SimpleFileOptions::default().compression_method(method);
    for (name, size, fill) in files {
        writer.start_file(*name, options).unwrap();
        let mut contents = vec![*fill; *size];
        if !contents.is_empty() {
            contents[0] = fill.wrapping_add(0x10);
        }
        writer.write_all(&contents).unwrap();
    }
    writer.finish().unwrap().into_inner()
}

#[test]
fn rom_loads_all_parts_in_place() {
    for method in [CompressionMethod::Stored, CompressionMethod::Deflated] {
        let data = archive(&PARTS, method);
        let rom = match ROM::load_mame_bytes(&data) {
            Ok(rom) => rom,
            Err(e) => panic!("{}", e.message()),
        };
        assert_eq!(rom.program[0], 0x11);
        assert_eq!(rom.program[1], 1);
        assert_eq!(rom.program[0x800], 0x12);
        assert_eq!(rom.program[0x801], 2);
        assert_eq!(rom.program[0x1000], 0x13);
        assert_eq!(rom.program[0x17FF], 3);
        assert_eq!(rom.vector[0], 0x14);
        assert_eq!(rom.vector[0x7FF], 4);
        assert_eq!(rom.dvg_state_prom[0], 0x15);
        assert_eq!(rom.dvg_state_prom[0xFF], 5);
    }
}

#[test]
fn rom_missing_part_is_reported() {
    let data = archive(&[PARTS[0], PARTS[1], PARTS[3], PARTS[4]], CompressionMethod::Stored);
    match ROM::load_mame_bytes(&data) {
        Err(e @ RomError::MissingFile { file_name, semantic_name }) => {
            assert_eq!(file_name, "035143-02.j2");
            assert_eq!(semantic_name, "0x7800 PROM");
            assert_eq!(e.message(), "Could not find 035143-02.j2 (0x7800 PROM)");
        },
        _ => panic!("expected a missing file"),
    }
}

#[test]
fn rom_wrongly_sized_part_is_reported() {
    let mut parts = PARTS;
    parts[3].1 = 0x7FF;
    let data = archive(&parts, CompressionMethod::Stored);
    match ROM::load_mame_bytes(&data) {
        Err(e @ RomError::InvalidSize { file_name, semantic_name, expected, actual }) => {
            assert_eq!((file_name, semantic_name, expected, actual), ("035127-02.np3", "Vector ROM", 0x800, 0x7FF));
            assert_eq!(e.message(), "Invalid size for file 035127-02.np3 (Vector ROM): 2047, expected 2048");
        },
        _ => panic!("expected an invalid size"),
    }
}

#[test]
fn rom_first_problem_wins() {
    // The state PROM is missing and the first program PROM is too large
    let mut parts = PARTS;
    parts[0].1 = 0x801;
    let data = archive(&parts[..4], CompressionMethod::Stored);
    assert!(matches!(
        ROM::load_mame_bytes(&data),
        Err(RomError::InvalidSize { file_name: "035145-04e.ef2", actual: 0x801, .. })
    ));
}

#[test]
fn rom_garbage_is_a_malformed_zip() {
    match ROM::load_mame_bytes(b"this is not a zip archive") {
        Err(e @ RomError::MalformedZip(_)) => {
            assert!(e.message().starts_with("Could not read archive: "));
        },
        _ => panic!("expected a malformed zip"),
    }
    assert!(matches!(ROM::load_mame_bytes(&[]), Err(RomError::MalformedZip(_))));
}

#[test]
fn rom_error_message_of_malformed_zip() {
    let e = RomError::MalformedZip("bad".to_string());
    assert_eq!(e.message(), "Could not read archive: bad");
    let e = RomError::InvalidSize { file_name: "f", semantic_name: "s", expected: 0, actual: 10 };
    assert_eq!(e.message(), "Invalid size for file f (s): 10, expected 0");
}

#[test]
fn rom_part_from_failed_read_is_missing() {
    let failed = Err(std::io::Error::new(std::io::ErrorKind::UnexpectedEof, "short"));
    assert!(matches!(
        asteroids::rom::part_from_read(failed, "a.bin", "A"),
        Err(RomError::MissingFile { file_name: "a.bin", semantic_name: "A" })
    ));
    let read = asteroids::rom::part_from_read(Ok(vec![1, 2, 3]), "a.bin", "A");
    assert!(matches!(read, Ok(ref v) if v == &vec![1, 2, 3]));
}

#[test]
fn rom_assembles_program_in_address_order() {
    let rom = asteroids::rom::assemble_rom(
        vec![1; 0x800],
        vec![2; 0x800],
        vec![3; 0x800],
        vec![4; 0x800],
        vec![5; 0x100],
    );
    assert_eq!((rom.program[0x7FF], rom.program[0x800], rom.program[0x1000]), (1, 2, 3));
    assert!(rom.vector.iter().all(|b| *b == 4));
    assert!(rom.dvg_state_prom.iter().all(|b| *b == 5));
}
