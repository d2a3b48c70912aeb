use std::io::Cursor;
use std::io::Read;
use vstd::prelude::*;
use vstd::string::StringExecFns;
use crate::decimal::{append_decimal, decimal};
use zip::read::ZipFile;
use zip::result::ZipError;
use zip::ZipArchive;

verus! {

/// The ROM images of the board: the 6502 program at 0x6800, the vector ROM
/// and the vector generator's state PROM.
pub struct ROM {
    pub program: [u8; 0x1800],
    pub vector: [u8; 0x800],
    pub dvg_state_prom: [u8; 0x100],
}

/// Why a ROM archive could not be loaded.
pub enum RomError {
    /// The zip could not be opened
    MalformedZip(String),
    /// An expected part of the ROM zip is missing
    MissingFile { file_name: &'static str, semantic_name: &'static str },
    /// An expected part of the ROM zip is present, but is incorrectly sized
    InvalidSize {
        file_name: &'static str,
        semantic_name: &'static str,
        expected: usize,
        actual: usize,
    },
}

/// The files of MAME's `asteroid` set, with what they hold and their sizes.
pub const PROGRAM_6800_FILE: &'static str = "035145-04e.ef2";
pub const PROGRAM_6800_NAME: &'static str = "0x6800 PROM";
pub const PROGRAM_7000_FILE: &'static str = "035144-04e.h2";
pub const PROGRAM_7000_NAME: &'static str = "0x7000 PROM";
pub const PROGRAM_7800_FILE: &'static str = "035143-02.j2";
pub const PROGRAM_7800_NAME: &'static str = "0x7800 PROM";
pub const VECTOR_ROM_FILE: &'static str = "035127-02.np3";
pub const VECTOR_ROM_NAME: &'static str = "Vector ROM";
pub const STATE_PROM_FILE: &'static str = "034602-01.c8";
pub const STATE_PROM_NAME: &'static str = "DVG ROM";

#[verifier::external_type_specification]
#[verifier::external_body]
#[verifier::reject_recursive_types(T)]
pub struct ExCursor<T>(Cursor<T>);

#[verifier::external_type_specification]
#[verifier::external_body]
#[verifier::reject_recursive_types(R)]
pub struct ExZipArchive<R>(ZipArchive<R>);

/// An entry of an archive, open for reading. Verus cannot take the
/// declaration of `zip::read::ZipFile`, whose parameter is bound by
/// `std::io::Read`, so the entry is held here, opaque to Verus.
#[verifier::external_body]
pub struct OpenEntry<'a, 'b> {
    file: ZipFile<'a, Cursor<&'b [u8]>>,
}

#[verifier::external_type_specification]
#[verifier::external_body]
pub struct ExZipError(ZipError);

#[verifier::external_type_specification]
#[verifier::external_body]
pub struct ExIoError(std::io::Error);

/// What `zip::ZipArchive::new` makes of the bytes of an archive: `None` if it
/// refuses them, otherwise the entries of the archive (see `zip_entries`).
pub uninterp spec fn zip_parse(data: Seq<u8>) -> Option<Map<Seq<char>, (u64, Seq<u8>)>>;

/// The entries of an open archive: for each name that
/// `zip::ZipArchive::by_name` opens, the uncompressed size that the archive
/// records, and the bytes that reading the entry yields before its end or a
/// read error (a checksum or decompression failure, or more bytes than the
/// recorded size).
pub uninterp spec fn zip_entries(archive: ZipArchive<Cursor<&[u8]>>) -> Map<Seq<char>, (u64, Seq<u8>)>;

/// The uncompressed size that the archive records for an open entry.
pub uninterp spec fn zip_file_size(entry: OpenEntry) -> u64;

/// The bytes that reading an open entry yields before its end or a read
/// error.
pub uninterp spec fn zip_file_bytes(entry: OpenEntry) -> Seq<u8>;

/// `zip::ZipArchive::new` over an in-memory cursor: succeeds exactly when
/// the archive parses, and then holds the parsed entries.
#[verifier::external_body]
fn open_archive<'a>(data: &'a [u8]) -> (r: Result<ZipArchive<Cursor<&'a [u8]>>, ZipError>)
    ensures
        (r is Ok) == (zip_parse(data@) is Some),
        r matches Ok(archive) ==> zip_parse(data@) == Some(zip_entries(archive)),
{
    ZipArchive::new(Cursor::new(data))
}

/// `zip::ZipArchive::by_name`: opens the entry of that name exactly when the
/// archive has it, with the entry's recorded size and bytes; the entries of
/// the archive stay as they were.
#[verifier::external_body]
fn archive_by_name<'a, 'b>(archive: &'a mut ZipArchive<Cursor<&'b [u8]>>, name: &str) -> (r: Result<
    OpenEntry<'a, 'b>,
    ZipError,
>)
    ensures
        (r is Ok) == zip_entries(*old(archive)).dom().contains(name@),
        r matches Ok(entry) ==> zip_file_size(entry) == zip_entries(*old(archive))[name@].0
            && zip_file_bytes(entry) == zip_entries(*old(archive))[name@].1,
        zip_entries(*final(archive)) == zip_entries(*old(archive)),
{
    match archive.by_name(name) {
        Ok(file) => Ok(OpenEntry { file }),
        Err(e) => Err(e),
    }
}

/// `zip::read::ZipFile::size`: the uncompressed size the archive records.
#[verifier::external_body]
fn file_size(entry: &OpenEntry) -> (r: u64)
    ensures
        r == zip_file_size(*entry),
{
    entry.file.size()
}

/// `std::io::Read::read_exact` of `ZipFile` into a buffer of `len` bytes: it
/// succeeds exactly when the entry yields at least `len` bytes, and the
/// buffer then holds the first `len` of them.
#[verifier::external_body]
fn read_file_exact(entry: &mut OpenEntry, len: usize) -> (r: Result<Vec<u8>, std::io::Error>)
    ensures
        (r is Ok) == (len <= zip_file_bytes(*old(entry)).len()),
        r matches Ok(v) ==> v@ == zip_file_bytes(*old(entry)).take(len as int),
{
    let mut buffer = vec![0u8; len];
    match entry.file.read_exact(&mut buffer) {
        Ok(()) => Ok(buffer),
        Err(e) => Err(e),
    }
}

/// The `Display` text of a `zip::result::ZipError`. The text is not stated.
#[verifier::external_body]
fn zip_error_message(error: &ZipError) -> String {
    error.to_string()
}


/// The outcome of looking up one part of the ROM among the archive's
/// entries: the error it gives, if any.
pub open spec fn part_error(
    entries: Map<Seq<char>, (u64, Seq<u8>)>,
    file_name: &'static str,
    semantic_name: &'static str,
    expected_size: usize,
) -> Option<RomError> {
    if !entries.dom().contains(file_name@) {
        Some(RomError::MissingFile { file_name, semantic_name })
    } else if entries[file_name@].0 as usize != expected_size {
        Some(
            RomError::InvalidSize {
                file_name,
                semantic_name,
                expected: expected_size,
                actual: entries[file_name@].0 as usize,
            },
        )
    } else {
        None
    }
}

/// The error that reading one part of the ROM gives, if any: its size
/// error, or, for a part of the expected size whose entry yields fewer bytes,
/// a `MissingFile` error.
pub open spec fn part_failure(
    entries: Map<Seq<char>, (u64, Seq<u8>)>,
    file_name: &'static str,
    semantic_name: &'static str,
    expected_size: usize,
) -> Option<RomError> {
    match part_error(entries, file_name, semantic_name, expected_size) {
        Some(e) => Some(e),
        None => if entries[file_name@].1.len() < expected_size {
            Some(RomError::MissingFile { file_name, semantic_name })
        } else {
            None
        },
    }
}

fn read_from_zip_file(
    zip: &mut ZipArchive<Cursor<&[u8]>>,
    file_name: &'static str,
    semantic_name: &'static str,
    expected_size: usize,
) -> (r: Result<Vec<u8>, RomError>)
    ensures
        zip_entries(*final(zip)) == zip_entries(*old(zip)),
        match part_failure(zip_entries(*old(zip)), file_name, semantic_name, expected_size) {
            Some(e) => r == Err::<Vec<u8>, RomError>(e),
            None => r matches Ok(v) && v@ == zip_entries(*old(zip))[file_name@].1.take(
                expected_size as int,
            ),
        },
        r matches Ok(v) ==> v.len() == expected_size,
{
    let mut file = match archive_by_name(zip, file_name) {
        Ok(file) => file,
        Err(_) => {
            return Err(RomError::MissingFile { file_name, semantic_name });
        },
    };
    let size = file_size(&file) as usize;
    if size != expected_size {
        return Err(
            RomError::InvalidSize { file_name, semantic_name, expected: expected_size, actual: size },
        );
    }
    let read = read_file_exact(&mut file, expected_size);
    part_from_read(read, file_name, semantic_name)
}

/// The part that a read of an archive entry gives: its bytes, or, when the
/// entry cannot be read, a `MissingFile` error.
pub fn part_from_read(
    read: Result<Vec<u8>, std::io::Error>,
    file_name: &'static str,
    semantic_name: &'static str,
) -> (r: Result<Vec<u8>, RomError>)
    ensures
        match read {
            Ok(v) => r matches Ok(w) && w == v,
            Err(_) => r == Err::<Vec<u8>, RomError>(RomError::MissingFile { file_name, semantic_name }),
        },
{
    match read {
        Ok(contents) => Ok(contents),
        Err(_) => Err(RomError::MissingFile { file_name, semantic_name }),
    }
}

/// The ROM made of its parts: the three program PROMs in address order,
/// the vector ROM and the state PROM.
pub fn assemble_rom(
    program_6800: Vec<u8>,
    program_7000: Vec<u8>,
    program_7800: Vec<u8>,
    vector_rom: Vec<u8>,
    state_prom: Vec<u8>,
) -> (rom: ROM)
    requires
        program_6800.len() == 0x800,
        program_7000.len() == 0x800,
        program_7800.len() == 0x800,
        vector_rom.len() == 0x800,
        state_prom.len() == 0x100,
    ensures
        rom.program@ == program_6800@ + program_7000@ + program_7800@,
        rom.vector@ == vector_rom@,
        rom.dvg_state_prom@ == state_prom@,
{
    let mut program = [0u8; 0x1800];
    let mut vector = [0u8; 0x800];
    let mut dvg_state_prom = [0u8; 0x100];
    let mut i: usize = 0;
    while i < 0x800
        invariant
            i <= 0x800,
            program_6800.len() == 0x800 && program_7000.len() == 0x800 && program_7800.len() == 0x800,
            vector_rom.len() == 0x800,
            forall|k: int| 0 <= k < i ==> program@[k] == program_6800@[k] && program@[0x800 + k]
                == program_7000@[k] && program@[0x1000 + k] == program_7800@[k] && vector@[k] == vector_rom@[k],
        decreases 0x800 - i,
    {
        program[i] = program_6800[i];
        program[0x800 + i] = program_7000[i];
        program[0x1000 + i] = program_7800[i];
        vector[i] = vector_rom[i];
        i = i + 1;
    }
    let mut j: usize = 0;
    while j < 0x100
        invariant
            j <= 0x100,
            state_prom.len() == 0x100,
            forall|k: int| 0 <= k < j ==> dvg_state_prom@[k] == state_prom@[k],
        decreases 0x100 - j,
    {
        dvg_state_prom[j] = state_prom[j];
        j = j + 1;
    }
    assert(program@ =~= program_6800@ + program_7000@ + program_7800@);
    assert(vector@ =~= vector_rom@);
    assert(dvg_state_prom@ =~= state_prom@);
    ROM { program, vector, dvg_state_prom }
}


/// The parts of the ROM in the order they are read: file, what it holds,
/// size.
pub open spec fn rom_part(i: int) -> (&'static str, &'static str, usize) {
    if i == 0 {
        (PROGRAM_6800_FILE, PROGRAM_6800_NAME, 0x800)
    } else if i == 1 {
        (PROGRAM_7000_FILE, PROGRAM_7000_NAME, 0x800)
    } else if i == 2 {
        (PROGRAM_7800_FILE, PROGRAM_7800_NAME, 0x800)
    } else if i == 3 {
        (VECTOR_ROM_FILE, VECTOR_ROM_NAME, 0x800)
    } else {
        (STATE_PROM_FILE, STATE_PROM_NAME, 0x100)
    }
}

/// The error that reading part `i` gives, if any.
pub open spec fn rom_part_failure(entries: Map<Seq<char>, (u64, Seq<u8>)>, i: int) -> Option<RomError> {
    let (file_name, semantic_name, size) = rom_part(i);
    part_failure(entries, file_name, semantic_name, size)
}

/// Whether every part is there, with its size, and yields its bytes.
pub open spec fn rom_complete(entries: Map<Seq<char>, (u64, Seq<u8>)>) -> bool {
    forall|i: int| 0 <= i < 5 ==> #[trigger] rom_part_failure(entries, i) is None
}

/// The first bytes of part `i`, as many as the part should hold.
pub open spec fn rom_part_bytes(entries: Map<Seq<char>, (u64, Seq<u8>)>, i: int) -> Seq<u8> {
    let (file_name, semantic_name, size) = rom_part(i);
    entries[file_name@].1.take(size as int)
}

/// What loading a ROM from an archive's entries gives: the ROM made of the
/// parts, when every part is there with its size and yields its bytes;
/// otherwise the error of the first part that does not.
pub open spec fn rom_load(entries: Map<Seq<char>, (u64, Seq<u8>)>, r: Result<ROM, RomError>) -> bool {
    match r {
        Ok(rom) => {
            &&& rom_complete(entries)
            &&& rom.program@ == rom_part_bytes(entries, 0) + rom_part_bytes(entries, 1)
                + rom_part_bytes(entries, 2)
            &&& rom.vector@ == rom_part_bytes(entries, 3)
            &&& rom.dvg_state_prom@ == rom_part_bytes(entries, 4)
        },
        Err(e) => exists|i: int|
            0 <= i < 5 && (forall|j: int| 0 <= j < i ==> #[trigger] rom_part_failure(entries, j) is None)
                && rom_part_failure(entries, i) == Some(e),
    }
}

impl ROM {
    /// Loads the ROM from the bytes of MAME's `asteroid` zip archive.
    pub fn load_mame_bytes(data: &[u8]) -> (r: Result<Self, RomError>)
        ensures
            (r matches Err(RomError::MalformedZip(_))) == (zip_parse(data@) is None),
            (r is Ok) == (zip_parse(data@) matches Some(entries) && rom_complete(entries)),
            zip_parse(data@) matches Some(entries) ==> rom_load(entries, r),
    {
        let mut zip = match open_archive(data) {
            Ok(zip) => zip,
            Err(e) => {
                return Err(RomError::MalformedZip(zip_error_message(&e)));
            },
        };
        let ghost entries = zip_entries(zip);
        let part0 = read_from_zip_file(&mut zip, PROGRAM_6800_FILE, PROGRAM_6800_NAME, 0x800);
        let part0 = match part0 {
            Ok(v) => v,
            Err(e) => {
                assert(rom_part_failure(entries, 0) == Some(e));
                return Err(e);
            },
        };
        let part1 = read_from_zip_file(&mut zip, PROGRAM_7000_FILE, PROGRAM_7000_NAME, 0x800);
        let part1 = match part1 {
            Ok(v) => v,
            Err(e) => {
                assert(rom_part_failure(entries, 0) is None);
                assert(rom_part_failure(entries, 1) == Some(e));
                return Err(e);
            },
        };
        let part2 = read_from_zip_file(&mut zip, PROGRAM_7800_FILE, PROGRAM_7800_NAME, 0x800);
        let part2 = match part2 {
            Ok(v) => v,
            Err(e) => {
                assert(rom_part_failure(entries, 0) is None);
                assert(rom_part_failure(entries, 1) is None);
                assert(rom_part_failure(entries, 2) == Some(e));
                return Err(e);
            },
        };
        let part3 = read_from_zip_file(&mut zip, VECTOR_ROM_FILE, VECTOR_ROM_NAME, 0x800);
        let vector_part = match part3 {
            Ok(v) => v,
            Err(e) => {
                assert(rom_part_failure(entries, 0) is None);
                assert(rom_part_failure(entries, 1) is None);
                assert(rom_part_failure(entries, 2) is None);
                assert(rom_part_failure(entries, 3) == Some(e));
                return Err(e);
            },
        };
        let part4 = read_from_zip_file(&mut zip, STATE_PROM_FILE, STATE_PROM_NAME, 0x100);
        let prom_part = match part4 {
            Ok(v) => v,
            Err(e) => {
                assert(rom_part_failure(entries, 0) is None);
                assert(rom_part_failure(entries, 1) is None);
                assert(rom_part_failure(entries, 2) is None);
                assert(rom_part_failure(entries, 3) is None);
                assert(rom_part_failure(entries, 4) == Some(e));
                return Err(e);
            },
        };
        assert(forall|i: int| 0 <= i < 5 ==> #[trigger] rom_part_failure(entries, i) is None);
        Ok(assemble_rom(part0, part1, part2, vector_part, prom_part))
    }
}


/// The text of an error.
pub open spec fn rom_error_text(e: RomError) -> Seq<char> {
    match e {
        RomError::MalformedZip(message) => "Could not read archive: "@ + message@,
        RomError::MissingFile { file_name, semantic_name } => "Could not find "@ + file_name@ + " ("@
            + semantic_name@ + ")"@,
        RomError::InvalidSize { file_name, semantic_name, expected, actual } => "Invalid size for file "@
            + file_name@ + " ("@ + semantic_name@ + "): "@ + decimal(actual as nat) + ", expected "@
            + decimal(expected as nat),
    }
}

impl RomError {
    /// The text that describes the error.
    pub fn message(&self) -> (text: String)
        ensures
            text@ == rom_error_text(*self),
    {
        match self {
            RomError::MalformedZip(message) => {
                let mut text = String::from_str("Could not read archive: ");
                text.append(message.as_str());
                text
            },
            RomError::MissingFile { file_name, semantic_name } => {
                let mut text = String::from_str("Could not find ");
                text.append(file_name);
                text.append(" (");
                text.append(semantic_name);
                text.append(")");
                assert(text@ =~= rom_error_text(*self));
                text
            },
            RomError::InvalidSize { file_name, semantic_name, expected, actual } => {
                let mut text = String::from_str("Invalid size for file ");
                text.append(file_name);
                text.append(" (");
                text.append(semantic_name);
                text.append("): ");
                append_decimal(&mut text, *actual);
                text.append(", expected ");
                append_decimal(&mut text, *expected);
                assert(text@ =~= rom_error_text(*self));
                text
            },
        }
    }
}

} // verus!
