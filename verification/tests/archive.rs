use asset_resolver::archive::{first_fbx_entry, is_fbx_name, read_zip_entry};
use asset_resolver::error::LoadError;
use std::io::{Cursor, Read, Write};
use zip::write::SimpleFileOptions;
use zip::{CompressionMethod, ZipArchive, ZipWriter};

const LOCATION: &str = "\"/opt/app/resources/models/robot.zip\"";

/// A zip archive with the given entries, in the given order.
fn archive_of(entries: &[(&str, &[u8])], method: CompressionMethod) -> Vec<u8> {
    let mut writer = ZipWriter::new(Cursor::new(Vec::new()));
    let options = SimpleFileOptions::default().compression_method(method);
    for (name, data) in entries {
        writer.start_file(*name, options).unwrap();
        writer.write_all(data).unwrap();
    }
    writer.finish().unwrap().into_inner()
}

/// The position of the first occurrence of `needle` in `bytes`.
fn position_of(bytes: &[u8], needle: &[u8]) -> usize {
    bytes
        .windows(needle.len())
        .position(|window| window == needle)
        .unwrap()
}

/// The entry `name` of the archive `bytes`, extracted on its own.
fn extracted_alone(bytes: &[u8], name: &str) -> Vec<u8> {
    let mut archive = ZipArchive::new(Cursor::new(bytes.to_vec())).unwrap();
    let mut entry = archive.by_name(name).unwrap();
    let mut data = Vec::new();
    entry.read_to_end(&mut data).unwrap();
    data
}

/// Bytes that compress well and are long enough to be worth compressing.
fn model_bytes(seed: u8) -> Vec<u8> {
    let mut data = b"Kaydara FBX Binary  \0".to_vec();
    for i in 0..5000usize {
        data.push(seed.wrapping_add((i % 7) as u8));
    }
    data
}

#[test]
fn fbx_names_match_in_either_case() {
    assert!(is_fbx_name("robot.fbx"));
    assert!(is_fbx_name("ROBOT.FBX"));
    assert!(is_fbx_name("robot.FbX"));
    assert!(is_fbx_name("robot.fBx"));
    assert!(is_fbx_name("meshes/deep/robot.fbx"));
    assert!(is_fbx_name("модель.fbx"));
    assert!(is_fbx_name("archive.zip.fbx"));
}

#[test]
fn fbx_name_may_be_the_extension_alone() {
    assert!(is_fbx_name(".fbx"));
    assert!(is_fbx_name(".FBX"));
}

#[test]
fn other_names_do_not_match() {
    assert!(!is_fbx_name(""));
    assert!(!is_fbx_name("fbx"));
    assert!(!is_fbx_name("robotfbx"));
    assert!(!is_fbx_name("robot.fbx "));
    assert!(!is_fbx_name("robot.fbx.txt"));
    assert!(!is_fbx_name("robot.fb"));
    assert!(!is_fbx_name("robot.obj"));
    assert!(!is_fbx_name("robot.fbx/"));
    assert!(!is_fbx_name("robot,fbx"));
}

#[test]
fn look_alike_letters_do_not_match() {
    assert!(!is_fbx_name("robot.fbｘ"));
    assert!(!is_fbx_name("robot.ｆbx"));
    assert!(!is_fbx_name("robot．fbx"));
    assert!(!is_fbx_name("robot.fbх"));
}

#[test]
fn fbx_matching_agrees_with_lowercasing() {
    let names = [
        "a.fbx", "A.FBX", "İ.fbx", "x.fbİ", "\u{212a}.fbx", ".fb\u{212a}", "ß.FBX", "Σ.fbX",
        "a.fbΣ", "ǅ.fbx", ".fbx\u{307}", "a.Fbx", "a.pbx", "",
    ];
    for name in names {
        assert_eq!(
            is_fbx_name(name),
            name.to_lowercase().ends_with(".fbx"),
            "{:?}",
            name
        );
    }
}

#[test]
fn fbx_matching_agrees_with_lowercasing_for_every_letter() {
    for code in 0..0x2_0000u32 {
        let Some(letter) = char::from_u32(code) else {
            continue;
        };
        for name in [
            format!("a.fb{}", letter),
            format!("a.f{}x", letter),
            format!("a.{}bx", letter),
            format!("a{}fbx", letter),
            format!("a.fbx{}", letter),
        ] {
            assert_eq!(
                is_fbx_name(&name),
                name.to_lowercase().ends_with(".fbx"),
                "{:?}",
                name
            );
        }
    }
}

#[test]
fn single_fbx_entry_is_returned() {
    let bytes = archive_of(
        &[("readme.txt", b"about"), ("robot.fbx", b"FBX-DATA-1")],
        CompressionMethod::Stored,
    );
    assert_eq!(read_zip_entry(bytes, LOCATION), Ok(b"FBX-DATA-1".to_vec()));
}

#[test]
fn single_fbx_entry_equals_independent_extraction() {
    let model = model_bytes(3);
    let bytes = archive_of(
        &[
            ("textures/skin.png", b"not a picture"),
            ("meshes/Robot.FBX", &model),
            ("notes.txt", b"later"),
        ],
        CompressionMethod::Deflated,
    );
    assert!(bytes.len() < model.len());
    let alone = extracted_alone(&bytes, "meshes/Robot.FBX");
    assert_eq!(alone, model);
    assert_eq!(read_zip_entry(bytes, LOCATION), Ok(alone));
}

#[test]
fn first_of_several_fbx_entries_wins() {
    let bytes = archive_of(
        &[
            ("a.txt", b"text"),
            ("second.fbx", b"FIRST IN ORDER"),
            ("first.fbx", b"SECOND IN ORDER"),
            ("z.fbx", b"THIRD IN ORDER"),
        ],
        CompressionMethod::Stored,
    );
    assert_eq!(
        read_zip_entry(bytes, LOCATION),
        Ok(b"FIRST IN ORDER".to_vec())
    );
}

#[test]
fn first_match_wins_whatever_its_size_or_depth() {
    let large = model_bytes(9);
    let bytes = archive_of(
        &[
            ("a/b/c/d/e/tiny.fbx", b""),
            ("large.fbx", &large),
        ],
        CompressionMethod::Deflated,
    );
    assert_eq!(read_zip_entry(bytes, LOCATION), Ok(Vec::new()));
}

#[test]
fn the_same_archive_gives_the_same_entry_each_time() {
    let bytes = archive_of(
        &[("one.fbx", b"one"), ("two.fbx", b"two")],
        CompressionMethod::Deflated,
    );
    let first = read_zip_entry(bytes.clone(), LOCATION);
    let second = read_zip_entry(bytes, LOCATION);
    assert_eq!(first, Ok(b"one".to_vec()));
    assert_eq!(first, second);
}

#[test]
fn archive_without_fbx_entry_fails() {
    let bytes = archive_of(
        &[("a.txt", b"text"), ("robot.obj", b"mesh"), ("fbx", b"no dot")],
        CompressionMethod::Stored,
    );
    let error = read_zip_entry(bytes, LOCATION).unwrap_err();
    assert_eq!(
        error,
        LoadError::NoFbxEntry {
            location: LOCATION.to_string()
        }
    );
    assert_eq!(
        error.message(),
        "No .fbx entry found in zip \"/opt/app/resources/models/robot.zip\""
    );
}

#[test]
fn empty_archive_has_no_fbx_entry() {
    let bytes = archive_of(&[], CompressionMethod::Stored);
    assert_eq!(
        read_zip_entry(bytes, LOCATION),
        Err(LoadError::NoFbxEntry {
            location: LOCATION.to_string()
        })
    );
}

#[test]
fn file_that_is_no_archive_fails_to_open() {
    let bytes = b"this is plainly not a zip archive, whatever its name says".to_vec();
    match read_zip_entry(bytes, LOCATION) {
        Err(LoadError::ArchiveUnreadable { location, detail }) => {
            assert_eq!(location, LOCATION);
            assert!(!detail.is_empty());
            let message = LoadError::ArchiveUnreadable {
                location,
                detail: detail.clone(),
            }
            .message();
            assert_eq!(
                message,
                format!("Failed to read zip archive {}: {}", LOCATION, detail)
            );
        }
        other => panic!("unexpected outcome: {:?}", other),
    }
}

#[test]
fn archive_error_carries_the_report_of_the_reader() {
    let bytes = b"not a zip".to_vec();
    let expected = ZipArchive::new(Cursor::new(bytes.clone()))
        .unwrap_err()
        .to_string();
    assert_eq!(
        read_zip_entry(bytes, LOCATION),
        Err(LoadError::ArchiveUnreadable {
            location: LOCATION.to_string(),
            detail: expected
        })
    );
}

#[test]
fn empty_file_fails_to_open_as_archive() {
    assert!(matches!(
        read_zip_entry(Vec::new(), LOCATION),
        Err(LoadError::ArchiveUnreadable { .. })
    ));
}

#[test]
fn truncated_archive_fails_to_open() {
    let mut bytes = archive_of(&[("robot.fbx", b"FBX-DATA")], CompressionMethod::Stored);
    bytes.truncate(bytes.len() - 10);
    assert!(matches!(
        read_zip_entry(bytes, LOCATION),
        Err(LoadError::ArchiveUnreadable { .. })
    ));
}

#[test]
fn damaged_fbx_entry_is_reported_with_its_name() {
    let mut bytes = archive_of(
        &[("a.txt", b"text"), ("robot.fbx", b"FBX-DATA-INTACT")],
        CompressionMethod::Stored,
    );
    let at = position_of(&bytes, b"FBX-DATA-INTACT");
    bytes[at] = b'X';
    match read_zip_entry(bytes, LOCATION) {
        Err(LoadError::FbxUnreadable {
            name,
            location,
            detail,
        }) => {
            assert_eq!(name, "robot.fbx");
            assert_eq!(location, LOCATION);
            assert_eq!(detail, "Invalid checksum");
        }
        other => panic!("unexpected outcome: {:?}", other),
    }
}

#[test]
fn damaged_entry_behind_the_match_is_not_read() {
    let mut bytes = archive_of(
        &[("robot.fbx", b"GOOD"), ("other.fbx", b"DAMAGED-LATER")],
        CompressionMethod::Stored,
    );
    let at = position_of(&bytes, b"DAMAGED-LATER");
    bytes[at] = b'X';
    assert_eq!(read_zip_entry(bytes, LOCATION), Ok(b"GOOD".to_vec()));
}

#[test]
fn damaged_data_of_a_skipped_entry_does_not_matter() {
    let mut bytes = archive_of(
        &[("notes.txt", b"DAMAGED-EARLIER"), ("robot.fbx", b"GOOD")],
        CompressionMethod::Stored,
    );
    let at = position_of(&bytes, b"DAMAGED-EARLIER");
    bytes[at] = b'X';
    assert_eq!(read_zip_entry(bytes, LOCATION), Ok(b"GOOD".to_vec()));
}

#[test]
fn entry_that_cannot_be_opened_stops_the_scan() {
    let mut bytes = archive_of(
        &[("notes.txt", b"text"), ("robot.fbx", b"GOOD")],
        CompressionMethod::Stored,
    );
    // The compression method of the first entry, in the central directory.
    let header = position_of(&bytes, b"PK\x01\x02");
    bytes[header + 10] = 77;
    bytes[header + 11] = 0;
    match read_zip_entry(bytes, LOCATION) {
        Err(LoadError::EntryUnreadable {
            index,
            location,
            detail,
        }) => {
            assert_eq!(index, 0);
            assert_eq!(location, LOCATION);
            assert_eq!(detail, "compression method not supported: 77");
        }
        other => panic!("unexpected outcome: {:?}", other),
    }
}

#[test]
fn entry_that_cannot_be_opened_behind_the_match_is_never_reached() {
    let mut bytes = archive_of(
        &[("robot.fbx", b"GOOD"), ("notes.txt", b"text")],
        CompressionMethod::Stored,
    );
    let first = position_of(&bytes, b"PK\x01\x02");
    let second = first + 4 + position_of(&bytes[first + 4..], b"PK\x01\x02");
    bytes[second + 10] = 77;
    bytes[second + 11] = 0;
    assert_eq!(read_zip_entry(bytes, LOCATION), Ok(b"GOOD".to_vec()));
}

#[test]
fn scan_of_an_open_archive() {
    let bytes = archive_of(
        &[("a.txt", b"text"), ("b.FBX", b"chosen"), ("c.fbx", b"ignored")],
        CompressionMethod::Deflated,
    );
    let mut archive = ZipArchive::new(Cursor::new(bytes)).unwrap();
    assert_eq!(
        first_fbx_entry(&mut archive, LOCATION),
        Ok(b"chosen".to_vec())
    );
    // The archive is as it was: a second scan gives the same.
    assert_eq!(archive.len(), 3);
    assert_eq!(
        first_fbx_entry(&mut archive, LOCATION),
        Ok(b"chosen".to_vec())
    );
}

#[test]
fn scan_of_an_open_archive_without_match() {
    let bytes = archive_of(&[("a.txt", b"text")], CompressionMethod::Stored);
    let mut archive = ZipArchive::new(Cursor::new(bytes)).unwrap();
    assert_eq!(
        first_fbx_entry(&mut archive, "somewhere"),
        Err(LoadError::NoFbxEntry {
            location: "somewhere".to_string()
        })
    );
}
