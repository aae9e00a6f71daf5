use rhino2d::io::container::read_json;
use rhino2d::io::container::read_sections;
use rhino2d::io::container;
use rhino2d::io::container::FormatError;
use rhino2d::io::Texture;
use rhino2d::io::TextureEncoding;
use rhino2d::io::VendorData;

fn sample() -> Vec<u8> {
    let textures = vec![
        Texture::new(TextureEncoding::Png, vec![1, 2, 3]),
        Texture::new(TextureEncoding::Bc7, vec![]),
        Texture::new(TextureEncoding::Tga, vec![9; 300]),
    ];
    let vendor = vec![
        VendorData::new("com.example".to_string(), vec![0xaa, 0xbb]),
        VendorData::new("\u{e4}\u{20ac}".to_string(), vec![]),
    ];
    container::write(b"{\"a\":1}", &textures, &vendor)
}

fn textures_of(bytes: &[u8], at: usize) -> Vec<(TextureEncoding, Vec<u8>)> {
    let (textures, _) = read_sections(bytes, at).ok().unwrap();
    textures.iter().map(|t| (t.encoding(), t.data().to_vec())).collect()
}

fn vendor_of(bytes: &[u8], at: usize) -> Vec<(String, Vec<u8>)> {
    let (_, vendor) = read_sections(bytes, at).ok().unwrap();
    vendor.iter().map(|v| (v.name().to_string(), v.payload().to_vec())).collect()
}

#[test]
fn written_bytes_are_laid_out_as_the_format_says() {
    let bytes = container::write(b"{}", &[Texture::new(TextureEncoding::Tga, vec![7, 8])], &[
        VendorData::new("ab".to_string(), vec![5]),
    ]);
    let mut expected: Vec<u8> = Vec::new();
    expected.extend_from_slice(b"TRNSRTS\0");
    expected.extend_from_slice(&[0, 0, 0, 2]);
    expected.extend_from_slice(b"{}");
    expected.extend_from_slice(b"TEX_SECT");
    expected.extend_from_slice(&[0, 0, 0, 1]);
    expected.extend_from_slice(&[0, 0, 0, 2, 1, 7, 8]);
    expected.extend_from_slice(b"EXT_SECT");
    expected.extend_from_slice(&[0, 0, 0, 1]);
    expected.extend_from_slice(&[0, 0, 0, 2]);
    expected.extend_from_slice(b"ab");
    expected.extend_from_slice(&[0, 0, 0, 1, 5]);
    assert_eq!(bytes, expected);
}

#[test]
fn numbers_are_written_most_significant_byte_first() {
    let bytes = container::write(&vec![b' '; 0x0102_03], &[], &[]);
    assert_eq!(&bytes[8..12], &[0x00, 0x01, 0x02, 0x03]);
    assert_eq!(read_json(&bytes), Ok((12, 12 + 0x0102_03)));
}

#[test]
fn what_is_written_is_read_back() {
    let bytes = sample();
    let (start, end) = read_json(&bytes).ok().unwrap();
    assert_eq!(&bytes[start..end], b"{\"a\":1}");
    assert_eq!(
        textures_of(&bytes, end),
        vec![
            (TextureEncoding::Png, vec![1, 2, 3]),
            (TextureEncoding::Bc7, vec![]),
            (TextureEncoding::Tga, vec![9; 300]),
        ]
    );
    assert_eq!(
        vendor_of(&bytes, end),
        vec![
            ("com.example".to_string(), vec![0xaa, 0xbb]),
            ("\u{e4}\u{20ac}".to_string(), vec![]),
        ]
    );
}

#[test]
fn empty_container_round_trip() {
    let bytes = container::write(b"", &[], &[]);
    assert_eq!(bytes.len(), 8 + 4 + 8 + 4 + 8 + 4);
    assert_eq!(read_json(&bytes), Ok((12, 12)));
    assert!(textures_of(&bytes, 12).is_empty());
    assert!(vendor_of(&bytes, 12).is_empty());
}

#[test]
fn vendor_section_may_be_missing() {
    let bytes = sample();
    let (_, end) = read_json(&bytes).ok().unwrap();
    let ext = bytes.windows(8).position(|w| w == b"EXT_SECT").unwrap();
    for extra in 0..8 {
        let cut = &bytes[..ext + extra];
        assert_eq!(textures_of(cut, end).len(), 3, "{extra}");
        assert!(vendor_of(cut, end).is_empty(), "{extra}");
    }
}

#[test]
fn bytes_after_the_last_section_are_ignored() {
    let mut bytes = sample();
    let (_, end) = read_json(&bytes).ok().unwrap();
    bytes.extend_from_slice(b"trailing");
    assert_eq!(vendor_of(&bytes, end).len(), 2);
}

#[test]
fn wrong_magic_bytes() {
    let good = sample();
    let (_, end) = read_json(&good).ok().unwrap();
    let mut bytes = good.clone();
    bytes[0] = b'X';
    assert_eq!(read_json(&bytes), Err(FormatError::Magic));
    let mut bytes = good.clone();
    bytes[end + 3] = b'!';
    assert_eq!(read_sections(&bytes, end).err(), Some(FormatError::TextureMagic));
    let mut bytes = good.clone();
    let ext = good.windows(8).position(|w| w == b"EXT_SECT").unwrap();
    bytes[ext + 7] = b'!';
    assert_eq!(read_sections(&bytes, end).err(), Some(FormatError::VendorMagic));
}

#[test]
fn truncated_containers() {
    let good = sample();
    let (_, end) = read_json(&good).ok().unwrap();
    for len in 0..8 {
        assert_eq!(read_json(&good[..len]), Err(FormatError::UnexpectedEof));
    }
    for len in 8..end {
        assert_eq!(read_json(&good[..len]), Err(FormatError::UnexpectedEof), "{len}");
    }
    let ext = good.windows(8).position(|w| w == b"EXT_SECT").unwrap();
    for len in end..ext {
        assert_eq!(
            read_sections(&good[..len], end).err(),
            Some(FormatError::UnexpectedEof),
            "{len}"
        );
    }
    // The second name holds characters of several bytes: a cut within one of them leaves
    // bytes that are no UTF-8.
    let name = good.len() - 4 - 5;
    for len in ext + 8..good.len() {
        let expected = if len == name + 1 || len == name + 3 || len == name + 4 {
            FormatError::Name
        } else {
            FormatError::UnexpectedEof
        };
        assert_eq!(read_sections(&good[..len], end).err(), Some(expected), "{len}");
    }
    assert!(read_sections(&good, end).is_ok());
}

#[test]
fn unknown_texture_encoding() {
    let mut bytes = container::write(b"", &[Texture::new(TextureEncoding::Png, vec![1])], &[]);
    let code = 12 + 8 + 4 + 4;
    assert_eq!(bytes[code], 0);
    bytes[code] = 3;
    assert_eq!(read_sections(&bytes, 12).err(), Some(FormatError::Encoding(3)));
    bytes[code] = 255;
    assert_eq!(read_sections(&bytes, 12).err(), Some(FormatError::Encoding(255)));
    bytes[code] = 2;
    assert_eq!(textures_of(&bytes, 12), vec![(TextureEncoding::Bc7, vec![1])]);
}

#[test]
fn vendor_name_must_be_utf8() {
    let mut bytes = container::write(b"", &[], &[VendorData::new("abc".to_string(), vec![1])]);
    let name = 12 + 8 + 4 + 8 + 4 + 4;
    assert_eq!(&bytes[name..name + 3], b"abc");
    bytes[name + 1] = 0xff;
    assert_eq!(read_sections(&bytes, 12).err(), Some(FormatError::Name));
    // A name that is cut short by the end of the bytes is looked at as far as it goes.
    assert_eq!(read_sections(&bytes[..name + 2], 12).err(), Some(FormatError::Name));
    bytes[name + 1] = b'b';
    assert_eq!(read_sections(&bytes[..name + 2], 12).err(), Some(FormatError::UnexpectedEof));
}

/// Reads as a reader of containers does: piece by piece, as far as the library asks.
fn read_pieces(source: &[u8]) -> (Vec<u8>, Vec<usize>) {
    let mut bytes = Vec::new();
    let mut pieces = Vec::new();
    loop {
        let want = container::next_read(&bytes);
        if want == 0 {
            break;
        }
        let left = &source[bytes.len()..];
        let got = want.min(left.len());
        bytes.extend_from_slice(&left[..got]);
        pieces.push(got);
        if got < want {
            break;
        }
    }
    (bytes, pieces)
}

#[test]
fn container_is_read_piece_by_piece() {
    let bytes = container::write(b"{}", &[Texture::new(TextureEncoding::Tga, vec![7, 8])], &[
        VendorData::new("ab".to_string(), vec![5]),
    ]);
    let (read, pieces) = read_pieces(&bytes);
    assert_eq!(read, bytes);
    assert_eq!(pieces, vec![8, 4, 2, 8, 4, 4, 1, 2, 8, 4, 4, 2, 4, 1]);
    assert_eq!(container::next_read(&bytes), 0);
    assert_eq!(container::next_read(&[]), 8);
    assert_eq!(container::next_read(&bytes[..3]), 5);
    assert_eq!(container::next_read(&bytes[..8]), 4);
    assert_eq!(container::next_read(&bytes[..13]), 1);
}

#[test]
fn reading_stops_at_the_end_of_the_container() {
    let mut bytes = sample();
    let len = bytes.len();
    bytes.extend_from_slice(b"what follows is not the container's");
    let (read, _) = read_pieces(&bytes);
    assert_eq!(read.len(), len);
    assert_eq!(read, sample());
    // Empty sections are read in three pieces each.
    let empty = container::write(b"", &[], &[]);
    assert_eq!(read_pieces(&empty).1, vec![8, 4, 8, 4, 8, 4]);
}

#[test]
fn reading_stops_at_a_fault() {
    let good = sample();
    let mut bytes = good.clone();
    bytes[0] = b'X';
    assert_eq!(read_pieces(&bytes).0.len(), 8);
    let (_, end) = read_json(&good).ok().unwrap();
    let mut bytes = good.clone();
    bytes[end] = b'X';
    assert_eq!(read_pieces(&bytes).0.len(), end + 8);
    // An unknown encoding ends the reading after the byte that names it.
    let mut bytes = good.clone();
    bytes[end + 12 + 4] = 9;
    assert_eq!(read_pieces(&bytes).0.len(), end + 12 + 5);
    let ext = good.windows(8).position(|w| w == b"EXT_SECT").unwrap();
    let mut bytes = good.clone();
    bytes[ext + 1] = b'?';
    assert_eq!(read_pieces(&bytes).0.len(), ext + 8);
    // A name that is no UTF-8 ends the reading after the name.
    let mut bytes = good.clone();
    bytes[ext + 12 + 4] = 0xff;
    assert_eq!(read_pieces(&bytes).0.len(), ext + 12 + 4 + "com.example".len());
}

#[test]
fn what_was_read_piece_by_piece_parses_as_the_whole_does() {
    let good = sample();
    for len in 0..=good.len() {
        let (read, _) = read_pieces(&good[..len]);
        assert_eq!(read, &good[..len]);
    }
    let (_, end) = read_json(&good).ok().unwrap();
    let (read, _) = read_pieces(&good);
    assert_eq!(textures_of(&read, end), textures_of(&good, end));
    assert_eq!(vendor_of(&read, end), vendor_of(&good, end));
}
