//! The container that holds a puppet on disk.
//!
//! A container starts with the magic bytes `TRNSRTS\0`, followed by the
//! length of the JSON payload and the payload. Then comes the texture
//! section: the magic bytes `TEX_SECT`, the number of textures, and for each
//! texture the length of its data, one byte for its encoding and the data.
//! The vendor section may follow: the magic bytes `EXT_SECT`, the number of
//! entries, and for each entry the length of its name, the name in UTF-8, the
//! length of its payload and the payload. Every length and number is an
//! unsigned 32-bit integer, most significant byte first.
//!
//! This module frames and checks bytes. What the JSON payload says is for the
//! caller to read.

use crate::io::Texture;
use crate::io::TextureEncoding;
use crate::io::TextureView;
use crate::io::VendorData;
use crate::io::VendorDataView;
use byteorder::BigEndian;
use byteorder::ByteOrder;
use vstd::prelude::*;
use vstd::slice::slice_subrange;
use vstd::slice::slice_to_vec;
use vstd::utf8::decode_utf8;
use vstd::utf8::encode_utf8;
use vstd::utf8::valid_utf8;

verus! {

/// Why a sequence of bytes is no container.
#[derive(Debug, Clone, Copy, PartialEq, Eq, Structural)]
pub enum FormatError {
    /// The bytes end before the container does.
    UnexpectedEof,
    /// The bytes do not start with the magic bytes of a container.
    Magic,
    /// The texture section does not start with its magic bytes.
    TextureMagic,
    /// The vendor section does not start with its magic bytes.
    VendorMagic,
    /// A texture names an encoding that is none of the known ones.
    Encoding(u8),
    /// A name in the vendor section is no UTF-8.
    Name,
}

/// The magic bytes of a container: `TRNSRTS\0`.
pub open spec fn magic() -> Seq<u8> {
    seq![0x54u8, 0x52u8, 0x4eu8, 0x53u8, 0x52u8, 0x54u8, 0x53u8, 0x00u8]
}

/// The magic bytes of the texture section: `TEX_SECT`.
pub open spec fn texture_magic() -> Seq<u8> {
    seq![0x54u8, 0x45u8, 0x58u8, 0x5fu8, 0x53u8, 0x45u8, 0x43u8, 0x54u8]
}

/// The magic bytes of the vendor section: `EXT_SECT`.
pub open spec fn vendor_magic() -> Seq<u8> {
    seq![0x45u8, 0x58u8, 0x54u8, 0x5fu8, 0x53u8, 0x45u8, 0x43u8, 0x54u8]
}

/// The number that four bytes stand for, most significant byte first.
pub open spec fn be_value(bytes: Seq<u8>) -> u32 {
    (bytes[0] * 0x100_0000 + bytes[1] * 0x1_0000 + bytes[2] * 0x100 + bytes[3]) as u32
}

/// The four bytes that stand for a number, most significant byte first.
pub open spec fn be_bytes(n: u32) -> Seq<u8> {
    seq![
        (n / 0x100_0000) as u8,
        (n / 0x1_0000 % 0x100) as u8,
        (n / 0x100 % 0x100) as u8,
        (n % 0x100) as u8,
    ]
}

/// Reading the bytes of a number gives the number.
pub proof fn lemma_be_round_trip(n: u32)
    ensures
        be_value(be_bytes(n)) == n,
        be_bytes(n).len() == 4,
{
}

/// The byte that stands for an encoding.
pub open spec fn encoding_code(encoding: TextureEncoding) -> u8 {
    match encoding {
        TextureEncoding::Png => 0,
        TextureEncoding::Tga => 1,
        TextureEncoding::Bc7 => 2,
    }
}

/// The encoding that a byte stands for, if it stands for one.
pub open spec fn encoding_of(code: u8) -> Option<TextureEncoding> {
    if code == 0 {
        Some(TextureEncoding::Png)
    } else if code == 1 {
        Some(TextureEncoding::Tga)
    } else if code == 2 {
        Some(TextureEncoding::Bc7)
    } else {
        None
    }
}

/// Reads four bytes as a number, most significant byte first.
///
/// This is `byteorder`'s `BigEndian::read_u32`, which panics on fewer than
/// four bytes and reads the first four.
#[verifier::external_body]
fn read_u32_be(buf: &[u8]) -> (n: u32)
    requires
        buf@.len() >= 4,
    ensures
        n == be_value(buf@.take(4)),
{
    BigEndian::read_u32(buf)
}

/// Writes a number as four bytes, most significant byte first.
///
/// This is `byteorder`'s `BigEndian::write_u32` on a buffer of four bytes,
/// all of which it overwrites.
#[verifier::external_body]
fn write_u32_be(n: u32) -> (bytes: [u8; 4])
    ensures
        bytes@ == be_bytes(n),
{
    let mut bytes = [0u8; 4];
    BigEndian::write_u32(&mut bytes, n);
    bytes
}

/// Reads bytes as text.
///
/// This is `core::str::from_utf8`, which accepts exactly the byte sequences
/// that are valid UTF-8 and gives the text that they encode.
#[verifier::external_body]
fn text_from_utf8(bytes: &[u8]) -> (r: Option<String>)
    ensures
        match r {
            Some(text) => valid_utf8(bytes@) && text@ == decode_utf8(bytes@),
            None => !valid_utf8(bytes@),
        },
{
    match core::str::from_utf8(bytes) {
        Ok(text) => Some(text.to_string()),
        Err(_) => None,
    }
}

/// The number at `at`, or an error where the bytes end before it does.
pub open spec fn number_at(bytes: Seq<u8>, at: int) -> Result<u32, FormatError> {
    if at + 4 <= bytes.len() {
        Ok(be_value(bytes.subrange(at, at + 4)))
    } else {
        Err(FormatError::UnexpectedEof)
    }
}

/// What the start of a container holds: the place of the JSON payload as
/// its first and its end index, where the bytes start as a container does.
pub open spec fn json_range(bytes: Seq<u8>) -> Result<(int, int), FormatError> {
    if bytes.len() < 8 {
        Err(FormatError::UnexpectedEof)
    } else if bytes.subrange(0, 8) != magic() {
        Err(FormatError::Magic)
    } else {
        match number_at(bytes, 8) {
            Err(e) => Err(e),
            Ok(len) => if 12 + len <= bytes.len() {
                Ok((12, 12 + len))
            } else {
                Err(FormatError::UnexpectedEof)
            },
        }
    }
}

/// The texture that starts at `at` and the index after it.
pub open spec fn texture_at(bytes: Seq<u8>, at: int) -> Result<(TextureView, int), FormatError> {
    match number_at(bytes, at) {
        Err(e) => Err(e),
        Ok(len) => if at + 5 > bytes.len() {
            Err(FormatError::UnexpectedEof)
        } else {
            match encoding_of(bytes[at + 4]) {
                None => Err(FormatError::Encoding(bytes[at + 4])),
                Some(enc) => if at + 5 + len > bytes.len() {
                    Err(FormatError::UnexpectedEof)
                } else {
                    Ok((TextureView { enc, data: bytes.subrange(at + 5, at + 5 + len) }, at + 5 + len))
                },
            }
        },
    }
}

/// The `count` textures that start at `at` and the index after them.
pub open spec fn textures_at(bytes: Seq<u8>, at: int, count: nat) -> Result<
    (Seq<TextureView>, int),
    FormatError,
>
    decreases count,
{
    if count == 0 {
        Ok((Seq::empty(), at))
    } else {
        match texture_at(bytes, at) {
            Err(e) => Err(e),
            Ok((first, next)) => match textures_at(bytes, next, (count - 1) as nat) {
                Err(e) => Err(e),
                Ok((rest, end)) => Ok((seq![first] + rest, end)),
            },
        }
    }
}

/// The vendor entry that starts at `at` and the index after it.
///
/// Where the bytes end within the name, what is there of the name is still
/// held to be UTF-8.
pub open spec fn vendor_at(bytes: Seq<u8>, at: int) -> Result<(VendorDataView, int), FormatError> {
    match number_at(bytes, at) {
        Err(e) => Err(e),
        Ok(name_len) => {
            let start = at + 4;
            let end = if start + name_len <= bytes.len() {
                start + name_len
            } else {
                bytes.len() as int
            };
            let name = bytes.subrange(start, end);
            if !valid_utf8(name) {
                Err(FormatError::Name)
            } else {
                match number_at(bytes, start + name_len) {
                    Err(e) => Err(e),
                    Ok(len) => {
                        let data = start + name_len + 4;
                        if data + len > bytes.len() {
                            Err(FormatError::UnexpectedEof)
                        } else {
                            Ok(
                                (
                                    VendorDataView {
                                        name: decode_utf8(name),
                                        payload: bytes.subrange(data, data + len),
                                    },
                                    data + len,
                                ),
                            )
                        }
                    },
                }
            }
        },
    }
}

/// The `count` vendor entries that start at `at` and the index after them.
pub open spec fn vendors_at(bytes: Seq<u8>, at: int, count: nat) -> Result<
    (Seq<VendorDataView>, int),
    FormatError,
>
    decreases count,
{
    if count == 0 {
        Ok((Seq::empty(), at))
    } else {
        match vendor_at(bytes, at) {
            Err(e) => Err(e),
            Ok((first, next)) => match vendors_at(bytes, next, (count - 1) as nat) {
                Err(e) => Err(e),
                Ok((rest, end)) => Ok((seq![first] + rest, end)),
            },
        }
    }
}

/// The vendor section that starts at `at`. Where fewer than eight bytes are
/// left there is no vendor section, and no vendor data.
pub open spec fn vendor_section(bytes: Seq<u8>, at: int) -> Result<Seq<VendorDataView>, FormatError> {
    if at + 8 > bytes.len() {
        Ok(Seq::empty())
    } else if bytes.subrange(at, at + 8) != vendor_magic() {
        Err(FormatError::VendorMagic)
    } else {
        match number_at(bytes, at + 8) {
            Err(e) => Err(e),
            Ok(count) => match vendors_at(bytes, at + 12, count as nat) {
                Err(e) => Err(e),
                Ok((entries, _)) => Ok(entries),
            },
        }
    }
}

/// What follows the JSON payload, which ends at `at`: the textures and the
/// vendor data.
pub open spec fn sections(bytes: Seq<u8>, at: int) -> Result<
    (Seq<TextureView>, Seq<VendorDataView>),
    FormatError,
> {
    if at + 8 > bytes.len() {
        Err(FormatError::UnexpectedEof)
    } else if bytes.subrange(at, at + 8) != texture_magic() {
        Err(FormatError::TextureMagic)
    } else {
        match number_at(bytes, at + 8) {
            Err(e) => Err(e),
            Ok(count) => match textures_at(bytes, at + 12, count as nat) {
                Err(e) => Err(e),
                Ok((textures, next)) => match vendor_section(bytes, next) {
                    Err(e) => Err(e),
                    Ok(vendor_data) => Ok((textures, vendor_data)),
                },
            },
        }
    }
}

/// Whether the eight bytes at `at` are the given magic bytes.
fn has_magic(bytes: &[u8], at: usize, expected: [u8; 8]) -> (r: bool)
    requires
        at + 8 <= bytes@.len(),
    ensures
        r == (bytes@.subrange(at as int, at + 8) == expected@),
{
    let n: usize = bytes.len();
    let mut i: usize = 0;
    while i < 8
        invariant
            i <= 8,
            n == bytes@.len(),
            at + 8 <= n,
            forall|k: int| 0 <= k < i ==> bytes@[at + k] == #[trigger] expected@[k],
        decreases 8 - i,
    {
        if bytes[at + i] != expected[i] {
            assert(bytes@.subrange(at as int, at + 8)[i as int] != expected@[i as int]);
            return false;
        }
        i += 1;
    }
    assert(bytes@.subrange(at as int, at + 8) =~= expected@);
    true
}

/// The number at `at`, or an error where the bytes end before it does.
fn read_number(bytes: &[u8], at: usize) -> (r: Result<u32, FormatError>)
    requires
        at <= bytes@.len(),
    ensures
        r == number_at(bytes@, at as int),
{
    if bytes.len() - at < 4 {
        return Err(FormatError::UnexpectedEof);
    }
    let four = slice_subrange(bytes, at, at + 4);
    assert(four@.take(4) =~= bytes@.subrange(at as int, at + 4));
    Ok(read_u32_be(four))
}

/// The encoding that a byte stands for, if it stands for one.
fn decode_encoding(code: u8) -> (r: Option<TextureEncoding>)
    ensures
        r == encoding_of(code),
{
    if code == 0 {
        Some(TextureEncoding::Png)
    } else if code == 1 {
        Some(TextureEncoding::Tga)
    } else if code == 2 {
        Some(TextureEncoding::Bc7)
    } else {
        None
    }
}

/// Finds the JSON payload at the start of a container: its first and its end
/// index in `bytes`.
///
/// The bytes must start with the magic bytes and the length of the payload,
/// and hold the whole of it.
pub fn read_json(bytes: &[u8]) -> (r: Result<(usize, usize), FormatError>)
    ensures
        match r {
            Ok((start, end)) => json_range(bytes@) == Ok::<(int, int), FormatError>(
                (start as int, end as int),
            ) && start <= end <= bytes@.len(),
            Err(e) => json_range(bytes@) == Err::<(int, int), FormatError>(e),
        },
{
    if bytes.len() < 8 {
        return Err(FormatError::UnexpectedEof);
    }
    let expected: [u8; 8] = [0x54, 0x52, 0x4e, 0x53, 0x52, 0x54, 0x53, 0x00];
    assert(expected@ =~= magic());
    if !has_magic(bytes, 0, expected) {
        return Err(FormatError::Magic);
    }
    let len: u32 = match read_number(bytes, 8) {
        Ok(len) => len,
        Err(e) => {
            return Err(e);
        },
    };
    if (bytes.len() - 12) < len as usize {
        return Err(FormatError::UnexpectedEof);
    }
    Ok((12, 12 + len as usize))
}

/// Reads what follows the JSON payload, which ends at `at`: the texture
/// section and, where there is one, the vendor section. Bytes after the last
/// section are not looked at.
pub fn read_sections(bytes: &[u8], at: usize) -> (r: Result<
    (Vec<Texture>, Vec<VendorData>),
    FormatError,
>)
    requires
        at <= bytes@.len(),
    ensures
        match r {
            Ok((textures, vendor_data)) => sections(bytes@, at as int) == Ok::<
                (Seq<TextureView>, Seq<VendorDataView>),
                FormatError,
            >((textures.deep_view(), vendor_data.deep_view())),
            Err(e) => sections(bytes@, at as int) == Err::<
                (Seq<TextureView>, Seq<VendorDataView>),
                FormatError,
            >(e),
        },
{
    if bytes.len() - at < 8 {
        return Err(FormatError::UnexpectedEof);
    }
    let expected: [u8; 8] = [0x54, 0x45, 0x58, 0x5f, 0x53, 0x45, 0x43, 0x54];
    assert(expected@ =~= texture_magic());
    if !has_magic(bytes, at, expected) {
        return Err(FormatError::TextureMagic);
    }
    let count: u32 = match read_number(bytes, at + 8) {
        Ok(count) => count,
        Err(e) => {
            return Err(e);
        },
    };
    let (textures, next) = match read_textures(bytes, at + 12, count) {
        Ok(read) => read,
        Err(e) => {
            return Err(e);
        },
    };
    match read_vendor_section(bytes, next) {
        Ok(vendor_data) => Ok((textures, vendor_data)),
        Err(e) => Err(e),
    }
}

/// Reads `count` textures that start at `at`.
fn read_textures(bytes: &[u8], at: usize, count: u32) -> (r: Result<
    (Vec<Texture>, usize),
    FormatError,
>)
    requires
        at <= bytes@.len(),
    ensures
        match r {
            Ok((textures, end)) => textures_at(bytes@, at as int, count as nat) == Ok::<
                (Seq<TextureView>, int),
                FormatError,
            >((textures.deep_view(), end as int)) && end <= bytes@.len(),
            Err(e) => textures_at(bytes@, at as int, count as nat) == Err::<
                (Seq<TextureView>, int),
                FormatError,
            >(e),
        },
{
    let ghost whole = textures_at(bytes@, at as int, count as nat);
    let mut textures: Vec<Texture> = Vec::new();
    let mut next: usize = at;
    let mut i: u32 = 0;
    assert(textures.deep_view() =~= Seq::empty());
    assert(whole is Ok ==> Seq::<TextureView>::empty() + whole.unwrap().0 =~= whole.unwrap().0);
    while i < count
        invariant
            i <= count,
            next <= bytes@.len(),
            whole == textures_at(bytes@, at as int, count as nat),
            whole == match textures_at(bytes@, next as int, (count - i) as nat) {
                Ok((rest, end)) => Ok::<(Seq<TextureView>, int), FormatError>(
                    (textures.deep_view() + rest, end),
                ),
                Err(e) => Err(e),
            },
        decreases count - i,
    {
        let ghost before = textures.deep_view();
        let len: u32 = match read_number(bytes, next) {
            Ok(len) => len,
            Err(e) => {
                return Err(e);
            },
        };
        if bytes.len() - next < 5 {
            return Err(FormatError::UnexpectedEof);
        }
        let code: u8 = bytes[next + 4];
        let encoding = match decode_encoding(code) {
            Some(encoding) => encoding,
            None => {
                return Err(FormatError::Encoding(code));
            },
        };
        if bytes.len() - next - 5 < len as usize {
            return Err(FormatError::UnexpectedEof);
        }
        let start: usize = next + 5;
        let end: usize = start + len as usize;
        let data = slice_to_vec(slice_subrange(bytes, start, end));
        let texture = Texture::new(encoding, data);
        proof {
            let rest = textures_at(bytes@, end as int, (count - i - 1) as nat);
            assert(texture_at(bytes@, next as int) == Ok::<(TextureView, int), FormatError>(
                (texture@, end as int),
            ));
            if rest is Ok {
                assert(before + (seq![texture@] + rest.unwrap().0) =~= before.push(texture@)
                    + rest.unwrap().0);
            }
        }
        textures.push(texture);
        assert(textures.deep_view() =~= before.push(texture@));
        next = end;
        i += 1;
    }
    assert(textures.deep_view() + Seq::<TextureView>::empty() =~= textures.deep_view());
    Ok((textures, next))
}

/// Reads the vendor section that starts at `at`, where there is one.
fn read_vendor_section(bytes: &[u8], at: usize) -> (r: Result<Vec<VendorData>, FormatError>)
    requires
        at <= bytes@.len(),
    ensures
        match r {
            Ok(entries) => vendor_section(bytes@, at as int) == Ok::<
                Seq<VendorDataView>,
                FormatError,
            >(entries.deep_view()),
            Err(e) => vendor_section(bytes@, at as int) == Err::<Seq<VendorDataView>, FormatError>(
                e,
            ),
        },
{
    if bytes.len() - at < 8 {
        let none: Vec<VendorData> = Vec::new();
        assert(none.deep_view() =~= Seq::empty());
        return Ok(none);
    }
    let expected: [u8; 8] = [0x45, 0x58, 0x54, 0x5f, 0x53, 0x45, 0x43, 0x54];
    assert(expected@ =~= vendor_magic());
    if !has_magic(bytes, at, expected) {
        return Err(FormatError::VendorMagic);
    }
    let count: u32 = match read_number(bytes, at + 8) {
        Ok(count) => count,
        Err(e) => {
            return Err(e);
        },
    };
    let start: usize = at + 12;
    let ghost whole = vendors_at(bytes@, start as int, count as nat);
    let mut entries: Vec<VendorData> = Vec::new();
    let mut next: usize = start;
    let mut i: u32 = 0;
    assert(entries.deep_view() =~= Seq::empty());
    assert(whole is Ok ==> Seq::<VendorDataView>::empty() + whole.unwrap().0 =~= whole.unwrap().0);
    while i < count
        invariant
            i <= count,
            next <= bytes@.len(),
            whole == vendors_at(bytes@, start as int, count as nat),
            vendor_section(bytes@, at as int) == match whole {
                Err(e) => Err::<Seq<VendorDataView>, FormatError>(e),
                Ok((entries, _)) => Ok(entries),
            },
            whole == match vendors_at(bytes@, next as int, (count - i) as nat) {
                Ok((rest, end)) => Ok::<(Seq<VendorDataView>, int), FormatError>(
                    (entries.deep_view() + rest, end),
                ),
                Err(e) => Err(e),
            },
        decreases count - i,
    {
        let ghost before = entries.deep_view();
        let name_len: u32 = match read_number(bytes, next) {
            Ok(len) => len,
            Err(e) => {
                return Err(e);
            },
        };
        let total: usize = bytes.len();
        let name_start: usize = next + 4;
        let left: usize = total - name_start;
        let name_end: usize = if left >= name_len as usize {
            name_start + name_len as usize
        } else {
            bytes.len()
        };
        let name = match text_from_utf8(slice_subrange(bytes, name_start, name_end)) {
            Some(name) => name,
            None => {
                return Err(FormatError::Name);
            },
        };
        if left < name_len as usize {
            assert(number_at(bytes@, name_start + name_len) == Err::<u32, FormatError>(
                FormatError::UnexpectedEof,
            ));
            return Err(FormatError::UnexpectedEof);
        }
        let len: u32 = match read_number(bytes, name_end) {
            Ok(len) => len,
            Err(e) => {
                return Err(e);
            },
        };
        let data_start: usize = name_end + 4;
        if bytes.len() - data_start < len as usize {
            return Err(FormatError::UnexpectedEof);
        }
        let data_end: usize = data_start + len as usize;
        let payload = slice_to_vec(slice_subrange(bytes, data_start, data_end));
        let entry = VendorData::new(name, payload);
        proof {
            let rest = vendors_at(bytes@, data_end as int, (count - i - 1) as nat);
            assert(vendor_at(bytes@, next as int) == Ok::<(VendorDataView, int), FormatError>(
                (entry@, data_end as int),
            ));
            if rest is Ok {
                assert(before + (seq![entry@] + rest.unwrap().0) =~= before.push(entry@)
                    + rest.unwrap().0);
            }
        }
        entries.push(entry);
        assert(entries.deep_view() =~= before.push(entry@));
        next = data_end;
        i += 1;
    }
    assert(entries.deep_view() + Seq::<VendorDataView>::empty() =~= entries.deep_view());
    Ok(entries)
}

/// How many bytes a reader has to supply next, given the bytes of a container
/// that were read so far; zero where nothing more is to be read.
///
/// A container is read piece by piece: the magic bytes, the length of the
/// JSON payload, the payload, and so on, each piece being as long as the
/// pieces before it say. Nothing more is to be read once the last piece is
/// there, and as soon as a piece is at fault: wrong magic bytes, an unknown
/// encoding or a name that is no UTF-8.
pub open spec fn wanted(bytes: Seq<u8>) -> int {
    if bytes.len() < 8 {
        8 - bytes.len()
    } else if bytes.subrange(0, 8) != magic() {
        0
    } else if bytes.len() < 12 {
        12 - bytes.len()
    } else {
        let end = 12 + be_value(bytes.subrange(8, 12));
        if bytes.len() < end {
            end - bytes.len()
        } else {
            wanted_from_textures(bytes, end)
        }
    }
}

/// What [`wanted`] gives once the JSON payload, which ends at `at`, is there.
pub open spec fn wanted_from_textures(bytes: Seq<u8>, at: int) -> int {
    if bytes.len() < at + 8 {
        at + 8 - bytes.len()
    } else if bytes.subrange(at, at + 8) != texture_magic() {
        0
    } else if bytes.len() < at + 12 {
        at + 12 - bytes.len()
    } else {
        wanted_in_textures(bytes, at + 12, be_value(bytes.subrange(at + 8, at + 12)) as nat)
    }
}

/// What [`wanted`] gives where `count` textures are still to come, the first
/// of them at `at`: its length, then its encoding, then its data.
pub open spec fn wanted_in_textures(bytes: Seq<u8>, at: int, count: nat) -> int
    decreases count,
{
    if count == 0 {
        wanted_from_vendors(bytes, at)
    } else if bytes.len() < at + 4 {
        at + 4 - bytes.len()
    } else if bytes.len() < at + 5 {
        1
    } else if encoding_of(bytes[at + 4]) is None {
        0
    } else {
        let end = at + 5 + be_value(bytes.subrange(at, at + 4));
        if bytes.len() < end {
            end - bytes.len()
        } else {
            wanted_in_textures(bytes, end, (count - 1) as nat)
        }
    }
}

/// What [`wanted`] gives once the textures, which end at `at`, are there.
pub open spec fn wanted_from_vendors(bytes: Seq<u8>, at: int) -> int {
    if bytes.len() < at + 8 {
        at + 8 - bytes.len()
    } else if bytes.subrange(at, at + 8) != vendor_magic() {
        0
    } else if bytes.len() < at + 12 {
        at + 12 - bytes.len()
    } else {
        wanted_in_vendors(bytes, at + 12, be_value(bytes.subrange(at + 8, at + 12)) as nat)
    }
}

/// What [`wanted`] gives where `count` vendor entries are still to come, the
/// first of them at `at`: the length of its name, the name, the length of
/// its payload, then the payload.
pub open spec fn wanted_in_vendors(bytes: Seq<u8>, at: int, count: nat) -> int
    decreases count,
{
    if count == 0 {
        0
    } else if bytes.len() < at + 4 {
        at + 4 - bytes.len()
    } else {
        let name_end = at + 4 + be_value(bytes.subrange(at, at + 4));
        if bytes.len() < name_end {
            name_end - bytes.len()
        } else if !valid_utf8(bytes.subrange(at + 4, name_end)) {
            0
        } else if bytes.len() < name_end + 4 {
            name_end + 4 - bytes.len()
        } else {
            let end = name_end + 4 + be_value(bytes.subrange(name_end, name_end + 4));
            if bytes.len() < end {
                end - bytes.len()
            } else {
                wanted_in_vendors(bytes, end, (count - 1) as nat)
            }
        }
    }
}

/// Where nothing more is wanted among the textures, the textures are read or
/// are at fault, and nothing more is wanted after them.
proof fn lemma_textures_settled(bytes: Seq<u8>, at: int, count: nat)
    requires
        0 <= at,
        wanted_in_textures(bytes, at, count) == 0,
    ensures
        match textures_at(bytes, at, count) {
            Ok((_, end)) => wanted_from_vendors(bytes, end) == 0 && at <= end,
            Err(e) => e != FormatError::UnexpectedEof,
        },
    decreases count,
{
    if count > 0 && bytes.len() >= at + 5 && encoding_of(bytes[at + 4]) is Some {
        let end = at + 5 + be_value(bytes.subrange(at, at + 4));
        lemma_textures_settled(bytes, end, (count - 1) as nat);
    }
}

/// Where nothing more is wanted among the vendor entries, they are read or
/// are at fault.
proof fn lemma_vendors_settled(bytes: Seq<u8>, at: int, count: nat)
    requires
        0 <= at,
        wanted_in_vendors(bytes, at, count) == 0,
    ensures
        match vendors_at(bytes, at, count) {
            Ok(_) => true,
            Err(e) => e != FormatError::UnexpectedEof,
        },
    decreases count,
{
    if count > 0 && bytes.len() >= at + 4 {
        let name_end = at + 4 + be_value(bytes.subrange(at, at + 4));
        if bytes.len() >= name_end + 4 && valid_utf8(bytes.subrange(at + 4, name_end)) {
            let end = name_end + 4 + be_value(bytes.subrange(name_end, name_end + 4));
            lemma_vendors_settled(bytes, end, (count - 1) as nat);
        }
    }
}

/// Where nothing more is wanted, no byte is missing: the container is read
/// in full or is at fault, but it does not end too early.
pub proof fn lemma_nothing_wanted_nothing_missing(bytes: Seq<u8>)
    requires
        wanted(bytes) == 0,
    ensures
        match json_range(bytes) {
            Ok((_, end)) => sections(bytes, end) != Err::<
                (Seq<TextureView>, Seq<VendorDataView>),
                FormatError,
            >(FormatError::UnexpectedEof),
            Err(e) => e != FormatError::UnexpectedEof,
        },
{
    if bytes.len() >= 12 && bytes.subrange(0, 8) == magic() {
        let end = 12 + be_value(bytes.subrange(8, 12));
        if bytes.len() >= end + 12 && bytes.subrange(end, end + 8) == texture_magic() {
            let count = be_value(bytes.subrange(end + 8, end + 12)) as nat;
            lemma_textures_settled(bytes, end + 12, count);
            match textures_at(bytes, end + 12, count) {
                Ok((_, next)) => {
                    if bytes.len() >= next + 12 && bytes.subrange(next, next + 8)
                        == vendor_magic() {
                        lemma_vendors_settled(
                            bytes,
                            next + 12,
                            be_value(bytes.subrange(next + 8, next + 12)) as nat,
                        );
                    }
                },
                Err(_) => {},
            }
        }
    }
}

/// How many bytes are missing of a piece of `len` bytes that starts at `at`;
/// zero where the whole piece is there.
fn missing(bytes: &[u8], at: usize, len: u32) -> (r: usize)
    requires
        at <= bytes@.len(),
    ensures
        r == if bytes@.len() < at + len {
            at + len - bytes@.len()
        } else {
            0
        },
        bytes@.len() <= usize::MAX,
{
    let there: usize = bytes.len() - at;
    if there < len as usize {
        len as usize - there
    } else {
        0
    }
}

/// How many bytes a reader has to supply next, given the bytes of a container
/// that were read so far; zero where nothing more is to be read. See
/// [`wanted`].
pub fn next_read(bytes: &[u8]) -> (r: usize)
    ensures
        r == wanted(bytes@),
{
    let short = missing(bytes, 0, 8);
    if short > 0 {
        return short;
    }
    let expected: [u8; 8] = [0x54, 0x52, 0x4e, 0x53, 0x52, 0x54, 0x53, 0x00];
    assert(expected@ =~= magic());
    if !has_magic(bytes, 0, expected) {
        return 0;
    }
    let short = missing(bytes, 8, 4);
    if short > 0 {
        return short;
    }
    let len: u32 = read_u32_be(slice_subrange(bytes, 8, 12));
    assert(bytes@.subrange(8, 12).take(4) =~= bytes@.subrange(8, 12));
    let short = missing(bytes, 12, len);
    if short > 0 {
        return short;
    }
    let at: usize = 12 + len as usize;
    let short = missing(bytes, at, 8);
    if short > 0 {
        return short;
    }
    let expected: [u8; 8] = [0x54, 0x45, 0x58, 0x5f, 0x53, 0x45, 0x43, 0x54];
    assert(expected@ =~= texture_magic());
    if !has_magic(bytes, at, expected) {
        return 0;
    }
    let short = missing(bytes, at + 8, 4);
    if short > 0 {
        return short;
    }
    let count: u32 = read_u32_be(slice_subrange(bytes, at + 8, at + 12));
    assert(bytes@.subrange(at + 8, at + 12).take(4) =~= bytes@.subrange(at + 8, at + 12));
    let mut next: usize = at + 12;
    let mut i: u32 = 0;
    while i < count
        invariant
            i <= count,
            next <= bytes@.len(),
            wanted(bytes@) == wanted_in_textures(bytes@, next as int, (count - i) as nat),
        decreases count - i,
    {
        let short = missing(bytes, next, 4);
        if short > 0 {
            return short;
        }
        let short = missing(bytes, next + 4, 1);
        if short > 0 {
            return short;
        }
        if decode_encoding(bytes[next + 4]).is_none() {
            return 0;
        }
        let len: u32 = read_u32_be(slice_subrange(bytes, next, next + 4));
        assert(bytes@.subrange(next as int, next + 4).take(4) =~= bytes@.subrange(
            next as int,
            next + 4,
        ));
        let short = missing(bytes, next + 5, len);
        if short > 0 {
            return short;
        }
        next = next + 5 + len as usize;
        i += 1;
    }
    let at: usize = next;
    let short = missing(bytes, at, 8);
    if short > 0 {
        return short;
    }
    let expected: [u8; 8] = [0x45, 0x58, 0x54, 0x5f, 0x53, 0x45, 0x43, 0x54];
    assert(expected@ =~= vendor_magic());
    if !has_magic(bytes, at, expected) {
        return 0;
    }
    let short = missing(bytes, at + 8, 4);
    if short > 0 {
        return short;
    }
    let count: u32 = read_u32_be(slice_subrange(bytes, at + 8, at + 12));
    assert(bytes@.subrange(at + 8, at + 12).take(4) =~= bytes@.subrange(at + 8, at + 12));
    let mut next: usize = at + 12;
    let mut i: u32 = 0;
    while i < count
        invariant
            i <= count,
            next <= bytes@.len(),
            wanted(bytes@) == wanted_in_vendors(bytes@, next as int, (count - i) as nat),
        decreases count - i,
    {
        let short = missing(bytes, next, 4);
        if short > 0 {
            return short;
        }
        let name_len: u32 = read_u32_be(slice_subrange(bytes, next, next + 4));
        assert(bytes@.subrange(next as int, next + 4).take(4) =~= bytes@.subrange(
            next as int,
            next + 4,
        ));
        let short = missing(bytes, next + 4, name_len);
        if short > 0 {
            return short;
        }
        let name_end: usize = next + 4 + name_len as usize;
        if text_from_utf8(slice_subrange(bytes, next + 4, name_end)).is_none() {
            return 0;
        }
        let short = missing(bytes, name_end, 4);
        if short > 0 {
            return short;
        }
        let len: u32 = read_u32_be(slice_subrange(bytes, name_end, name_end + 4));
        assert(bytes@.subrange(name_end as int, name_end + 4).take(4) =~= bytes@.subrange(
            name_end as int,
            name_end + 4,
        ));
        let short = missing(bytes, name_end + 4, len);
        if short > 0 {
            return short;
        }
        next = name_end + 4 + len as usize;
        i += 1;
    }
    0
}

/// The bytes of one texture in a container.
pub open spec fn texture_bytes(texture: TextureView) -> Seq<u8> {
    be_bytes(texture.data.len() as u32) + seq![encoding_code(texture.enc)] + texture.data
}

/// The bytes of the items of a list, one after the other.
pub open spec fn joined<T>(items: Seq<T>, bytes_of: spec_fn(T) -> Seq<u8>) -> Seq<u8>
    decreases items.len(),
{
    if items.len() == 0 {
        Seq::empty()
    } else {
        joined(items.drop_last(), bytes_of) + bytes_of(items.last())
    }
}

/// The bytes of a list of textures in a container, one after the other.
pub open spec fn textures_bytes(textures: Seq<TextureView>) -> Seq<u8> {
    joined(textures, |texture: TextureView| texture_bytes(texture))
}

/// The bytes of one vendor entry in a container.
pub open spec fn vendor_bytes(entry: VendorDataView) -> Seq<u8> {
    be_bytes(encode_utf8(entry.name).len() as u32) + encode_utf8(entry.name) + be_bytes(
        entry.payload.len() as u32,
    ) + entry.payload
}

/// The bytes of a list of vendor entries in a container, one after the other.
pub open spec fn vendors_bytes(entries: Seq<VendorDataView>) -> Seq<u8> {
    joined(entries, |entry: VendorDataView| vendor_bytes(entry))
}

/// The bytes of what follows the JSON payload: the texture section and the
/// vendor section.
pub open spec fn sections_bytes(textures: Seq<TextureView>, vendor_data: Seq<VendorDataView>) -> Seq<
    u8,
> {
    texture_magic() + be_bytes(textures.len() as u32) + textures_bytes(textures) + vendor_magic()
        + be_bytes(vendor_data.len() as u32) + vendors_bytes(vendor_data)
}

/// The bytes of a container.
pub open spec fn container_bytes(
    json: Seq<u8>,
    textures: Seq<TextureView>,
    vendor_data: Seq<VendorDataView>,
) -> Seq<u8> {
    magic() + be_bytes(json.len() as u32) + json + sections_bytes(textures, vendor_data)
}

/// Whether the lengths of the textures fit the 32 bits that a container has
/// for each.
pub open spec fn textures_fit(textures: Seq<TextureView>) -> bool {
    &&& textures.len() <= u32::MAX
    &&& forall|i: int| 0 <= i < textures.len() ==> (#[trigger] textures[i]).data.len() <= u32::MAX
}

/// Whether the lengths of the vendor entries fit the 32 bits that a
/// container has for each.
pub open spec fn vendors_fit(entries: Seq<VendorDataView>) -> bool {
    &&& entries.len() <= u32::MAX
    &&& forall|i: int|
        0 <= i < entries.len() ==> {
            &&& encode_utf8((#[trigger] entries[i]).name).len() <= u32::MAX
            &&& entries[i].payload.len() <= u32::MAX
        }
}

/// Appends bytes to a buffer.
fn append(out: &mut Vec<u8>, bytes: &[u8])
    ensures
        final(out)@ == old(out)@ + bytes@,
{
    let mut i: usize = 0;
    while i < bytes.len()
        invariant
            i <= bytes@.len(),
            out@ == old(out)@ + bytes@.take(i as int),
        decreases bytes@.len() - i,
    {
        out.push(bytes[i]);
        i += 1;
        assert(out@ =~= old(out)@ + bytes@.take(i as int));
    }
    assert(bytes@.take(i as int) =~= bytes@);
}

/// Appends a number to a buffer as four bytes, most significant byte first.
fn append_number(out: &mut Vec<u8>, n: u32)
    ensures
        final(out)@ == old(out)@ + be_bytes(n),
{
    let bytes = write_u32_be(n);
    append(out, bytes.as_slice());
}

/// The byte that stands for an encoding.
fn encode_encoding(encoding: TextureEncoding) -> (code: u8)
    ensures
        code == encoding_code(encoding),
{
    match encoding {
        TextureEncoding::Png => 0,
        TextureEncoding::Tga => 1,
        TextureEncoding::Bc7 => 2,
    }
}

/// Writes a container: the JSON payload, the textures and the vendor data.
///
/// Every length and count must fit in 32 bits.
pub fn write(json: &[u8], textures: &[Texture], vendor_data: &[VendorData]) -> (out: Vec<u8>)
    requires
        json@.len() <= u32::MAX,
        textures_fit(textures.deep_view()),
        vendors_fit(vendor_data.deep_view()),
    ensures
        out@ == container_bytes(json@, textures.deep_view(), vendor_data.deep_view()),
{
    let ghost described = textures.deep_view();
    let ghost entries = vendor_data.deep_view();
    let mut out: Vec<u8> = Vec::new();
    let magic_bytes: [u8; 8] = [0x54, 0x52, 0x4e, 0x53, 0x52, 0x54, 0x53, 0x00];
    assert(magic_bytes@ =~= magic());
    append(&mut out, magic_bytes.as_slice());
    append_number(&mut out, json.len() as u32);
    append(&mut out, json);
    let texture_magic_bytes: [u8; 8] = [0x54, 0x45, 0x58, 0x5f, 0x53, 0x45, 0x43, 0x54];
    assert(texture_magic_bytes@ =~= texture_magic());
    append(&mut out, texture_magic_bytes.as_slice());
    append_number(&mut out, textures.len() as u32);
    let ghost head = out@;
    assert(head =~= magic() + be_bytes(json@.len() as u32) + json@ + texture_magic() + be_bytes(
        described.len() as u32,
    ));
    let mut i: usize = 0;
    assert(described.take(0) =~= Seq::empty());
    assert(out@ =~= head + textures_bytes(described.take(0)));
    while i < textures.len()
        invariant
            i <= textures@.len(),
            described == textures.deep_view(),
            textures_fit(described),
            out@ == head + textures_bytes(described.take(i as int)),
        decreases textures@.len() - i,
    {
        let texture = &textures[i];
        assert(texture@ == described[i as int]);
        let ghost before = out@;
        append_number(&mut out, texture.data().len() as u32);
        out.push(encode_encoding(texture.encoding()));
        append(&mut out, texture.data());
        proof {
            assert(described.take(i + 1).drop_last() =~= described.take(i as int));
            assert(described.take(i + 1).last() == described[i as int]);
            assert(textures_bytes(described.take(i + 1)) == textures_bytes(
                described.take(i as int),
            ) + texture_bytes(described[i as int]));
            assert(out@ =~= before + texture_bytes(described[i as int]));
            assert(head + textures_bytes(described.take(i as int)) + texture_bytes(
                described[i as int],
            ) =~= head + (textures_bytes(described.take(i as int)) + texture_bytes(
                described[i as int],
            )));
        }
        i += 1;
    }
    assert(described.take(i as int) =~= described);
    let vendor_magic_bytes: [u8; 8] = [0x45, 0x58, 0x54, 0x5f, 0x53, 0x45, 0x43, 0x54];
    assert(vendor_magic_bytes@ =~= vendor_magic());
    append(&mut out, vendor_magic_bytes.as_slice());
    append_number(&mut out, vendor_data.len() as u32);
    let ghost middle = out@;
    let mut j: usize = 0;
    assert(entries.take(0) =~= Seq::empty());
    assert(out@ =~= middle + vendors_bytes(entries.take(0)));
    while j < vendor_data.len()
        invariant
            j <= vendor_data@.len(),
            entries == vendor_data.deep_view(),
            vendors_fit(entries),
            out@ == middle + vendors_bytes(entries.take(j as int)),
        decreases vendor_data@.len() - j,
    {
        let entry = &vendor_data[j];
        assert(entry@ == entries[j as int]);
        let ghost before = out@;
        let name = entry.name().as_bytes();
        append_number(&mut out, name.len() as u32);
        append(&mut out, name);
        append_number(&mut out, entry.payload().len() as u32);
        append(&mut out, entry.payload());
        proof {
            assert(entries.take(j + 1).drop_last() =~= entries.take(j as int));
            assert(entries.take(j + 1).last() == entries[j as int]);
            assert(vendors_bytes(entries.take(j + 1)) == vendors_bytes(entries.take(j as int))
                + vendor_bytes(entries[j as int]));
            assert(out@ =~= before + vendor_bytes(entries[j as int]));
            assert(middle + vendors_bytes(entries.take(j as int)) + vendor_bytes(entries[j as int])
                =~= middle + (vendors_bytes(entries.take(j as int)) + vendor_bytes(
                entries[j as int],
            )));
        }
        j += 1;
    }
    assert(entries.take(j as int) =~= entries);
    assert(out@ =~= container_bytes(json@, described, entries));
    out
}

/// Where the bytes at `at` are those of a number, the number is read there.
proof fn lemma_number_at(bytes: Seq<u8>, at: int, n: u32)
    requires
        0 <= at,
        at + 4 <= bytes.len(),
        bytes.subrange(at, at + 4) == be_bytes(n),
    ensures
        number_at(bytes, at) == Ok::<u32, FormatError>(n),
{
    lemma_be_round_trip(n);
}

/// Where the bytes at `at` are those of a texture, the texture is read there.
proof fn lemma_texture_at(bytes: Seq<u8>, at: int, texture: TextureView)
    requires
        0 <= at,
        texture.data.len() <= u32::MAX,
        at + texture_bytes(texture).len() <= bytes.len(),
        bytes.subrange(at, at + texture_bytes(texture).len()) == texture_bytes(texture),
    ensures
        texture_bytes(texture).len() == 5 + texture.data.len(),
        texture_at(bytes, at) == Ok::<(TextureView, int), FormatError>(
            (texture, at + 5 + texture.data.len()),
        ),
{
    let len = texture.data.len() as u32;
    let written = texture_bytes(texture);
    let part = bytes.subrange(at, at + written.len());
    assert(written.len() == 5 + texture.data.len());
    assert(bytes.subrange(at, at + 4) =~= part.subrange(0, 4));
    assert(written.subrange(0, 4) =~= be_bytes(len));
    lemma_number_at(bytes, at, len);
    assert(bytes[at + 4] == part[4]);
    assert(written[4] == encoding_code(texture.enc));
    assert(encoding_of(encoding_code(texture.enc)) == Some(texture.enc));
    assert(bytes.subrange(at + 5, at + 5 + len) =~= part.subrange(5, 5 + len));
    assert(written.subrange(5, 5 + len) =~= texture.data);
}

/// Where textures are read and one more texture is read after them, all of
/// them are read as one list.
proof fn lemma_textures_at_extend(
    bytes: Seq<u8>,
    at: int,
    n: nat,
    textures: Seq<TextureView>,
    mid: int,
    texture: TextureView,
    end: int,
)
    requires
        textures_at(bytes, at, n) == Ok::<(Seq<TextureView>, int), FormatError>((textures, mid)),
        texture_at(bytes, mid) == Ok::<(TextureView, int), FormatError>((texture, end)),
    ensures
        textures_at(bytes, at, n + 1) == Ok::<(Seq<TextureView>, int), FormatError>(
            (textures.push(texture), end),
        ),
    decreases n,
{
    if n == 0 {
        assert(textures_at(bytes, end, 0) == Ok::<(Seq<TextureView>, int), FormatError>(
            (Seq::empty(), end),
        ));
        assert(seq![texture] + Seq::<TextureView>::empty() =~= textures.push(texture));
    } else {
        let (first, next) = texture_at(bytes, at).unwrap();
        let (rest, _) = textures_at(bytes, next, (n - 1) as nat).unwrap();
        lemma_textures_at_extend(bytes, next, (n - 1) as nat, rest, mid, texture, end);
        assert(seq![first] + rest.push(texture) =~= (seq![first] + rest).push(texture));
    }
}

/// Where the bytes at `at` are those of a list of textures, the list is read
/// there.
proof fn lemma_textures_at(bytes: Seq<u8>, at: int, textures: Seq<TextureView>)
    requires
        0 <= at,
        forall|i: int| 0 <= i < textures.len() ==> (#[trigger] textures[i]).data.len() <= u32::MAX,
        at + textures_bytes(textures).len() <= bytes.len(),
        bytes.subrange(at, at + textures_bytes(textures).len()) == textures_bytes(textures),
    ensures
        textures_at(bytes, at, textures.len()) == Ok::<(Seq<TextureView>, int), FormatError>(
            (textures, at + textures_bytes(textures).len()),
        ),
    decreases textures.len(),
{
    if textures.len() == 0 {
        assert(textures =~= Seq::empty());
    } else {
        let before = textures.drop_last();
        let last = textures.last();
        let head = textures_bytes(before);
        let tail = texture_bytes(last);
        assert(textures_bytes(textures) == head + tail);
        let whole = bytes.subrange(at, at + (head + tail).len());
        assert(bytes.subrange(at, at + head.len()) =~= whole.subrange(0, head.len() as int));
        assert((head + tail).subrange(0, head.len() as int) =~= head);
        lemma_textures_at(bytes, at, before);
        let mid: int = at + head.len();
        assert(bytes.subrange(mid, mid + tail.len()) =~= whole.subrange(
            head.len() as int,
            (head + tail).len() as int,
        ));
        assert((head + tail).subrange(head.len() as int, (head + tail).len() as int) =~= tail);
        lemma_texture_at(bytes, mid, last);
        lemma_textures_at_extend(
            bytes,
            at,
            before.len(),
            before,
            mid,
            last,
            mid + 5 + last.data.len(),
        );
        assert(before.push(last) =~= textures);
    }
}

/// Where the bytes at `at` are those of a vendor entry, the entry is read
/// there.
proof fn lemma_vendor_at(bytes: Seq<u8>, at: int, entry: VendorDataView)
    requires
        0 <= at,
        encode_utf8(entry.name).len() <= u32::MAX,
        entry.payload.len() <= u32::MAX,
        at + vendor_bytes(entry).len() <= bytes.len(),
        bytes.subrange(at, at + vendor_bytes(entry).len()) == vendor_bytes(entry),
    ensures
        vendor_at(bytes, at) == Ok::<(VendorDataView, int), FormatError>(
            (entry, at + vendor_bytes(entry).len()),
        ),
{
    broadcast use vstd::utf8::encode_utf8_valid_utf8;
    broadcast use vstd::utf8::encode_utf8_decode_utf8;

    let name = encode_utf8(entry.name);
    let name_len = name.len() as u32;
    let len = entry.payload.len() as u32;
    let written = vendor_bytes(entry);
    let part = bytes.subrange(at, at + written.len());
    assert(written.len() == 8 + name.len() + entry.payload.len());
    assert(bytes.subrange(at, at + 4) =~= part.subrange(0, 4));
    assert(written.subrange(0, 4) =~= be_bytes(name_len));
    lemma_number_at(bytes, at, name_len);
    let start: int = at + 4;
    assert(bytes.subrange(start, start + name_len) =~= part.subrange(4, 4 + name_len));
    assert(written.subrange(4, 4 + name_len) =~= name);
    let after: int = start + name_len;
    assert(bytes.subrange(after, after + 4) =~= part.subrange(4 + name_len, 8 + name_len));
    assert(written.subrange(4 + name_len, 8 + name_len) =~= be_bytes(len));
    lemma_number_at(bytes, after, len);
    let data: int = after + 4;
    assert(bytes.subrange(data, data + len) =~= part.subrange(8 + name_len, 8 + name_len + len));
    assert(written.subrange(8 + name_len, 8 + name_len + len) =~= entry.payload);
}

/// Where vendor entries are read and one more entry is read after them, all
/// of them are read as one list.
proof fn lemma_vendors_at_extend(
    bytes: Seq<u8>,
    at: int,
    n: nat,
    entries: Seq<VendorDataView>,
    mid: int,
    entry: VendorDataView,
    end: int,
)
    requires
        vendors_at(bytes, at, n) == Ok::<(Seq<VendorDataView>, int), FormatError>((entries, mid)),
        vendor_at(bytes, mid) == Ok::<(VendorDataView, int), FormatError>((entry, end)),
    ensures
        vendors_at(bytes, at, n + 1) == Ok::<(Seq<VendorDataView>, int), FormatError>(
            (entries.push(entry), end),
        ),
    decreases n,
{
    if n == 0 {
        assert(vendors_at(bytes, end, 0) == Ok::<(Seq<VendorDataView>, int), FormatError>(
            (Seq::empty(), end),
        ));
        assert(seq![entry] + Seq::<VendorDataView>::empty() =~= entries.push(entry));
    } else {
        let (first, next) = vendor_at(bytes, at).unwrap();
        let (rest, _) = vendors_at(bytes, next, (n - 1) as nat).unwrap();
        lemma_vendors_at_extend(bytes, next, (n - 1) as nat, rest, mid, entry, end);
        assert(seq![first] + rest.push(entry) =~= (seq![first] + rest).push(entry));
    }
}

/// Where the bytes at `at` are those of a list of vendor entries, the list is
/// read there.
proof fn lemma_vendors_at(bytes: Seq<u8>, at: int, entries: Seq<VendorDataView>)
    requires
        0 <= at,
        forall|i: int|
            0 <= i < entries.len() ==> {
                &&& encode_utf8((#[trigger] entries[i]).name).len() <= u32::MAX
                &&& entries[i].payload.len() <= u32::MAX
            },
        at + vendors_bytes(entries).len() <= bytes.len(),
        bytes.subrange(at, at + vendors_bytes(entries).len()) == vendors_bytes(entries),
    ensures
        vendors_at(bytes, at, entries.len()) == Ok::<(Seq<VendorDataView>, int), FormatError>(
            (entries, at + vendors_bytes(entries).len()),
        ),
    decreases entries.len(),
{
    if entries.len() == 0 {
        assert(entries =~= Seq::empty());
    } else {
        let before = entries.drop_last();
        let last = entries.last();
        let head = vendors_bytes(before);
        let tail = vendor_bytes(last);
        assert(vendors_bytes(entries) == head + tail);
        let whole = bytes.subrange(at, at + (head + tail).len());
        assert(bytes.subrange(at, at + head.len()) =~= whole.subrange(0, head.len() as int));
        assert((head + tail).subrange(0, head.len() as int) =~= head);
        lemma_vendors_at(bytes, at, before);
        let mid: int = at + head.len();
        assert(bytes.subrange(mid, mid + tail.len()) =~= whole.subrange(
            head.len() as int,
            (head + tail).len() as int,
        ));
        assert((head + tail).subrange(head.len() as int, (head + tail).len() as int) =~= tail);
        lemma_vendor_at(bytes, mid, last);
        lemma_vendors_at_extend(bytes, at, before.len(), before, mid, last, mid + tail.len());
        assert(before.push(last) =~= entries);
    }
}

/// The bytes of a container whose sections hold the given bytes.
spec fn framed(json: Seq<u8>, texture_count: u32, t: Seq<u8>, vendor_count: u32, v: Seq<u8>) -> Seq<
    u8,
> {
    magic() + be_bytes(json.len() as u32) + json + (texture_magic() + be_bytes(texture_count) + t
        + vendor_magic() + be_bytes(vendor_count) + v)
}

/// Where each part of a container stands in its bytes.
proof fn lemma_framed_layout(
    json: Seq<u8>,
    texture_count: u32,
    t: Seq<u8>,
    vendor_count: u32,
    v: Seq<u8>,
)
    ensures
        ({
            let bytes = framed(json, texture_count, t, vendor_count, v);
            let p = 12 + json.len() as int;
            let e = p + 12 + t.len() as int;
            &&& bytes.len() == e + 12 + v.len()
            &&& bytes.subrange(0, 8) == magic()
            &&& bytes.subrange(8, 12) == be_bytes(json.len() as u32)
            &&& bytes.subrange(12, p) == json
            &&& bytes.subrange(p, p + 8) == texture_magic()
            &&& bytes.subrange(p + 8, p + 12) == be_bytes(texture_count)
            &&& bytes.subrange(p + 12, e) == t
            &&& bytes.subrange(e, e + 8) == vendor_magic()
            &&& bytes.subrange(e + 8, e + 12) == be_bytes(vendor_count)
            &&& bytes.subrange(e + 12, e + 12 + v.len()) == v
        }),
{
    let bytes = framed(json, texture_count, t, vendor_count, v);
    let p = 12 + json.len() as int;
    let e = p + 12 + t.len() as int;
    assert(bytes.subrange(0, 8) =~= magic());
    assert(bytes.subrange(8, 12) =~= be_bytes(json.len() as u32));
    assert(bytes.subrange(12, p) =~= json);
    assert(bytes.subrange(p, p + 8) =~= texture_magic());
    assert(bytes.subrange(p + 8, p + 12) =~= be_bytes(texture_count));
    assert(bytes.subrange(p + 12, e) =~= t);
    assert(bytes.subrange(e, e + 8) =~= vendor_magic());
    assert(bytes.subrange(e + 8, e + 12) =~= be_bytes(vendor_count));
    assert(bytes.subrange(e + 12, e + 12 + v.len()) =~= v);
}

/// What is written is read back: in the bytes of a container the JSON
/// payload is found where it was put, and the sections after it give the
/// textures and the vendor data that were written.
pub proof fn lemma_write_read_round_trip(
    json: Seq<u8>,
    textures: Seq<TextureView>,
    vendor_data: Seq<VendorDataView>,
)
    requires
        json.len() <= u32::MAX,
        textures_fit(textures),
        vendors_fit(vendor_data),
    ensures
        json_range(container_bytes(json, textures, vendor_data)) == Ok::<(int, int), FormatError>(
            (12, 12 + json.len() as int),
        ),
        container_bytes(json, textures, vendor_data).subrange(12, 12 + json.len() as int) == json,
        sections(container_bytes(json, textures, vendor_data), 12 + json.len() as int) == Ok::<
            (Seq<TextureView>, Seq<VendorDataView>),
            FormatError,
        >((textures, vendor_data)),
{
    let bytes = container_bytes(json, textures, vendor_data);
    let t = textures_bytes(textures);
    let v = vendors_bytes(vendor_data);
    let p: int = 12 + json.len() as int;
    let e: int = p + 12 + t.len();
    assert(bytes == framed(json, textures.len() as u32, t, vendor_data.len() as u32, v));
    lemma_framed_layout(json, textures.len() as u32, t, vendor_data.len() as u32, v);
    lemma_number_at(bytes, 8, json.len() as u32);
    lemma_number_at(bytes, p + 8, textures.len() as u32);
    lemma_textures_at(bytes, p + 12, textures);
    lemma_number_at(bytes, e + 8, vendor_data.len() as u32);
    lemma_vendors_at(bytes, e + 12, vendor_data);
    assert(vendor_section(bytes, e) == Ok::<Seq<VendorDataView>, FormatError>(vendor_data));
}

/// Where textures are read, what is wanted among them is what is wanted
/// after them.
proof fn lemma_read_textures_want_no_more(bytes: Seq<u8>, at: int, count: nat)
    requires
        0 <= at,
        textures_at(bytes, at, count) is Ok,
    ensures
        wanted_in_textures(bytes, at, count) == wanted_from_vendors(
            bytes,
            textures_at(bytes, at, count)->Ok_0.1,
        ),
    decreases count,
{
    if count > 0 {
        let next = texture_at(bytes, at)->Ok_0.1;
        lemma_read_textures_want_no_more(bytes, next, (count - 1) as nat);
    }
}

/// Where vendor entries are read, nothing more is wanted among them.
proof fn lemma_read_vendors_want_no_more(bytes: Seq<u8>, at: int, count: nat)
    requires
        0 <= at,
        vendors_at(bytes, at, count) is Ok,
    ensures
        wanted_in_vendors(bytes, at, count) == 0,
    decreases count,
{
    if count > 0 {
        let next = vendor_at(bytes, at)->Ok_0.1;
        lemma_read_vendors_want_no_more(bytes, next, (count - 1) as nat);
    }
}

/// A written container is read whole: once all its bytes are there, nothing
/// more is wanted.
pub proof fn lemma_written_is_read_whole(
    json: Seq<u8>,
    textures: Seq<TextureView>,
    vendor_data: Seq<VendorDataView>,
)
    requires
        json.len() <= u32::MAX,
        textures_fit(textures),
        vendors_fit(vendor_data),
    ensures
        wanted(container_bytes(json, textures, vendor_data)) == 0,
{
    let bytes = container_bytes(json, textures, vendor_data);
    let t = textures_bytes(textures);
    let v = vendors_bytes(vendor_data);
    let p: int = 12 + json.len() as int;
    let e: int = p + 12 + t.len();
    assert(bytes == framed(json, textures.len() as u32, t, vendor_data.len() as u32, v));
    lemma_framed_layout(json, textures.len() as u32, t, vendor_data.len() as u32, v);
    lemma_be_round_trip(json.len() as u32);
    lemma_be_round_trip(textures.len() as u32);
    lemma_be_round_trip(vendor_data.len() as u32);
    lemma_textures_at(bytes, p + 12, textures);
    lemma_vendors_at(bytes, e + 12, vendor_data);
    lemma_read_textures_want_no_more(bytes, p + 12, textures.len());
    lemma_read_vendors_want_no_more(bytes, e + 12, vendor_data.len());
}

} // verus!
