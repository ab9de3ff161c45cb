//! A minimal statically linked x86-64 ELF executable that prints the flag.
use crate::error::Error;
use crate::flag::entropy::expands_to;
use crate::flag::volume::{file_name_of, flag_volume_at, flag_volume_is, FlagFileKind, FlagVolume};
use crate::model::ExecutableFlag;
use crate::text::owned;
use vstd::prelude::*;

verus! {

/// Address at which the single segment is loaded.
pub const BASE_ADDR: u64 = 0x400000;

/// Offset of the code: the 64-byte ELF header and the 56-byte program header.
pub const CODE_OFFSET: u64 = 0x78;

/// Length of the machine code.
pub const CODE_LEN: u64 = 45;

/// The eight little-endian bytes of `x`.
pub open spec fn le64(x: u64) -> Seq<u8> {
    seq![
        x as u8,
        (x >> 8u64) as u8,
        (x >> 16u64) as u8,
        (x >> 24u64) as u8,
        (x >> 32u64) as u8,
        (x >> 40u64) as u8,
        (x >> 48u64) as u8,
        (x >> 56u64) as u8,
    ]
}

/// The four little-endian bytes of `x`.
pub open spec fn le32(x: u32) -> Seq<u8> {
    seq![x as u8, (x >> 8u32) as u8, (x >> 16u32) as u8, (x >> 24u32) as u8]
}

/// The ELF header: 64-bit, little endian, System V, `ET_EXEC` for x86-64, one
/// program header right after it and no section headers.
pub open spec fn elf_header() -> Seq<u8> {
    seq![0x7fu8, 0x45, 0x4c, 0x46, 0x02, 0x01, 0x01, 0x00, 0, 0, 0, 0, 0, 0, 0, 0]
        + seq![0x02u8, 0x00, 0x3e, 0x00, 0x01, 0x00, 0x00, 0x00]
        + le64((BASE_ADDR + CODE_OFFSET) as u64)
        + le64(0x40)
        + le64(0)
        + seq![0u8, 0, 0, 0, 0x40, 0, 0x38, 0, 0x01, 0, 0, 0, 0, 0, 0, 0]
}

/// The one `PT_LOAD` program header, readable and executable, that maps the
/// whole file of `file_size` bytes at `BASE_ADDR`.
pub open spec fn program_header(file_size: u64) -> Seq<u8> {
    seq![0x01u8, 0, 0, 0, 0x05, 0, 0, 0]
        + le64(0)
        + le64(BASE_ADDR)
        + le64(BASE_ADDR)
        + le64(file_size)
        + le64(file_size)
        + le64(0x1000)
}

/// `write(1, data, len)` then `exit(0)`.
pub open spec fn code(data_addr: u64, len: u32) -> Seq<u8> {
    seq![0x48u8, 0xc7, 0xc0, 0x01, 0x00, 0x00, 0x00, 0x48, 0xc7, 0xc7, 0x01, 0x00, 0x00, 0x00]
        + seq![0x48u8, 0xbe]
        + le64(data_addr)
        + seq![0x48u8, 0xc7, 0xc2]
        + le32(len)
        + seq![0x0fu8, 0x05, 0x48, 0xc7, 0xc0, 0x3c, 0x00, 0x00, 0x00, 0x48, 0x31, 0xff, 0x0f, 0x05]
}

/// The whole executable for the flag bytes `flag`.
pub open spec fn elf_image(flag: Seq<u8>) -> Seq<u8> {
    elf_header()
        + program_header((CODE_OFFSET + CODE_LEN + flag.len()) as u64)
        + code((BASE_ADDR + CODE_OFFSET + CODE_LEN) as u64, flag.len() as u32)
        + flag
}

/// The UTF-8 bytes of the text `s`.
pub open spec fn utf8(s: Seq<char>) -> Seq<u8> {
    vstd::utf8::encode_utf8(s)
}

fn push_bytes(v: &mut Vec<u8>, b: &[u8])
    ensures
        final(v)@ == old(v)@ + b@,
{
    let mut i: usize = 0;
    while i < b.len()
        invariant
            i <= b@.len(),
            v@ == old(v)@ + b@.subrange(0, i as int),
        decreases b@.len() - i,
    {
        v.push(b[i]);
        proof {
            assert(b@.subrange(0, i + 1) =~= b@.subrange(0, i as int).push(b@[i as int]));
        }
        i += 1;
    }
    proof {
        assert(b@.subrange(0, b@.len() as int) =~= b@);
    }
}

fn push_le64(v: &mut Vec<u8>, x: u64)
    ensures
        final(v)@ == old(v)@ + le64(x),
{
    v.push(x as u8);
    v.push((x >> 8u64) as u8);
    v.push((x >> 16u64) as u8);
    v.push((x >> 24u64) as u8);
    v.push((x >> 32u64) as u8);
    v.push((x >> 40u64) as u8);
    v.push((x >> 48u64) as u8);
    v.push((x >> 56u64) as u8);
    proof {
        assert(v@ =~= old(v)@ + le64(x));
    }
}

fn push_le32(v: &mut Vec<u8>, x: u32)
    ensures
        final(v)@ == old(v)@ + le32(x),
{
    v.push(x as u8);
    v.push((x >> 8u32) as u8);
    v.push((x >> 16u32) as u8);
    v.push((x >> 24u32) as u8);
    proof {
        assert(v@ =~= old(v)@ + le32(x));
    }
}

fn push_header(v: &mut Vec<u8>)
    ensures
        final(v)@ == old(v)@ + elf_header(),
{
    let ghost v0 = v@;
    let ident: [u8; 16] = [0x7f, 0x45, 0x4c, 0x46, 0x02, 0x01, 0x01, 0x00, 0, 0, 0, 0, 0, 0, 0, 0];
    push_bytes(v, &ident);
    let kind: [u8; 8] = [0x02, 0x00, 0x3e, 0x00, 0x01, 0x00, 0x00, 0x00];
    push_bytes(v, &kind);
    push_le64(v, BASE_ADDR + CODE_OFFSET);
    push_le64(v, 0x40);
    push_le64(v, 0);
    let tail: [u8; 16] = [0, 0, 0, 0, 0x40, 0, 0x38, 0, 0x01, 0, 0, 0, 0, 0, 0, 0];
    push_bytes(v, &tail);
    proof {
        assert(ident@ =~= seq![0x7fu8, 0x45, 0x4c, 0x46, 0x02, 0x01, 0x01, 0x00, 0, 0, 0, 0, 0, 0, 0, 0]);
        assert(kind@ =~= seq![0x02u8, 0x00, 0x3e, 0x00, 0x01, 0x00, 0x00, 0x00]);
        assert(tail@ =~= seq![0u8, 0, 0, 0, 0x40, 0, 0x38, 0, 0x01, 0, 0, 0, 0, 0, 0, 0]);
        assert(v@ =~= v0 + elf_header());
    }
}

fn push_program_header(v: &mut Vec<u8>, file_size: u64)
    ensures
        final(v)@ == old(v)@ + program_header(file_size),
{
    let ghost v0 = v@;
    let head: [u8; 8] = [0x01, 0, 0, 0, 0x05, 0, 0, 0];
    push_bytes(v, &head);
    push_le64(v, 0);
    push_le64(v, BASE_ADDR);
    push_le64(v, BASE_ADDR);
    push_le64(v, file_size);
    push_le64(v, file_size);
    push_le64(v, 0x1000);
    proof {
        assert(head@ =~= seq![0x01u8, 0, 0, 0, 0x05, 0, 0, 0]);
        assert(v@ =~= v0 + program_header(file_size));
    }
}

fn push_code(v: &mut Vec<u8>, data_addr: u64, len: u32)
    ensures
        final(v)@ == old(v)@ + code(data_addr, len),
{
    let ghost v0 = v@;
    let setup: [u8; 14] = [0x48, 0xc7, 0xc0, 0x01, 0x00, 0x00, 0x00, 0x48, 0xc7, 0xc7, 0x01, 0x00, 0x00, 0x00];
    push_bytes(v, &setup);
    let movabs_rsi: [u8; 2] = [0x48, 0xbe];
    push_bytes(v, &movabs_rsi);
    push_le64(v, data_addr);
    let mov_rdx: [u8; 3] = [0x48, 0xc7, 0xc2];
    push_bytes(v, &mov_rdx);
    push_le32(v, len);
    let finish: [u8; 14] = [0x0f, 0x05, 0x48, 0xc7, 0xc0, 0x3c, 0x00, 0x00, 0x00, 0x48, 0x31, 0xff, 0x0f, 0x05];
    push_bytes(v, &finish);
    proof {
        assert(setup@ =~= seq![0x48u8, 0xc7, 0xc0, 0x01, 0x00, 0x00, 0x00, 0x48, 0xc7, 0xc7, 0x01, 0x00, 0x00, 0x00]);
        assert(movabs_rsi@ =~= seq![0x48u8, 0xbe]);
        assert(mov_rdx@ =~= seq![0x48u8, 0xc7, 0xc2]);
        assert(finish@ =~= seq![0x0fu8, 0x05, 0x48, 0xc7, 0xc0, 0x3c, 0x00, 0x00, 0x00, 0x48, 0x31, 0xff, 0x0f, 0x05]);
        assert(v@ =~= v0 + code(data_addr, len));
    }
}

/// The largest flag, in bytes, whose length the code can load.
pub const MAX_FLAG_BYTES: usize = 0xffff_ffff;

/// Generates a statically linked x86-64 executable that writes the flag to
/// standard output, without a trailing newline, and exits with status 0.
/// Fails only when the flag is too long for the length operand of the code.
pub fn generate_elf_executable(flag: &str) -> (r: Result<Vec<u8>, Error>)
    ensures
        utf8(flag@).len() <= MAX_FLAG_BYTES <==> r is Ok,
        r matches Ok(image) ==> image@ == elf_image(utf8(flag@)),
        r matches Err(e) ==> e is FlagGenerationError,
{
    let bytes = flag.as_bytes();
    let n = bytes.len();
    if n > MAX_FLAG_BYTES {
        return Err(Error::FlagGenerationError(owned("flag too long for the executable")));
    }
    let mut elf: Vec<u8> = Vec::new();
    push_header(&mut elf);
    push_program_header(&mut elf, CODE_OFFSET + CODE_LEN + n as u64);
    push_code(&mut elf, BASE_ADDR + CODE_OFFSET + CODE_LEN, n as u32);
    push_bytes(&mut elf, bytes);
    proof {
        assert(elf@ =~= elf_image(utf8(flag@)));
    }
    Ok(elf)
}

/// The image starts with the ELF magic, is of class 64-bit, is built for
/// x86-64 (machine `0x3e`), and holds at least the 120 bytes of headers and
/// the flag bytes.
pub proof fn elf_image_fields(flag: Seq<u8>)
    requires
        flag.len() <= MAX_FLAG_BYTES,
    ensures
        elf_image(flag).subrange(0, 4) == seq![0x7fu8, 0x45, 0x4c, 0x46],
        elf_image(flag)[4] == 2,
        elf_image(flag)[5] == 1,
        elf_image(flag).subrange(16, 18) == seq![0x02u8, 0x00],
        elf_image(flag).subrange(18, 20) == seq![0x3eu8, 0x00],
        elf_image(flag).len() >= 120 + flag.len(),
        elf_image(flag).len() == CODE_OFFSET + CODE_LEN + flag.len(),
        elf_image(flag).subrange((CODE_OFFSET + CODE_LEN) as int, elf_image(flag).len() as int) == flag,
{
    let img = elf_image(flag);
    assert(elf_header().len() == 64);
    assert(program_header((CODE_OFFSET + CODE_LEN + flag.len()) as u64).len() == 56);
    assert(code((BASE_ADDR + CODE_OFFSET + CODE_LEN) as u64, flag.len() as u32).len() == 45);
    assert(img.subrange(0, 4) =~= seq![0x7fu8, 0x45, 0x4c, 0x46]);
    assert(img.subrange(16, 18) =~= seq![0x02u8, 0x00]);
    assert(img.subrange(18, 20) =~= seq![0x3eu8, 0x00]);
    assert(img.subrange((CODE_OFFSET + CODE_LEN) as int, img.len() as int) =~= flag);
}

/// Builds the volume and mount of the flag executable: the placeholder of
/// the path is expanded, the file is mounted read-only at the expanded path,
/// with mode `0o555` unless the challenge names one.
pub fn build_volume_mount(config: &ExecutableFlag, _flag: &str) -> (r: Result<FlagVolume, Error>)
    ensures
        exists|p: Seq<char>|
            {
                &&& expands_to(config.path@, p)
                &&& (r is Ok <==> file_name_of(p) is Some)
                &&& (r matches Ok(v) ==> flag_volume_is(v, FlagFileKind::Executable, config.mode, p, file_name_of(p)->0))
            },
        r matches Err(e) ==> e is FlagGenerationError,
{
    flag_volume_at(FlagFileKind::Executable, config.path.as_str(), config.mode)
}

} // verus!
