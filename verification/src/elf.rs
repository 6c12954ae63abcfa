//! The header of an ELF object file: its layout, and how it is decoded.
//!
//! A header starts with a 16-byte identification block, which is the same
//! for every file. The `class` byte of that block says whether the record
//! that follows is laid out for 32 or for 64 bits, and the `data` byte in
//! which byte order its fields are stored. [`ElfFile::decode`] checks both
//! before it reads a field, and the length of the buffer before it reads the
//! record, so a header is either decoded as a whole or not at all.

use crate::emachine::EMachine;
use crate::endian::{
    lemma_u16_field_bytes, lemma_u32_field_bytes, lemma_u64_field_bytes, push_u16, push_u32,
    push_u64, read_u16, read_u32, read_u64, u16_at, u32_at, u64_at, uint_bytes, Endianness,
};
use crate::numeral::{code_label, code_label_string};
use vstd::prelude::*;

verus! {

/// The length of the identification block.
pub const IDENT_SIZE: usize = 16;

/// The length of a 32-bit header, identification block included.
pub const ELF32_HEADER_SIZE: usize = 52;

/// The length of a 64-bit header, identification block included.
pub const ELF64_HEADER_SIZE: usize = 64;

/// The `class` byte of a file with a 32-bit header.
pub const CLASS_32: u8 = 1;

/// The `class` byte of a file with a 64-bit header.
pub const CLASS_64: u8 = 2;

/// The identification block: the first 16 bytes of every ELF file.
#[derive(Debug, Copy, Clone, PartialEq, Eq)]
pub struct ElfIdent {
    /// The four bytes `7f 45 4c 46` that mark an ELF file.
    pub magic: [u8; 4],
    /// 1 for a 32-bit header, 2 for a 64-bit header.
    pub class: u8,
    /// 1 for little-endian fields, 2 for big-endian fields.
    pub data: u8,
    /// The version of the identification block.
    pub version: u8,
    /// The operating system ABI.
    pub os_abi: u8,
    /// The version of that ABI.
    pub abi_version: u8,
    /// Seven reserved bytes.
    pub padding: [u8; 7],
}

/// The raw code of an object file type.
#[derive(Debug, Copy, Clone, PartialEq, Eq, Structural)]
pub struct ElfType(pub u16);

/// The header of a 64-bit file.
#[derive(Debug, Copy, Clone, PartialEq, Eq)]
pub struct Elf64Header {
    pub e_ident: ElfIdent,
    pub e_type: ElfType,
    pub e_machine: EMachine,
    pub e_version: u32,
    pub e_entry: u64,
    pub e_phoff: u64,
    pub e_shoff: u64,
    pub e_flags: u32,
    pub e_ehsize: u16,
    pub e_phentsize: u16,
    pub e_phnum: u16,
    pub e_shentsize: u16,
    pub e_shnum: u16,
    pub e_shstrndx: u16,
}

/// The header of a 32-bit file.
#[derive(Debug, Copy, Clone, PartialEq, Eq)]
pub struct Elf32Header {
    pub e_ident: ElfIdent,
    pub e_type: ElfType,
    pub e_machine: EMachine,
    pub e_version: u32,
    pub e_entry: u32,
    pub e_phoff: u32,
    pub e_shoff: u32,
    pub e_flags: u32,
    pub e_ehsize: u16,
    pub e_phentsize: u16,
    pub e_phnum: u16,
    pub e_shentsize: u16,
    pub e_shnum: u16,
    pub e_shstrndx: u16,
}

/// A decoded header, in the layout that the `class` byte of its file names.
#[derive(Debug, Copy, Clone, PartialEq, Eq)]
pub enum ElfHeader {
    Elf32(Elf32Header),
    Elf64(Elf64Header),
}

/// Why a buffer was not decoded.
#[derive(Debug, Copy, Clone, PartialEq, Eq, Structural)]
pub enum ElfError {
    /// The buffer does not start with the four magic bytes.
    BadMagic,
    /// The `class` byte is neither 1 nor 2.
    UnsupportedClass,
    /// The `data` byte names another byte order than the one the decoder
    /// reads.
    EndiannessMismatch,
    /// The buffer ends before the header does.
    Truncated,
}

/// A validated header together with its identification block.
#[derive(Debug, Copy, Clone, PartialEq, Eq)]
pub struct ElfFile {
    ident: ElfIdent,
    header: ElfHeader,
}

/// The four bytes that every ELF file starts with.
pub open spec fn elf_magic() -> Seq<u8> {
    seq![0x7f, 0x45, 0x4c, 0x46]
}

/// Whether `bytes` starts with the magic bytes.
pub open spec fn has_magic(bytes: Seq<u8>) -> bool {
    bytes.len() >= 4 && bytes.subrange(0, 4) == elf_magic()
}

/// The length of the header that the class byte `class` announces.
pub open spec fn header_size(class: u8) -> nat {
    if class == CLASS_32 {
        ELF32_HEADER_SIZE as nat
    } else {
        ELF64_HEADER_SIZE as nat
    }
}

/// The identification block that the first 16 bytes of `bytes` hold.
pub open spec fn ident_of(bytes: Seq<u8>) -> ElfIdent
    recommends
        bytes.len() >= IDENT_SIZE,
{
    ElfIdent {
        magic: [bytes[0], bytes[1], bytes[2], bytes[3]],
        class: bytes[4],
        data: bytes[5],
        version: bytes[6],
        os_abi: bytes[7],
        abi_version: bytes[8],
        padding: [bytes[9], bytes[10], bytes[11], bytes[12], bytes[13], bytes[14], bytes[15]],
    }
}

/// The 32-bit header that the first 52 bytes of `bytes` hold, with fields
/// stored in the order `order`.
pub open spec fn elf32_header_of(bytes: Seq<u8>, order: Endianness) -> Elf32Header
    recommends
        bytes.len() >= ELF32_HEADER_SIZE,
{
    Elf32Header {
        e_ident: ident_of(bytes),
        e_type: ElfType(u16_at(bytes, 16, order)),
        e_machine: EMachine(u16_at(bytes, 18, order)),
        e_version: u32_at(bytes, 20, order),
        e_entry: u32_at(bytes, 24, order),
        e_phoff: u32_at(bytes, 28, order),
        e_shoff: u32_at(bytes, 32, order),
        e_flags: u32_at(bytes, 36, order),
        e_ehsize: u16_at(bytes, 40, order),
        e_phentsize: u16_at(bytes, 42, order),
        e_phnum: u16_at(bytes, 44, order),
        e_shentsize: u16_at(bytes, 46, order),
        e_shnum: u16_at(bytes, 48, order),
        e_shstrndx: u16_at(bytes, 50, order),
    }
}

/// The 64-bit header that the first 64 bytes of `bytes` hold, with fields
/// stored in the order `order`.
pub open spec fn elf64_header_of(bytes: Seq<u8>, order: Endianness) -> Elf64Header
    recommends
        bytes.len() >= ELF64_HEADER_SIZE,
{
    Elf64Header {
        e_ident: ident_of(bytes),
        e_type: ElfType(u16_at(bytes, 16, order)),
        e_machine: EMachine(u16_at(bytes, 18, order)),
        e_version: u32_at(bytes, 20, order),
        e_entry: u64_at(bytes, 24, order),
        e_phoff: u64_at(bytes, 32, order),
        e_shoff: u64_at(bytes, 40, order),
        e_flags: u32_at(bytes, 48, order),
        e_ehsize: u16_at(bytes, 52, order),
        e_phentsize: u16_at(bytes, 54, order),
        e_phnum: u16_at(bytes, 56, order),
        e_shentsize: u16_at(bytes, 58, order),
        e_shnum: u16_at(bytes, 60, order),
        e_shstrndx: u16_at(bytes, 62, order),
    }
}

/// The header that `bytes` holds, in the layout that its class byte names.
pub open spec fn header_of(bytes: Seq<u8>, order: Endianness) -> ElfHeader
    recommends
        bytes.len() >= header_size(bytes[4]),
{
    if bytes[4] == CLASS_32 {
        ElfHeader::Elf32(elf32_header_of(bytes, order))
    } else {
        ElfHeader::Elf64(elf64_header_of(bytes, order))
    }
}

/// Why a decoder that reads in the order `order` refuses `bytes`, or `None`
/// where it accepts them.
///
/// The checks come in a fixed order, and the first that fails decides: the
/// magic bytes, the class byte, the data byte, the length of the header. A
/// buffer that ends before the byte that a check reads is truncated.
pub open spec fn decode_failure(bytes: Seq<u8>, order: Endianness) -> Option<ElfError> {
    if !has_magic(bytes) {
        Some(ElfError::BadMagic)
    } else if bytes.len() < 5 {
        Some(ElfError::Truncated)
    } else if bytes[4] != CLASS_32 && bytes[4] != CLASS_64 {
        Some(ElfError::UnsupportedClass)
    } else if bytes.len() < 6 {
        Some(ElfError::Truncated)
    } else if bytes[5] != order.code() {
        Some(ElfError::EndiannessMismatch)
    } else if bytes.len() < header_size(bytes[4]) {
        Some(ElfError::Truncated)
    } else {
        None
    }
}

/// The text that stands for the object file type `code`.
pub open spec fn type_label(code: u16) -> Seq<char> {
    if code == 0 {
        "NONE (no file type)"@
    } else if code == 1 {
        "REL (relocatable file)"@
    } else if code == 2 {
        "EXEC (Executable file)"@
    } else if code == 3 {
        "DYN (shared object file)"@
    } else if code == 4 {
        "CORE (core file)"@
    } else if 0xfe00 <= code <= 0xfeff {
        code_label("OS-specific"@, code)
    } else if 0xff00 <= code {
        code_label("Processor-specific"@, code)
    } else {
        code_label("<unknown>"@, code)
    }
}

/// The byte order that the data byte `data` of a decoded file names.
pub open spec fn order_of(data: u8) -> Endianness {
    if data == 2 {
        Endianness::Big
    } else {
        Endianness::Little
    }
}

/// Whether `header` can follow `ident` in a decoded file: the identification
/// block is that of an ELF file, names a class and a byte order, stands at
/// the head of the header, and the header has the layout of the class.
pub open spec fn consistent(ident: ElfIdent, header: ElfHeader) -> bool {
    &&& ident.magic@ == elf_magic()
    &&& (ident.class == CLASS_32 || ident.class == CLASS_64)
    &&& (ident.data == 1 || ident.data == 2)
    &&& header.e_ident() == ident
    &&& (header is Elf32 <==> ident.class == CLASS_32)
}

/// Whether `r` is what a decoder that reads in the order `order` makes of
/// `bytes`.
pub open spec fn decoded(r: Result<ElfFile, ElfError>, bytes: Seq<u8>, order: Endianness) -> bool {
    match r {
        Ok(file) => {
            &&& decode_failure(bytes, order) is None
            &&& file.ident() == ident_of(bytes)
            &&& file.header() == header_of(bytes, order)
        },
        Err(e) => decode_failure(bytes, order) == Some(e),
    }
}

impl ElfType {
    /// The text that stands for this object file type. A code without a
    /// name of its own is shown as a number.
    pub fn to_string(&self) -> (r: String)
        ensures
            r@ == type_label(self.0),
    {
        let code = self.0;
        if code == 0 {
            "NONE (no file type)".to_owned()
        } else if code == 1 {
            "REL (relocatable file)".to_owned()
        } else if code == 2 {
            "EXEC (Executable file)".to_owned()
        } else if code == 3 {
            "DYN (shared object file)".to_owned()
        } else if code == 4 {
            "CORE (core file)".to_owned()
        } else if 0xfe00 <= code && code <= 0xfeff {
            code_label_string("OS-specific", code)
        } else if 0xff00 <= code {
            code_label_string("Processor-specific", code)
        } else {
            code_label_string("<unknown>", code)
        }
    }
}

impl ElfError {
    /// The sentence that names the check that failed.
    pub open spec fn spec_message(self) -> Seq<char> {
        match self {
            ElfError::BadMagic => "Not a valid ELF file"@,
            ElfError::UnsupportedClass => "Invalid ELF class (not 32-bit or 64-bit)"@,
            ElfError::EndiannessMismatch => {
                "ELF file endianness does not match the platform's endianness"@
            },
            ElfError::Truncated => "ELF file is truncated"@,
        }
    }

    /// The sentence that names the check that failed.
    pub fn message(&self) -> (r: String)
        ensures
            r@ == self.spec_message(),
    {
        match self {
            ElfError::BadMagic => "Not a valid ELF file".to_owned(),
            ElfError::UnsupportedClass => "Invalid ELF class (not 32-bit or 64-bit)".to_owned(),
            ElfError::EndiannessMismatch => {
                "ELF file endianness does not match the platform's endianness".to_owned()
            },
            ElfError::Truncated => "ELF file is truncated".to_owned(),
        }
    }
}

impl Default for ElfIdent {
    fn default() -> (r: ElfIdent)
        ensures
            r.spec_bytes() == Seq::new(16, |i: int| 0u8),
    {
        let r = ElfIdent {
            magic: [0, 0, 0, 0],
            class: 0,
            data: 0,
            version: 0,
            os_abi: 0,
            abi_version: 0,
            padding: [0, 0, 0, 0, 0, 0, 0],
        };
        proof {
            assert(r.spec_bytes() =~= Seq::new(16, |i: int| 0u8));
        }
        r
    }
}

impl Default for ElfType {
    fn default() -> (r: ElfType)
        ensures
            r == ElfType(0),
    {
        ElfType(0)
    }
}

impl Default for Elf64Header {
    fn default() -> (r: Elf64Header)
        ensures
            r.e_ident.spec_bytes() == Seq::new(16, |i: int| 0u8),
            r.e_type == ElfType(0),
            r.e_machine == EMachine(0),
            r.e_version == 0,
            r.e_entry == 0,
            r.e_phoff == 0,
            r.e_shoff == 0,
            r.e_flags == 0,
            r.e_ehsize == 0,
            r.e_phentsize == 0,
            r.e_phnum == 0,
            r.e_shentsize == 0,
            r.e_shnum == 0,
            r.e_shstrndx == 0,
    {
        Elf64Header {
            e_ident: ElfIdent::default(),
            e_type: ElfType(0),
            e_machine: EMachine(0),
            e_version: 0,
            e_entry: 0,
            e_phoff: 0,
            e_shoff: 0,
            e_flags: 0,
            e_ehsize: 0,
            e_phentsize: 0,
            e_phnum: 0,
            e_shentsize: 0,
            e_shnum: 0,
            e_shstrndx: 0,
        }
    }
}

impl Default for Elf32Header {
    fn default() -> (r: Elf32Header)
        ensures
            r.e_ident.spec_bytes() == Seq::new(16, |i: int| 0u8),
            r.e_type == ElfType(0),
            r.e_machine == EMachine(0),
            r.e_version == 0,
            r.e_entry == 0,
            r.e_phoff == 0,
            r.e_shoff == 0,
            r.e_flags == 0,
            r.e_ehsize == 0,
            r.e_phentsize == 0,
            r.e_phnum == 0,
            r.e_shentsize == 0,
            r.e_shnum == 0,
            r.e_shstrndx == 0,
    {
        Elf32Header {
            e_ident: ElfIdent::default(),
            e_type: ElfType(0),
            e_machine: EMachine(0),
            e_version: 0,
            e_entry: 0,
            e_phoff: 0,
            e_shoff: 0,
            e_flags: 0,
            e_ehsize: 0,
            e_phentsize: 0,
            e_phnum: 0,
            e_shentsize: 0,
            e_shnum: 0,
            e_shstrndx: 0,
        }
    }
}

impl ElfIdent {
    /// The 16 bytes of the block, as a file stores them.
    pub open spec fn spec_bytes(self) -> Seq<u8> {
        self.magic@ + seq![self.class, self.data, self.version, self.os_abi, self.abi_version]
            + self.padding@
    }

    /// The 16 bytes of the block, as a file stores them.
    pub fn to_bytes(&self) -> (r: Vec<u8>)
        ensures
            r@ == self.spec_bytes(),
    {
        let mut out: Vec<u8> = Vec::new();
        out.push(self.magic[0]);
        out.push(self.magic[1]);
        out.push(self.magic[2]);
        out.push(self.magic[3]);
        out.push(self.class);
        out.push(self.data);
        out.push(self.version);
        out.push(self.os_abi);
        out.push(self.abi_version);
        out.push(self.padding[0]);
        out.push(self.padding[1]);
        out.push(self.padding[2]);
        out.push(self.padding[3]);
        out.push(self.padding[4]);
        out.push(self.padding[5]);
        out.push(self.padding[6]);
        proof {
            assert(out@ =~= self.spec_bytes());
        }
        out
    }

    /// Reads the block from the head of `bytes`.
    fn read(bytes: &[u8]) -> (r: ElfIdent)
        requires
            bytes.len() >= IDENT_SIZE,
        ensures
            r == ident_of(bytes@),
    {
        ElfIdent {
            magic: [bytes[0], bytes[1], bytes[2], bytes[3]],
            class: bytes[4],
            data: bytes[5],
            version: bytes[6],
            os_abi: bytes[7],
            abi_version: bytes[8],
            padding: [bytes[9], bytes[10], bytes[11], bytes[12], bytes[13], bytes[14], bytes[15]],
        }
    }
}

impl Elf32Header {
    /// The 52 bytes of the header, as a file stores them in the order
    /// `order`.
    pub open spec fn spec_bytes(self, order: Endianness) -> Seq<u8> {
        self.e_ident.spec_bytes()
            + uint_bytes(self.e_type.0 as nat, 2, order)
            + uint_bytes(self.e_machine.0 as nat, 2, order)
            + uint_bytes(self.e_version as nat, 4, order)
            + uint_bytes(self.e_entry as nat, 4, order)
            + uint_bytes(self.e_phoff as nat, 4, order)
            + uint_bytes(self.e_shoff as nat, 4, order)
            + uint_bytes(self.e_flags as nat, 4, order)
            + uint_bytes(self.e_ehsize as nat, 2, order)
            + uint_bytes(self.e_phentsize as nat, 2, order)
            + uint_bytes(self.e_phnum as nat, 2, order)
            + uint_bytes(self.e_shentsize as nat, 2, order)
            + uint_bytes(self.e_shnum as nat, 2, order)
            + uint_bytes(self.e_shstrndx as nat, 2, order)
    }

    /// The 52 bytes of the header, as a file stores them in the order
    /// `order`.
    pub fn to_bytes(&self, order: Endianness) -> (r: Vec<u8>)
        ensures
            r@ == self.spec_bytes(order),
    {
        let mut out = self.e_ident.to_bytes();
        push_u16(&mut out, self.e_type.0, order);
        push_u16(&mut out, self.e_machine.0, order);
        push_u32(&mut out, self.e_version, order);
        push_u32(&mut out, self.e_entry, order);
        push_u32(&mut out, self.e_phoff, order);
        push_u32(&mut out, self.e_shoff, order);
        push_u32(&mut out, self.e_flags, order);
        push_u16(&mut out, self.e_ehsize, order);
        push_u16(&mut out, self.e_phentsize, order);
        push_u16(&mut out, self.e_phnum, order);
        push_u16(&mut out, self.e_shentsize, order);
        push_u16(&mut out, self.e_shnum, order);
        push_u16(&mut out, self.e_shstrndx, order);
        out
    }

    /// Reads the header from the head of `bytes`.
    fn read(bytes: &[u8], order: Endianness) -> (r: Elf32Header)
        requires
            bytes.len() >= ELF32_HEADER_SIZE,
        ensures
            r == elf32_header_of(bytes@, order),
    {
        Elf32Header {
            e_ident: ElfIdent::read(bytes),
            e_type: ElfType(read_u16(bytes, 16, order)),
            e_machine: EMachine(read_u16(bytes, 18, order)),
            e_version: read_u32(bytes, 20, order),
            e_entry: read_u32(bytes, 24, order),
            e_phoff: read_u32(bytes, 28, order),
            e_shoff: read_u32(bytes, 32, order),
            e_flags: read_u32(bytes, 36, order),
            e_ehsize: read_u16(bytes, 40, order),
            e_phentsize: read_u16(bytes, 42, order),
            e_phnum: read_u16(bytes, 44, order),
            e_shentsize: read_u16(bytes, 46, order),
            e_shnum: read_u16(bytes, 48, order),
            e_shstrndx: read_u16(bytes, 50, order),
        }
    }
}

impl Elf64Header {
    /// The 64 bytes of the header, as a file stores them in the order
    /// `order`.
    pub open spec fn spec_bytes(self, order: Endianness) -> Seq<u8> {
        self.e_ident.spec_bytes()
            + uint_bytes(self.e_type.0 as nat, 2, order)
            + uint_bytes(self.e_machine.0 as nat, 2, order)
            + uint_bytes(self.e_version as nat, 4, order)
            + uint_bytes(self.e_entry as nat, 8, order)
            + uint_bytes(self.e_phoff as nat, 8, order)
            + uint_bytes(self.e_shoff as nat, 8, order)
            + uint_bytes(self.e_flags as nat, 4, order)
            + uint_bytes(self.e_ehsize as nat, 2, order)
            + uint_bytes(self.e_phentsize as nat, 2, order)
            + uint_bytes(self.e_phnum as nat, 2, order)
            + uint_bytes(self.e_shentsize as nat, 2, order)
            + uint_bytes(self.e_shnum as nat, 2, order)
            + uint_bytes(self.e_shstrndx as nat, 2, order)
    }

    /// The 64 bytes of the header, as a file stores them in the order
    /// `order`.
    pub fn to_bytes(&self, order: Endianness) -> (r: Vec<u8>)
        ensures
            r@ == self.spec_bytes(order),
    {
        let mut out = self.e_ident.to_bytes();
        push_u16(&mut out, self.e_type.0, order);
        push_u16(&mut out, self.e_machine.0, order);
        push_u32(&mut out, self.e_version, order);
        push_u64(&mut out, self.e_entry, order);
        push_u64(&mut out, self.e_phoff, order);
        push_u64(&mut out, self.e_shoff, order);
        push_u32(&mut out, self.e_flags, order);
        push_u16(&mut out, self.e_ehsize, order);
        push_u16(&mut out, self.e_phentsize, order);
        push_u16(&mut out, self.e_phnum, order);
        push_u16(&mut out, self.e_shentsize, order);
        push_u16(&mut out, self.e_shnum, order);
        push_u16(&mut out, self.e_shstrndx, order);
        out
    }

    /// Reads the header from the head of `bytes`.
    fn read(bytes: &[u8], order: Endianness) -> (r: Elf64Header)
        requires
            bytes.len() >= ELF64_HEADER_SIZE,
        ensures
            r == elf64_header_of(bytes@, order),
    {
        Elf64Header {
            e_ident: ElfIdent::read(bytes),
            e_type: ElfType(read_u16(bytes, 16, order)),
            e_machine: EMachine(read_u16(bytes, 18, order)),
            e_version: read_u32(bytes, 20, order),
            e_entry: read_u64(bytes, 24, order),
            e_phoff: read_u64(bytes, 32, order),
            e_shoff: read_u64(bytes, 40, order),
            e_flags: read_u32(bytes, 48, order),
            e_ehsize: read_u16(bytes, 52, order),
            e_phentsize: read_u16(bytes, 54, order),
            e_phnum: read_u16(bytes, 56, order),
            e_shentsize: read_u16(bytes, 58, order),
            e_shnum: read_u16(bytes, 60, order),
            e_shstrndx: read_u16(bytes, 62, order),
        }
    }
}

impl ElfHeader {
    /// The identification block at the head of the header.
    pub open spec fn spec_e_ident(&self) -> ElfIdent {
        match *self {
            ElfHeader::Elf32(h) => h.e_ident,
            ElfHeader::Elf64(h) => h.e_ident,
        }
    }

    /// The identification block at the head of the header.
    #[verifier::when_used_as_spec(spec_e_ident)]
    pub fn e_ident(&self) -> (r: ElfIdent)
        ensures
            r == self.spec_e_ident(),
    {
        match *self {
            ElfHeader::Elf32(h) => h.e_ident,
            ElfHeader::Elf64(h) => h.e_ident,
        }
    }

    /// The type of the object file.
    pub open spec fn spec_e_type(&self) -> ElfType {
        match *self {
            ElfHeader::Elf32(h) => h.e_type,
            ElfHeader::Elf64(h) => h.e_type,
        }
    }

    /// The type of the object file.
    #[verifier::when_used_as_spec(spec_e_type)]
    pub fn e_type(&self) -> (r: ElfType)
        ensures
            r == self.spec_e_type(),
    {
        match *self {
            ElfHeader::Elf32(h) => h.e_type,
            ElfHeader::Elf64(h) => h.e_type,
        }
    }

    /// The machine architecture that the file was built for.
    pub open spec fn spec_e_machine(&self) -> EMachine {
        match *self {
            ElfHeader::Elf32(h) => h.e_machine,
            ElfHeader::Elf64(h) => h.e_machine,
        }
    }

    /// The machine architecture that the file was built for.
    #[verifier::when_used_as_spec(spec_e_machine)]
    pub fn e_machine(&self) -> (r: EMachine)
        ensures
            r == self.spec_e_machine(),
    {
        match *self {
            ElfHeader::Elf32(h) => h.e_machine,
            ElfHeader::Elf64(h) => h.e_machine,
        }
    }

    /// The version of the object file format.
    pub open spec fn spec_e_version(&self) -> u32 {
        match *self {
            ElfHeader::Elf32(h) => h.e_version,
            ElfHeader::Elf64(h) => h.e_version,
        }
    }

    /// The version of the object file format.
    #[verifier::when_used_as_spec(spec_e_version)]
    pub fn e_version(&self) -> (r: u32)
        ensures
            r == self.spec_e_version(),
    {
        match *self {
            ElfHeader::Elf32(h) => h.e_version,
            ElfHeader::Elf64(h) => h.e_version,
        }
    }

    /// The address at which the program starts. A 32-bit value is handed out
    /// unchanged in a wider type.
    pub open spec fn spec_e_entry(&self) -> u64 {
        match *self {
            ElfHeader::Elf32(h) => h.e_entry as u64,
            ElfHeader::Elf64(h) => h.e_entry,
        }
    }

    /// The address at which the program starts. A 32-bit value is handed out
    /// unchanged in a wider type.
    #[verifier::when_used_as_spec(spec_e_entry)]
    pub fn e_entry(&self) -> (r: u64)
        ensures
            r == self.spec_e_entry(),
    {
        match *self {
            ElfHeader::Elf32(h) => h.e_entry as u64,
            ElfHeader::Elf64(h) => h.e_entry,
        }
    }

    /// The offset of the program header table in the file. A 32-bit value is handed out
    /// unchanged in a wider type.
    pub open spec fn spec_e_phoff(&self) -> u64 {
        match *self {
            ElfHeader::Elf32(h) => h.e_phoff as u64,
            ElfHeader::Elf64(h) => h.e_phoff,
        }
    }

    /// The offset of the program header table in the file. A 32-bit value is handed out
    /// unchanged in a wider type.
    #[verifier::when_used_as_spec(spec_e_phoff)]
    pub fn e_phoff(&self) -> (r: u64)
        ensures
            r == self.spec_e_phoff(),
    {
        match *self {
            ElfHeader::Elf32(h) => h.e_phoff as u64,
            ElfHeader::Elf64(h) => h.e_phoff,
        }
    }

    /// The offset of the section header table in the file. A 32-bit value is handed out
    /// unchanged in a wider type.
    pub open spec fn spec_e_shoff(&self) -> u64 {
        match *self {
            ElfHeader::Elf32(h) => h.e_shoff as u64,
            ElfHeader::Elf64(h) => h.e_shoff,
        }
    }

    /// The offset of the section header table in the file. A 32-bit value is handed out
    /// unchanged in a wider type.
    #[verifier::when_used_as_spec(spec_e_shoff)]
    pub fn e_shoff(&self) -> (r: u64)
        ensures
            r == self.spec_e_shoff(),
    {
        match *self {
            ElfHeader::Elf32(h) => h.e_shoff as u64,
            ElfHeader::Elf64(h) => h.e_shoff,
        }
    }

    /// The flags of the processor.
    pub open spec fn spec_e_flags(&self) -> u32 {
        match *self {
            ElfHeader::Elf32(h) => h.e_flags,
            ElfHeader::Elf64(h) => h.e_flags,
        }
    }

    /// The flags of the processor.
    #[verifier::when_used_as_spec(spec_e_flags)]
    pub fn e_flags(&self) -> (r: u32)
        ensures
            r == self.spec_e_flags(),
    {
        match *self {
            ElfHeader::Elf32(h) => h.e_flags,
            ElfHeader::Elf64(h) => h.e_flags,
        }
    }

    /// The size of this header.
    pub open spec fn spec_e_ehsize(&self) -> u16 {
        match *self {
            ElfHeader::Elf32(h) => h.e_ehsize,
            ElfHeader::Elf64(h) => h.e_ehsize,
        }
    }

    /// The size of this header.
    #[verifier::when_used_as_spec(spec_e_ehsize)]
    pub fn e_ehsize(&self) -> (r: u16)
        ensures
            r == self.spec_e_ehsize(),
    {
        match *self {
            ElfHeader::Elf32(h) => h.e_ehsize,
            ElfHeader::Elf64(h) => h.e_ehsize,
        }
    }

    /// The size of one entry of the program header table.
    pub open spec fn spec_e_phentsize(&self) -> u16 {
        match *self {
            ElfHeader::Elf32(h) => h.e_phentsize,
            ElfHeader::Elf64(h) => h.e_phentsize,
        }
    }

    /// The size of one entry of the program header table.
    #[verifier::when_used_as_spec(spec_e_phentsize)]
    pub fn e_phentsize(&self) -> (r: u16)
        ensures
            r == self.spec_e_phentsize(),
    {
        match *self {
            ElfHeader::Elf32(h) => h.e_phentsize,
            ElfHeader::Elf64(h) => h.e_phentsize,
        }
    }

    /// The number of entries of the program header table.
    pub open spec fn spec_e_phnum(&self) -> u16 {
        match *self {
            ElfHeader::Elf32(h) => h.e_phnum,
            ElfHeader::Elf64(h) => h.e_phnum,
        }
    }

    /// The number of entries of the program header table.
    #[verifier::when_used_as_spec(spec_e_phnum)]
    pub fn e_phnum(&self) -> (r: u16)
        ensures
            r == self.spec_e_phnum(),
    {
        match *self {
            ElfHeader::Elf32(h) => h.e_phnum,
            ElfHeader::Elf64(h) => h.e_phnum,
        }
    }

    /// The size of one entry of the section header table.
    pub open spec fn spec_e_shentsize(&self) -> u16 {
        match *self {
            ElfHeader::Elf32(h) => h.e_shentsize,
            ElfHeader::Elf64(h) => h.e_shentsize,
        }
    }

    /// The size of one entry of the section header table.
    #[verifier::when_used_as_spec(spec_e_shentsize)]
    pub fn e_shentsize(&self) -> (r: u16)
        ensures
            r == self.spec_e_shentsize(),
    {
        match *self {
            ElfHeader::Elf32(h) => h.e_shentsize,
            ElfHeader::Elf64(h) => h.e_shentsize,
        }
    }

    /// The number of entries of the section header table.
    pub open spec fn spec_e_shnum(&self) -> u16 {
        match *self {
            ElfHeader::Elf32(h) => h.e_shnum,
            ElfHeader::Elf64(h) => h.e_shnum,
        }
    }

    /// The number of entries of the section header table.
    #[verifier::when_used_as_spec(spec_e_shnum)]
    pub fn e_shnum(&self) -> (r: u16)
        ensures
            r == self.spec_e_shnum(),
    {
        match *self {
            ElfHeader::Elf32(h) => h.e_shnum,
            ElfHeader::Elf64(h) => h.e_shnum,
        }
    }

    /// The index of the section that holds the section names.
    pub open spec fn spec_e_shstrndx(&self) -> u16 {
        match *self {
            ElfHeader::Elf32(h) => h.e_shstrndx,
            ElfHeader::Elf64(h) => h.e_shstrndx,
        }
    }

    /// The index of the section that holds the section names.
    #[verifier::when_used_as_spec(spec_e_shstrndx)]
    pub fn e_shstrndx(&self) -> (r: u16)
        ensures
            r == self.spec_e_shstrndx(),
    {
        match *self {
            ElfHeader::Elf32(h) => h.e_shstrndx,
            ElfHeader::Elf64(h) => h.e_shstrndx,
        }
    }
}

impl ElfHeader {
    /// The bytes of the header, as a file stores them in the order `order`.
    pub open spec fn spec_bytes(self, order: Endianness) -> Seq<u8> {
        match self {
            ElfHeader::Elf32(h) => h.spec_bytes(order),
            ElfHeader::Elf64(h) => h.spec_bytes(order),
        }
    }

    /// The bytes of the header, as a file stores them in the order `order`.
    pub fn to_bytes(&self, order: Endianness) -> (r: Vec<u8>)
        ensures
            r@ == self.spec_bytes(order),
    {
        match self {
            ElfHeader::Elf32(h) => h.to_bytes(order),
            ElfHeader::Elf64(h) => h.to_bytes(order),
        }
    }
}

impl ElfFile {
    /// What holds of every decoded file.
    #[verifier::type_invariant]
    spec fn inv(self) -> bool {
        consistent(self.ident, self.header)
    }

    /// The byte order in which the file stores its fields.
    pub open spec fn spec_endianness(&self) -> Endianness {
        order_of(self.ident().data)
    }

    /// The byte order in which the file stores its fields.
    #[verifier::when_used_as_spec(spec_endianness)]
    pub fn endianness(&self) -> (r: Endianness)
        ensures
            r == self.spec_endianness(),
            r.code() == self.ident().data,
    {
        proof {
            use_type_invariant(self);
        }
        if self.ident.data == 2 {
            Endianness::Big
        } else {
            Endianness::Little
        }
    }

    /// The bytes of the header, as the file stores them.
    pub open spec fn spec_bytes(&self) -> Seq<u8> {
        self.header().spec_bytes(self.endianness())
    }

    /// The bytes of the header, as the file stores them: those that the
    /// file was decoded from.
    pub fn to_bytes(&self) -> (r: Vec<u8>)
        ensures
            r@ == self.spec_bytes(),
    {
        self.header.to_bytes(self.endianness())
    }

    /// Decodes the header at the head of `bytes`, reading multi-byte fields
    /// in the order `order`.
    ///
    /// The result is the whole header or an error, and for each buffer it
    /// is fixed which: see [`decode_failure`]. A file whose `data` byte
    /// names the other byte order is refused, not converted.
    pub fn decode(bytes: &[u8], order: Endianness) -> (r: Result<ElfFile, ElfError>)
        ensures
            decoded(r, bytes@, order),
            r matches Ok(file) ==> file.endianness() == order && file.spec_bytes()
                == bytes@.subrange(0, header_size(bytes[4]) as int),
            !has_magic(bytes@) ==> r == Err::<ElfFile, ElfError>(ElfError::BadMagic),
            has_magic(bytes@) && bytes.len() > 4 && bytes[4] != CLASS_32 && bytes[4] != CLASS_64
                ==> r == Err::<ElfFile, ElfError>(ElfError::UnsupportedClass),
            has_magic(bytes@) && bytes.len() > 5 && (bytes[4] == CLASS_32 || bytes[4] == CLASS_64)
                && bytes[5] != order.code() ==> r == Err::<ElfFile, ElfError>(
                ElfError::EndiannessMismatch,
            ),
            has_magic(bytes@) && bytes.len() < ELF32_HEADER_SIZE ==> r is Err,
            has_magic(bytes@) && bytes.len() >= ELF64_HEADER_SIZE && bytes[4] == CLASS_64
                && bytes[5] == order.code() ==> r is Ok && r->Ok_0.header()
                == ElfHeader::Elf64(elf64_header_of(bytes@, order)),
            has_magic(bytes@) && bytes.len() >= ELF32_HEADER_SIZE && bytes[4] == CLASS_32
                && bytes[5] == order.code() ==> r is Ok && r->Ok_0.header()
                == ElfHeader::Elf32(elf32_header_of(bytes@, order)),
    {
        if bytes.len() < 4 || bytes[0] != 0x7f || bytes[1] != 0x45 || bytes[2] != 0x4c || bytes[3]
            != 0x46 {
            proof {
                if bytes.len() >= 4 {
                    let head = bytes@.subrange(0, 4);
                    assert(head[0] == bytes[0] && head[1] == bytes[1] && head[2] == bytes[2]
                        && head[3] == bytes[3]);
                }
            }
            return Err(ElfError::BadMagic);
        }
        proof {
            assert(bytes@.subrange(0, 4) =~= elf_magic());
        }
        if bytes.len() < 5 {
            return Err(ElfError::Truncated);
        }
        let class = bytes[4];
        if class != CLASS_32 && class != CLASS_64 {
            return Err(ElfError::UnsupportedClass);
        }
        if bytes.len() < 6 {
            return Err(ElfError::Truncated);
        }
        if bytes[5] != order.code() {
            return Err(ElfError::EndiannessMismatch);
        }
        let header = if class == CLASS_32 {
            if bytes.len() < ELF32_HEADER_SIZE {
                return Err(ElfError::Truncated);
            }
            ElfHeader::Elf32(Elf32Header::read(bytes, order))
        } else {
            if bytes.len() < ELF64_HEADER_SIZE {
                return Err(ElfError::Truncated);
            }
            ElfHeader::Elf64(Elf64Header::read(bytes, order))
        };
        let ident = ElfIdent::read(bytes);
        proof {
            assert(ident.magic@ =~= elf_magic());
            if class == CLASS_32 {
                lemma_elf32_round_trip(bytes@, order);
            } else {
                lemma_elf64_round_trip(bytes@, order);
            }
        }
        Ok(ElfFile { ident, header })
    }

    /// Decodes the header at the head of `bytes`, reading multi-byte fields
    /// in the byte order of the machine that runs the library.
    ///
    /// Which order that is, the machine decides, so the result is that of
    /// [`ElfFile::decode`] for one of the two orders. What does not depend
    /// on the order is stated for itself.
    pub fn new(bytes: &[u8]) -> (r: Result<ElfFile, ElfError>)
        ensures
            decoded(r, bytes@, Endianness::Little) || decoded(r, bytes@, Endianness::Big),
            r matches Ok(file) ==> file.spec_bytes() == bytes@.subrange(
                0,
                header_size(bytes[4]) as int,
            ),
            !has_magic(bytes@) ==> r == Err::<ElfFile, ElfError>(ElfError::BadMagic),
            has_magic(bytes@) && bytes.len() > 4 && bytes[4] != CLASS_32 && bytes[4] != CLASS_64
                ==> r == Err::<ElfFile, ElfError>(ElfError::UnsupportedClass),
            has_magic(bytes@) && bytes.len() > 5 && (bytes[4] == CLASS_32 || bytes[4] == CLASS_64)
                && bytes[5] != 1 && bytes[5] != 2 ==> r == Err::<ElfFile, ElfError>(
                ElfError::EndiannessMismatch,
            ),
            has_magic(bytes@) && bytes.len() < ELF32_HEADER_SIZE ==> r is Err,
    {
        ElfFile::decode(bytes, Endianness::native())
    }

    /// The identification block of the file.
    pub closed spec fn spec_ident(&self) -> ElfIdent {
        self.ident
    }

    /// The header of the file.
    pub closed spec fn spec_header(&self) -> ElfHeader {
        self.header
    }

    /// The identification block of the file.
    #[verifier::when_used_as_spec(spec_ident)]
    pub fn ident(&self) -> (r: ElfIdent)
        ensures
            r == self.spec_ident(),
            consistent(r, self.spec_header()),
    {
        proof {
            use_type_invariant(self);
        }
        self.ident
    }

    /// The header of the file.
    #[verifier::when_used_as_spec(spec_header)]
    pub fn header(&self) -> (r: ElfHeader)
        ensures
            r == self.spec_header(),
            consistent(self.spec_ident(), r),
    {
        proof {
            use_type_invariant(self);
        }
        self.header
    }
}

/// Whatever was decoded can be written back: a decoded file holds the bytes
/// of its header, each field with the width and at the place that the layout
/// of its class gives it.
pub proof fn lemma_decoded_round_trip(
    r: Result<ElfFile, ElfError>,
    bytes: Seq<u8>,
    order: Endianness,
)
    requires
        decoded(r, bytes, order),
        r is Ok,
    ensures
        bytes.len() >= header_size(bytes[4]),
        r->Ok_0.header() is Elf32 <==> bytes[4] == CLASS_32,
        r->Ok_0.header() is Elf64 <==> bytes[4] == CLASS_64,
        r->Ok_0.endianness() == order,
        r->Ok_0.spec_bytes() == bytes.subrange(0, header_size(bytes[4]) as int),
{
    if bytes[4] == CLASS_32 {
        lemma_elf32_round_trip(bytes, order);
    } else {
        lemma_elf64_round_trip(bytes, order);
    }
}

/// Writing a decoded identification block gives back the 16 bytes that it
/// was read from.
pub proof fn lemma_ident_round_trip(bytes: Seq<u8>)
    requires
        bytes.len() >= IDENT_SIZE,
    ensures
        ident_of(bytes).spec_bytes() == bytes.subrange(0, 16),
{
    assert(ident_of(bytes).spec_bytes() =~= bytes.subrange(0, 16));
}

/// Writing a decoded 32-bit header, in the order in which it was read, gives
/// back the 52 bytes that it was read from: every field has the width and
/// the place that the layout gives it.
pub proof fn lemma_elf32_round_trip(bytes: Seq<u8>, order: Endianness)
    requires
        bytes.len() >= ELF32_HEADER_SIZE,
    ensures
        elf32_header_of(bytes, order).spec_bytes(order) == bytes.subrange(0, 52),
{
    lemma_ident_round_trip(bytes);
    lemma_u16_field_bytes(bytes, 16, order);
    lemma_u16_field_bytes(bytes, 18, order);
    lemma_u32_field_bytes(bytes, 20, order);
    lemma_u32_field_bytes(bytes, 24, order);
    lemma_u32_field_bytes(bytes, 28, order);
    lemma_u32_field_bytes(bytes, 32, order);
    lemma_u32_field_bytes(bytes, 36, order);
    lemma_u16_field_bytes(bytes, 40, order);
    lemma_u16_field_bytes(bytes, 42, order);
    lemma_u16_field_bytes(bytes, 44, order);
    lemma_u16_field_bytes(bytes, 46, order);
    lemma_u16_field_bytes(bytes, 48, order);
    lemma_u16_field_bytes(bytes, 50, order);
    assert(elf32_header_of(bytes, order).spec_bytes(order) =~= bytes.subrange(0, 52));
}

/// Writing a decoded 64-bit header, in the order in which it was read, gives
/// back the 64 bytes that it was read from.
pub proof fn lemma_elf64_round_trip(bytes: Seq<u8>, order: Endianness)
    requires
        bytes.len() >= ELF64_HEADER_SIZE,
    ensures
        elf64_header_of(bytes, order).spec_bytes(order) == bytes.subrange(0, 64),
{
    lemma_ident_round_trip(bytes);
    lemma_u16_field_bytes(bytes, 16, order);
    lemma_u16_field_bytes(bytes, 18, order);
    lemma_u32_field_bytes(bytes, 20, order);
    lemma_u64_field_bytes(bytes, 24, order);
    lemma_u64_field_bytes(bytes, 32, order);
    lemma_u64_field_bytes(bytes, 40, order);
    lemma_u32_field_bytes(bytes, 48, order);
    lemma_u16_field_bytes(bytes, 52, order);
    lemma_u16_field_bytes(bytes, 54, order);
    lemma_u16_field_bytes(bytes, 56, order);
    lemma_u16_field_bytes(bytes, 58, order);
    lemma_u16_field_bytes(bytes, 60, order);
    lemma_u16_field_bytes(bytes, 62, order);
    assert(elf64_header_of(bytes, order).spec_bytes(order) =~= bytes.subrange(0, 64));
}

} // verus!
