//! The text report of a decoded header.
//!
//! The report has one line for each field, in a fixed order. A line is a
//! label, padded to a fixed width, and the value of the field; no line is
//! left out, whatever the value. [`report_text`] says what the report is,
//! character for character.

use crate::elf::{type_label, ElfFile, ElfHeader, ElfIdent};
use crate::emachine::{machine_label, MachineName};
use crate::numeral::{decimal, hex, hex_dump, push_decimal, push_hex, push_hex_dump};
use vstd::prelude::*;

verus! {

/// The first line of the report.
pub const TITLE: &'static str = "ELF Header:";

/// Starts the line that dumps the identification block.
pub const MAGIC_LABEL: &'static str = "  Magic:   ";

/// Starts the line of the class.
pub const CLASS_LABEL: &'static str = "  Class:                             ";

/// Starts the line of the byte order.
pub const DATA_LABEL: &'static str = "  Data:                              ";

/// Starts the line of the version of the identification block.
pub const IDENT_VERSION_LABEL: &'static str = "  Version:                           ";

/// Starts the line of the operating system ABI.
pub const OS_ABI_LABEL: &'static str = "  OS/ABI:                            ";

/// Starts the line of the ABI version.
pub const ABI_VERSION_LABEL: &'static str = "  ABI Version:                       ";

/// Starts the line of the object file type.
pub const TYPE_LABEL: &'static str = "  Type:                              ";

/// Starts the line of the machine architecture.
pub const MACHINE_LABEL: &'static str = "  Machine:                           ";

/// Starts the line of the version of the object file format.
pub const VERSION_LABEL: &'static str = "  Version:                           ";

/// Starts the line of the entry point.
pub const ENTRY_LABEL: &'static str = "  Entry point address:               ";

/// Starts the line of the offset of the program header table.
pub const PHOFF_LABEL: &'static str = "  Start of program headers:          ";

/// Starts the line of the offset of the section header table.
pub const SHOFF_LABEL: &'static str = "  Start of section headers:          ";

/// Starts the line of the flags.
pub const FLAGS_LABEL: &'static str = "  Flags:                             ";

/// Starts the line of the size of the header.
pub const EHSIZE_LABEL: &'static str = "  Size of this header:               ";

/// Starts the line of the size of a program header.
pub const PHENTSIZE_LABEL: &'static str = "  Size of program headers:           ";

/// Starts the line of the number of program headers.
pub const PHNUM_LABEL: &'static str = "  Number of program headers:         ";

/// Starts the line of the size of a section header.
pub const SHENTSIZE_LABEL: &'static str = "  Size of section headers:           ";

/// Starts the line of the number of section headers.
pub const SHNUM_LABEL: &'static str = "  Number of section headers:         ";

/// Starts the line of the index of the section name table.
pub const SHSTRNDX_LABEL: &'static str = "  Section header string table index: ";

/// The one name under which every operating system ABI is shown.
pub const OS_ABI_NAME: &'static str = "UNIX - System V";

/// Follows the version of the identification block.
pub const CURRENT: &'static str = " (current)";

/// Follows an offset into the file.
pub const BYTES_INTO_FILE: &'static str = " (bytes into file)";

/// Follows a size.
pub const BYTES: &'static str = " (bytes)";

/// Precedes a number in hexadecimal.
pub const HEX_PREFIX: &'static str = "0x";

/// One line of the report.
pub open spec fn line(label: Seq<char>, value: Seq<char>) -> Seq<char> {
    label + value + "\n"@
}

/// The name of the class `class`.
pub open spec fn class_name(class: u8) -> Seq<char> {
    if class == 1 {
        "ELF32"@
    } else if class == 2 {
        "ELF64"@
    } else {
        "Unknown"@
    }
}

/// The description of the byte order that the data byte `data` names.
pub open spec fn data_name(data: u8) -> Seq<char> {
    if data == 1 {
        "2's complement, little endian"@
    } else if data == 2 {
        "2's complement, big endian"@
    } else {
        "Unknown"@
    }
}

/// A number in decimal, followed by `unit`.
pub open spec fn decimal_value(n: nat, unit: Seq<char>) -> Seq<char> {
    decimal(n) + unit
}

/// A number in hexadecimal, after `0x`.
pub open spec fn hex_value(n: nat) -> Seq<char> {
    HEX_PREFIX@ + hex(n)
}

/// The first part of the report: the title and the lines of the
/// identification block.
pub open spec fn ident_text(ident: ElfIdent) -> Seq<char> {
    line(TITLE@, Seq::empty())
        + line(MAGIC_LABEL@, hex_dump(ident.spec_bytes()))
        + line(CLASS_LABEL@, class_name(ident.class))
        + line(DATA_LABEL@, data_name(ident.data))
        + line(IDENT_VERSION_LABEL@, decimal_value(ident.version as nat, CURRENT@))
        + line(OS_ABI_LABEL@, OS_ABI_NAME@)
        + line(ABI_VERSION_LABEL@, decimal_value(ident.abi_version as nat, Seq::empty()))
}

/// The second part of the report: the lines of the fields that follow the
/// identification block. The names of machine architectures come from
/// `machines`.
pub open spec fn header_text(header: ElfHeader, machines: Seq<MachineName>) -> Seq<char> {
    line(TYPE_LABEL@, type_label(header.e_type().0))
        + line(MACHINE_LABEL@, machine_label(machines, header.e_machine().0))
        + line(VERSION_LABEL@, decimal_value(header.e_version() as nat, Seq::empty()))
        + line(ENTRY_LABEL@, hex_value(header.e_entry() as nat))
        + line(PHOFF_LABEL@, decimal_value(header.e_phoff() as nat, BYTES_INTO_FILE@))
        + line(SHOFF_LABEL@, decimal_value(header.e_shoff() as nat, BYTES_INTO_FILE@))
        + line(FLAGS_LABEL@, hex_value(header.e_flags() as nat))
        + line(EHSIZE_LABEL@, decimal_value(header.e_ehsize() as nat, BYTES@))
        + line(PHENTSIZE_LABEL@, decimal_value(header.e_phentsize() as nat, BYTES@))
        + line(PHNUM_LABEL@, decimal_value(header.e_phnum() as nat, Seq::empty()))
        + line(SHENTSIZE_LABEL@, decimal_value(header.e_shentsize() as nat, BYTES@))
        + line(SHNUM_LABEL@, decimal_value(header.e_shnum() as nat, Seq::empty()))
        + line(SHSTRNDX_LABEL@, decimal_value(header.e_shstrndx() as nat, Seq::empty()))
}

/// The whole report of a header and its identification block.
pub open spec fn report_text(
    ident: ElfIdent,
    header: ElfHeader,
    machines: Seq<MachineName>,
) -> Seq<char> {
    ident_text(ident) + header_text(header, machines)
}

/// Appends one line of the report.
fn push_line(out: &mut String, label: &str, value: &str)
    ensures
        final(out)@ == old(out)@ + line(label@, value@),
{
    let ghost before = out@;
    out.append(label);
    out.append(value);
    out.append("\n");
    proof {
        assert(out@ =~= before + line(label@, value@));
    }
}

/// Appends the line of a field that is shown in decimal.
fn push_decimal_line(out: &mut String, label: &str, n: u64, unit: &str)
    ensures
        final(out)@ == old(out)@ + line(label@, decimal_value(n as nat, unit@)),
{
    let ghost before = out@;
    out.append(label);
    push_decimal(out, n);
    out.append(unit);
    out.append("\n");
    proof {
        assert(out@ =~= before + line(label@, decimal_value(n as nat, unit@)));
    }
}

/// Appends the line of a field that is shown in hexadecimal.
fn push_hex_line(out: &mut String, label: &str, n: u64)
    ensures
        final(out)@ == old(out)@ + line(label@, hex_value(n as nat)),
{
    let ghost before = out@;
    out.append(label);
    out.append(HEX_PREFIX);
    push_hex(out, n);
    out.append("\n");
    proof {
        assert(out@ =~= before + line(label@, hex_value(n as nat)));
    }
}

/// The name of the class `class`.
fn class_str(class: u8) -> (r: &'static str)
    ensures
        r@ == class_name(class),
{
    if class == 1 {
        "ELF32"
    } else if class == 2 {
        "ELF64"
    } else {
        "Unknown"
    }
}

/// The description of the byte order that the data byte `data` names.
fn data_str(data: u8) -> (r: &'static str)
    ensures
        r@ == data_name(data),
{
    if data == 1 {
        "2's complement, little endian"
    } else if data == 2 {
        "2's complement, big endian"
    } else {
        "Unknown"
    }
}

/// Renders the title and the lines of the identification block.
pub fn render_ident(ident: &ElfIdent) -> (r: String)
    ensures
        r@ == ident_text(*ident),
{
    let mut out = String::new();
    let bytes = ident.to_bytes();
    out.append(TITLE);
    out.append("\n");
    out.append(MAGIC_LABEL);
    push_hex_dump(&mut out, bytes.as_slice());
    out.append("\n");
    proof {
        assert(out@ =~= line(TITLE@, Seq::empty()) + line(
            MAGIC_LABEL@,
            hex_dump(ident.spec_bytes()),
        ));
    }
    push_line(&mut out, CLASS_LABEL, class_str(ident.class));
    push_line(&mut out, DATA_LABEL, data_str(ident.data));
    push_decimal_line(&mut out, IDENT_VERSION_LABEL, ident.version as u64, CURRENT);
    push_line(&mut out, OS_ABI_LABEL, OS_ABI_NAME);
    push_decimal_line(&mut out, ABI_VERSION_LABEL, ident.abi_version as u64, "");
    proof {
        reveal_strlit("");
        assert(""@ =~= Seq::<char>::empty());
    }
    out
}

/// Renders the lines of the fields that follow the identification block,
/// the same way for a 32-bit and for a 64-bit header.
pub fn render_header(header: &ElfHeader, machines: &[MachineName]) -> (r: String)
    ensures
        r@ == header_text(*header, machines@),
{
    let mut out = String::new();
    let type_text = header.e_type().to_string();
    let machine_text = header.e_machine().label(machines);
    push_line(&mut out, TYPE_LABEL, type_text.as_str());
    proof {
        assert(out@ =~= line(TYPE_LABEL@, type_label(header.e_type().0)));
    }
    push_line(&mut out, MACHINE_LABEL, machine_text.as_str());
    push_decimal_line(&mut out, VERSION_LABEL, header.e_version() as u64, "");
    push_hex_line(&mut out, ENTRY_LABEL, header.e_entry());
    push_decimal_line(&mut out, PHOFF_LABEL, header.e_phoff(), BYTES_INTO_FILE);
    push_decimal_line(&mut out, SHOFF_LABEL, header.e_shoff(), BYTES_INTO_FILE);
    push_hex_line(&mut out, FLAGS_LABEL, header.e_flags() as u64);
    push_decimal_line(&mut out, EHSIZE_LABEL, header.e_ehsize() as u64, BYTES);
    push_decimal_line(&mut out, PHENTSIZE_LABEL, header.e_phentsize() as u64, BYTES);
    push_decimal_line(&mut out, PHNUM_LABEL, header.e_phnum() as u64, "");
    push_decimal_line(&mut out, SHENTSIZE_LABEL, header.e_shentsize() as u64, BYTES);
    push_decimal_line(&mut out, SHNUM_LABEL, header.e_shnum() as u64, "");
    push_decimal_line(&mut out, SHSTRNDX_LABEL, header.e_shstrndx() as u64, "");
    proof {
        reveal_strlit("");
        assert(""@ =~= Seq::<char>::empty());
    }
    out
}

/// Renders the report of a header and its identification block.
pub fn render(ident: &ElfIdent, header: &ElfHeader, machines: &[MachineName]) -> (r: String)
    ensures
        r@ == report_text(*ident, *header, machines@),
{
    let mut out = render_ident(ident);
    let rest = render_header(header, machines);
    out.append(rest.as_str());
    out
}

impl ElfFile {
    /// The report of the file, in the manner of `readelf -h`. The names of
    /// machine architectures come from `machines`.
    pub fn report(&self, machines: &[MachineName]) -> (r: String)
        ensures
            r@ == report_text(self.ident(), self.header(), machines@),
    {
        let ident = self.ident();
        let header = self.header();
        render(&ident, &header, machines)
    }
}

} // verus!
