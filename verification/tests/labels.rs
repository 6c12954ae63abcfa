use readelf_rs::elf::ElfType;
use readelf_rs::emachine::{EMachine, MachineName};

fn machine_names() -> Vec<MachineName> {
    vec![
        MachineName { code: 3, name: String::from("Intel 80386") },
        MachineName { code: 0x3e, name: String::from("Advanced Micro Devices X86-64") },
        MachineName { code: 40, name: String::from("ARM") },
        MachineName { code: 0x3e, name: String::from("a second name for the same code") },
        MachineName { code: 0xffff, name: String::new() },
    ]
}

#[test]
fn named_object_file_types() {
    assert_eq!(ElfType(0).to_string(), "NONE (no file type)");
    assert_eq!(ElfType(1).to_string(), "REL (relocatable file)");
    assert_eq!(ElfType(2).to_string(), "EXEC (Executable file)");
    assert_eq!(ElfType(3).to_string(), "DYN (shared object file)");
    assert_eq!(ElfType(4).to_string(), "CORE (core file)");
}

#[test]
fn executable_type_contains_exec() {
    assert!(ElfType(2).to_string().contains("EXEC"));
}

#[test]
fn unknown_type_is_shown_by_its_code() {
    assert_eq!(ElfType(0x9999).to_string(), "<unknown>: (0x9999)");
    assert_eq!(ElfType(5).to_string(), "<unknown>: (0x5)");
    assert_eq!(ElfType(0xfdff).to_string(), "<unknown>: (0xfdff)");
}

#[test]
fn operating_system_specific_types() {
    assert_eq!(ElfType(0xfe00).to_string(), "OS-specific: (0xfe00)");
    assert_eq!(ElfType(0xfe7a).to_string(), "OS-specific: (0xfe7a)");
    assert_eq!(ElfType(0xfeff).to_string(), "OS-specific: (0xfeff)");
}

#[test]
fn processor_specific_types() {
    assert_eq!(ElfType(0xff00).to_string(), "Processor-specific: (0xff00)");
    assert_eq!(ElfType(0xff80).to_string(), "Processor-specific: (0xff80)");
    assert_eq!(ElfType(0xffff).to_string(), "Processor-specific: (0xffff)");
}

#[test]
fn every_type_has_a_label() {
    for code in 0..=u16::MAX {
        let label = ElfType(code).to_string();
        let expected = match code {
            0 => String::from("NONE (no file type)"),
            1 => String::from("REL (relocatable file)"),
            2 => String::from("EXEC (Executable file)"),
            3 => String::from("DYN (shared object file)"),
            4 => String::from("CORE (core file)"),
            0xfe00..=0xfeff => format!("OS-specific: (0x{:x})", code),
            0xff00..=0xffff => format!("Processor-specific: (0x{:x})", code),
            _ => format!("<unknown>: (0x{:x})", code),
        };
        assert_eq!(label, expected);
    }
}

#[test]
fn type_and_machine_defaults() {
    assert_eq!(ElfType::default(), ElfType(0));
    assert_eq!(EMachine::default(), EMachine(0));
}

#[test]
fn machine_with_a_name() {
    let names = machine_names();
    assert_eq!(EMachine(3).label(&names), "Intel 80386");
    assert_eq!(EMachine(40).label(&names), "ARM");
    assert_eq!(EMachine(0xffff).label(&names), "");
}

#[test]
fn first_name_of_a_code_wins() {
    let names = machine_names();
    assert_eq!(EMachine(0x3e).label(&names), "Advanced Micro Devices X86-64");
    assert_eq!(EMachine(0x3e).label(&names[2..]), "a second name for the same code");
}

#[test]
fn machine_without_a_name_is_shown_by_its_code() {
    let names = machine_names();
    assert_eq!(EMachine(0x9999).label(&names), "<unknown>: (0x9999)");
    assert_eq!(EMachine(0).label(&names), "<unknown>: (0x0)");
    assert_eq!(EMachine(0x3e).label(&[]), "<unknown>: (0x3e)");
    assert_eq!(EMachine(0x3e).label(&names[..1]), "<unknown>: (0x3e)");
}
