//! The settings of a disassembly, and the decoded class it works on.

use vstd::prelude::*;
use crate::byte_reader::ByteReader;
use crate::class_file::{parse_class_file, ClassFile};
use crate::error::DecodeError;

verus! {

/// Controls which access level shows up in the output
#[derive(Clone, Copy, Debug, PartialEq, Eq, Structural)]
pub enum DisassemblerVisibility {
    /// Show only public classes and members
    PUBLIC,
    /// Show protected/public classes and members
    PROTECTED,
    /// Show package/protected/public classes and members (default)
    PACKAGE,
    /// Show all classes and members
    PRIVATE,
}

/// Data needed to create a disassembler
#[derive(Clone, Copy, Debug, PartialEq, Eq, Structural)]
pub struct DisassemberConfig {
    /// Class and member visibility setting
    pub visibility: DisassemblerVisibility,
    /// Indicates whether line numbers should be shown
    pub show_line_numbers: bool,
    /// Indicates whether assembly instructions should be shown
    pub show_instructions: bool,
    /// Indicates whether type signatures should be shown
    pub show_type_signatures: bool,
    /// Indicates whether system information should be shown
    pub show_system_info: bool,
    /// Indicates whether final constants should be shown
    pub show_final_constants: bool,
}

impl DisassemberConfig {
    /// The default settings: package visibility, nothing extra shown
    pub fn new() -> (r: DisassemberConfig)
        ensures
            r == (DisassemberConfig {
                visibility: DisassemblerVisibility::PACKAGE,
                show_line_numbers: false,
                show_instructions: false,
                show_type_signatures: false,
                show_system_info: false,
                show_final_constants: false,
            }),
    {
        DisassemberConfig {
            visibility: DisassemblerVisibility::PACKAGE,
            show_line_numbers: false,
            show_instructions: false,
            show_type_signatures: false,
            show_system_info: false,
            show_final_constants: false,
        }
    }

    /// Filter which visibility level should show up in the output
    pub fn with_visibility(&mut self, visibility: DisassemblerVisibility)
        ensures
            *final(self) == (DisassemberConfig { visibility, ..*old(self) }),
    {
        self.visibility = visibility;
    }

    /// Show line numbers
    pub fn show_line_numbers(&mut self)
        ensures
            *final(self) == (DisassemberConfig { show_line_numbers: true, ..*old(self) }),
    {
        self.show_line_numbers = true;
    }

    /// Show assembly instructions
    pub fn show_assembly_instructions(&mut self)
        ensures
            *final(self) == (DisassemberConfig { show_instructions: true, ..*old(self) }),
    {
        self.show_instructions = true;
    }

    /// Show type signatures
    pub fn show_type_signatures(&mut self)
        ensures
            *final(self) == (DisassemberConfig { show_type_signatures: true, ..*old(self) }),
    {
        self.show_type_signatures = true;
    }

    /// Show system information
    pub fn show_system_info(&mut self)
        ensures
            *final(self) == (DisassemberConfig { show_system_info: true, ..*old(self) }),
    {
        self.show_system_info = true;
    }

    /// Show final constants
    pub fn show_final_constants(&mut self)
        ensures
            *final(self) == (DisassemberConfig { show_final_constants: true, ..*old(self) }),
    {
        self.show_final_constants = true;
    }
}

/// Java Virtual Machine disassembler
pub struct Disassembler<'a> {
    /// Used to customize the disassembler's behaviour
    pub config: &'a DisassemberConfig,
    /// Disassembled class file information
    pub class: ClassFile,
}

impl<'a> Disassembler<'a> {
    /// Decodes the class file that `reader` holds, to disassemble it with `config`;
    /// a failed decode leaves the reader where it was
    pub fn new(config: &'a DisassemberConfig, reader: &mut ByteReader) -> (r: Result<Disassembler<'a>, DecodeError>)
        requires
            old(reader).wf(),
        ensures
            final(reader).wf(),
            final(reader).same_source(old(reader)),
            match parse_class_file(old(reader).spec_data(), old(reader).spec_limit(), old(reader).spec_pos()) {
                Ok((m, q)) => r is Ok && r->Ok_0.class@ == m && *r->Ok_0.config == *config && final(reader).spec_pos()
                    == q,
                Err(err) => r is Err && r->Err_0 == err && final(reader).spec_pos() == old(reader).spec_pos(),
            },
    {
        let class = ClassFile::new(reader)?;
        Ok(Disassembler { config, class })
    }
}

} // verus!
