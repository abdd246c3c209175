//! The type section, read from its beginning.
use vstd::prelude::*;
use crate::ir::Signature;
use crate::parser_state::{Record, SectionCode};
use crate::sections_translator::{signatures_from, signatures_view};

verus! {

/// Why the type section could not be read.
#[derive(Clone, Copy, Debug, PartialEq, Eq, Structural)]
pub enum SectionParsingError {
    /// No type section begins where one was looked for.
    NonExistentSection(),
    /// The section holds something that does not belong to it.
    WrongSectionContent(),
}

/// Whether the record at `pos` begins the type section.
pub open spec fn begins_type_section(states: Seq<Record>, pos: int) -> bool {
    0 <= pos < states.len() && states[pos] == (Record::BeginSection { code: SectionCode::Type })
}

/// Reads the type section of a module, which is to begin at `pos`, and
/// returns the function signatures with the position after the section's
/// end.
pub fn parse_function_signatures(states: &Vec<Record>, pos: usize) -> (res: Result<
    (Vec<Signature>, usize),
    SectionParsingError,
>)
    ensures
        match res {
            Ok((signatures, end)) => begins_type_section(states@, pos as int) && signatures_from(
                states@,
                pos + 1,
            ) == Some((signatures_view(signatures@), end as int)),
            Err(SectionParsingError::NonExistentSection()) => !begins_type_section(
                states@,
                pos as int,
            ),
            Err(SectionParsingError::WrongSectionContent()) => begins_type_section(
                states@,
                pos as int,
            ) && signatures_from(states@, pos + 1) is None,
        },
{
    if pos >= states.len() {
        return Err(SectionParsingError::NonExistentSection());
    }
    match &states[pos] {
        Record::BeginSection { code: SectionCode::Type } => {},
        _ => {
            return Err(SectionParsingError::NonExistentSection());
        },
    }
    match crate::sections_translator::parse_function_signatures(states, pos + 1) {
        Ok(read) => Ok(read),
        Err(_) => Err(SectionParsingError::WrongSectionContent()),
    }
}

} // verus!
