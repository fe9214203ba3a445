//! The executable descriptor: its raw, untrusted shape, its validated
//! counterpart, and the composite validator joining the two.
//!
//! Fields are checked in declaration order — name, command, description — and
//! the first failure aborts the whole descriptor. The description has no rule
//! yet: it is an explicit pass-through field.

use vstd::prelude::*;

use crate::cell_name::valid_name;
use crate::command::{parse_command, spec_parse_command, ParsedCommand, SpecCommand};
use crate::executable_name::ExecutableName;
use crate::path::{field_name, spec_field_path, spec_opt_path};
use crate::validation::{required_not_empty, SpecError, ValidationError};

verus! {

/// An executable descriptor as it arrives: every constrained field may be
/// absent.
pub struct RawExecutable {
    pub name: Option<String>,
    pub command: Option<String>,
    pub description: String,
}

/// The mathematical shape of a raw executable descriptor.
pub struct SpecRawExecutable {
    pub name: Option<Seq<char>>,
    pub command: Option<Seq<char>>,
    pub description: Seq<char>,
}

impl View for RawExecutable {
    type V = SpecRawExecutable;

    open spec fn view(&self) -> SpecRawExecutable {
        SpecRawExecutable {
            name: self.name.deep_view(),
            command: self.command.deep_view(),
            description: self.description@,
        }
    }
}

impl DeepView for RawExecutable {
    type V = SpecRawExecutable;

    open spec fn deep_view(&self) -> SpecRawExecutable {
        self.view()
    }
}

/// An executable descriptor whose name is well-formed and whose command
/// parsed into a program and arguments.
#[derive(Debug)]
pub struct ValidatedExecutable {
    pub name: ExecutableName,
    pub command: ParsedCommand,
    pub description: String,
}

/// The mathematical shape of a validated executable descriptor.
pub struct SpecExecutable {
    pub name: Seq<char>,
    pub command: SpecCommand,
    pub description: Seq<char>,
}

impl View for ValidatedExecutable {
    type V = SpecExecutable;

    open spec fn view(&self) -> SpecExecutable {
        SpecExecutable { name: self.name@, command: self.command@, description: self.description@ }
    }
}

impl DeepView for ValidatedExecutable {
    type V = SpecExecutable;

    open spec fn deep_view(&self) -> SpecExecutable {
        self.view()
    }
}

/// What validating a raw executable descriptor must return: the first field,
/// in declaration order, that is absent (`Missing`) or rule-breaking
/// (`Invalid`), or the validated descriptor. An absent command is `Missing`;
/// an empty or unparsable command is `Invalid`, the parser's own diagnostic
/// deliberately discarded — both at the command field's path.
pub open spec fn spec_validate_executable(
    raw: SpecRawExecutable,
    parent: Option<Seq<char>>,
) -> Result<SpecExecutable, SpecError> {
    if raw.name is None {
        Err(SpecError::Missing(spec_field_path("name"@, parent)))
    } else if !valid_name(raw.name->Some_0) {
        Err(SpecError::Invalid(spec_field_path("name"@, parent)))
    } else if raw.command is None {
        Err(SpecError::Missing(spec_field_path("command"@, parent)))
    } else if raw.command->Some_0.len() == 0 {
        Err(SpecError::Invalid(spec_field_path("command"@, parent)))
    } else if spec_parse_command(raw.command->Some_0) is Err {
        Err(SpecError::Invalid(spec_field_path("command"@, parent)))
    } else {
        Ok(
            SpecExecutable {
                name: raw.name->Some_0,
                command: spec_parse_command(raw.command->Some_0)->Ok_0,
                description: raw.description,
            },
        )
    }
}

impl ValidatedExecutable {
    /// The custom strategy for the command field: the raw command must be
    /// present and non-empty, and must parse into a program plus arguments; a
    /// parse failure is reported as `Invalid` at the field's path, its
    /// internal diagnostic discarded.
    pub fn validate_command(command: Option<String>, field: &str, parent: Option<&str>) -> (r:
        Result<ParsedCommand, ValidationError>)
        ensures
            match command.deep_view() {
                Option::None => (r matches Err(e) && e@ == SpecError::Missing(
                    spec_field_path(field@, spec_opt_path(parent)),
                )),
                Option::Some(c) => if c.len() == 0 || spec_parse_command(c) is Err {
                    r matches Err(e) && e@ == SpecError::Invalid(
                        spec_field_path(field@, spec_opt_path(parent)),
                    )
                } else {
                    r matches Ok(pc) && Ok::<SpecCommand, crate::command::CommandParseError>(pc@)
                        == spec_parse_command(c)
                },
            },
    {
        let command = match required_not_empty(command, field, parent) {
            Ok(v) => v,
            Err(e) => return Err(e),
        };
        match parse_command(command.as_str()) {
            Ok(pc) => Ok(pc),
            Err(_) => Err(ValidationError::Invalid { field: field_name(field, parent) }),
        }
    }

    /// Validates a raw executable descriptor, qualifying every error path
    /// with the parent path, if any.
    pub fn validate(raw: RawExecutable, parent: Option<&str>) -> (r: Result<
        ValidatedExecutable,
        ValidationError,
    >)
        ensures
            match r {
                Ok(v) => spec_validate_executable(raw@, spec_opt_path(parent)) == Ok::<
                    SpecExecutable,
                    SpecError,
                >(v@),
                Err(e) => spec_validate_executable(raw@, spec_opt_path(parent)) == Err::<
                    SpecExecutable,
                    SpecError,
                >(e@),
            },
    {
        let name = match ExecutableName::validate(raw.name, "name", parent) {
            Ok(v) => v,
            Err(e) => return Err(e),
        };
        let command = match Self::validate_command(raw.command, "command", parent) {
            Ok(v) => v,
            Err(e) => return Err(e),
        };
        Ok(ValidatedExecutable { name, command, description: raw.description })
    }
}

/// Law: a raw executable descriptor whose name is present and well-formed and
/// whose command is present, non-empty and parsable validates successfully,
/// carrying the raw name, the parsed command and the description unchanged.
pub proof fn lemma_valid_executable_accepted(raw: SpecRawExecutable, parent: Option<Seq<char>>)
    requires
        raw.name matches Some(n) && valid_name(n),
        raw.command matches Some(c) && c.len() > 0 && spec_parse_command(c) is Ok,
    ensures
        spec_validate_executable(raw, parent) == Ok::<SpecExecutable, SpecError>(
            SpecExecutable {
                name: raw.name->Some_0,
                command: spec_parse_command(raw.command->Some_0)->Ok_0,
                description: raw.description,
            },
        ),
{
}

} // verus!
