//! The commands of the tool, where each sends its output, and its errors.
use vstd::prelude::*;

verus! {

/// The parsed command line: one subcommand.
pub struct IsoMdlArgs {
    /// Either `issue`, `verify` or `issue-verify`.
    pub subcommand: IsoMdlCommand,
}

/// The operations of the tool.
pub enum IsoMdlCommand {
    /// Issue a document from a JSON file of claims.
    Issue(IssueCommand),
    /// Verify a serialized document and report its claims.
    Verify(VerifyCommand),
    /// Issue a document from a JSON file of claims, then verify it and report
    /// its claims.
    IssueVerify(IssueVerifyCommand),
}

/// Arguments of the `issue` operation.
pub struct IssueCommand {
    /// A JSON file of the claims to issue.
    pub input_filename: String,
    /// Where the issued document goes; standard output when absent.
    pub output_filename: Option<String>,
}

/// Arguments of the `verify` operation.
pub struct VerifyCommand {
    /// A serialized document to verify.
    pub input_filename: String,
    /// Where the claims report goes; standard output when absent.
    pub output_filename: Option<String>,
}

/// Arguments of the `issue-verify` operation.
pub struct IssueVerifyCommand {
    /// A JSON file of the claims to issue.
    pub input_filename: String,
    /// Where the claims report goes; standard output when absent.
    pub output_filename: Option<String>,
}

impl IsoMdlCommand {
    /// The input file named by the operation.
    pub open spec fn input_spec(&self) -> String {
        match self {
            IsoMdlCommand::Issue(c) => c.input_filename,
            IsoMdlCommand::Verify(c) => c.input_filename,
            IsoMdlCommand::IssueVerify(c) => c.input_filename,
        }
    }

    /// The output file named by the operation, if any.
    pub open spec fn output_spec(&self) -> Option<String> {
        match self {
            IsoMdlCommand::Issue(c) => c.output_filename,
            IsoMdlCommand::Verify(c) => c.output_filename,
            IsoMdlCommand::IssueVerify(c) => c.output_filename,
        }
    }

    /// The file the operation reads.
    pub fn input_filename(&self) -> (r: &String)
        ensures
            *r == self.input_spec(),
    {
        match self {
            IsoMdlCommand::Issue(c) => &c.input_filename,
            IsoMdlCommand::Verify(c) => &c.input_filename,
            IsoMdlCommand::IssueVerify(c) => &c.input_filename,
        }
    }

    /// The file the operation writes, if one was named.
    pub fn output_filename(&self) -> (r: &Option<String>)
        ensures
            *r == self.output_spec(),
    {
        match self {
            IsoMdlCommand::Issue(c) => &c.output_filename,
            IsoMdlCommand::Verify(c) => &c.output_filename,
            IsoMdlCommand::IssueVerify(c) => &c.output_filename,
        }
    }

    /// Whether the operation issues a document from JSON claims.
    pub fn issues(&self) -> (r: bool)
        ensures
            r == !(self is Verify),
    {
        !matches!(self, IsoMdlCommand::Verify(_))
    }

    /// Whether the operation ends with the claims report of a document.
    pub fn reports_claims(&self) -> (r: bool)
        ensures
            r == !(self is Issue),
    {
        !matches!(self, IsoMdlCommand::Issue(_))
    }
}

/// Where an operation writes its output.
pub enum OutputTarget {
    /// The standard output stream.
    Stdout,
    /// A new file at this path.
    File(String),
}

/// Why an operation stopped.
pub enum CliError {
    /// The input file at this path could not be read.
    InputRead(String),
    /// The input could not be parsed or verified; the detail says why.
    Parse(String),
    /// A file already exists at the requested output path.
    OutputCollision(String),
    /// Writing the output failed; the detail says why.
    OutputWrite(String),
    /// Issuing the document failed; the detail says why.
    Issuance(String),
}

/// The exit status of a run that stopped because the output file exists.
pub const COLLISION_STATUS: i32 = 17;

/// The exit status of a run that stopped on any other error.
pub const FAILURE_STATUS: i32 = 1;

impl CliError {
    /// The process exit status for this error: a stable status of its own for
    /// an output collision, the generic failure status otherwise.
    pub fn exit_code(&self) -> (r: i32)
        ensures
            r == if self is OutputCollision {
                COLLISION_STATUS
            } else {
                FAILURE_STATUS
            },
    {
        match self {
            CliError::OutputCollision(_) => COLLISION_STATUS,
            _ => FAILURE_STATUS,
        }
    }

    /// The text of the error as reported.
    pub open spec fn message_spec(&self) -> Seq<char> {
        match self {
            CliError::InputRead(path) => "could not read input_filename "@ + path@,
            CliError::Parse(detail) => "could not parse mdl: "@ + detail@,
            CliError::OutputCollision(path) => "EEXIST=17 output_filename \""@ + path@
                + "\" already exists"@,
            CliError::OutputWrite(detail) => "Error writing to output file: "@ + detail@,
            CliError::Issuance(detail) => "Error issuing mdoc: "@ + detail@,
        }
    }

    /// The text reported on the error stream for this error.
    pub fn message(&self) -> (r: String)
        ensures
            r@ == self.message_spec(),
    {
        match self {
            CliError::InputRead(path) => {
                let mut r = String::from_str("could not read input_filename ");
                r.append(path.as_str());
                r
            },
            CliError::Parse(detail) => {
                let mut r = String::from_str("could not parse mdl: ");
                r.append(detail.as_str());
                r
            },
            CliError::OutputCollision(path) => {
                let mut r = String::from_str("EEXIST=17 output_filename \"");
                r.append(path.as_str());
                r.append("\" already exists");
                r
            },
            CliError::OutputWrite(detail) => {
                let mut r = String::from_str("Error writing to output file: ");
                r.append(detail.as_str());
                r
            },
            CliError::Issuance(detail) => {
                let mut r = String::from_str("Error issuing mdoc: ");
                r.append(detail.as_str());
                r
            },
        }
    }
}

/// Where an operation sends its output: standard output when no file is
/// named, the named file when `exists` says none is there yet, and a
/// collision error, before any other work, when one is.
pub fn resolve_output(output_filename: &Option<String>, exists: bool) -> (r: Result<
    OutputTarget,
    CliError,
>)
    ensures
        output_filename.is_none() ==> r == Ok::<OutputTarget, CliError>(OutputTarget::Stdout),
        output_filename.is_some() && exists ==> r == Err::<OutputTarget, CliError>(
            CliError::OutputCollision(output_filename.unwrap()),
        ),
        output_filename.is_some() && !exists ==> r == Ok::<OutputTarget, CliError>(
            OutputTarget::File(output_filename.unwrap()),
        ),
{
    match output_filename {
        None => Ok(OutputTarget::Stdout),
        Some(path) => {
            if exists {
                Err(CliError::OutputCollision(path.clone()))
            } else {
                Ok(OutputTarget::File(path.clone()))
            }
        },
    }
}

} // verus!
