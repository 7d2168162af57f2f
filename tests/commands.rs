use isomdl_cli::args::{
    resolve_output, CliError, IsoMdlCommand, IssueCommand, IssueVerifyCommand, OutputTarget,
    VerifyCommand, COLLISION_STATUS, FAILURE_STATUS,
};

#[test]
fn output_defaults_to_stdout() {
    assert!(matches!(resolve_output(&None, false), Ok(OutputTarget::Stdout)));
}

#[test]
fn new_output_file_is_used() {
    match resolve_output(&Some("out.txt".to_string()), false) {
        Ok(OutputTarget::File(p)) => assert_eq!(p, "out.txt"),
        _ => panic!("expected a file target"),
    }
}

#[test]
fn existing_output_file_is_a_collision() {
    match resolve_output(&Some("out.txt".to_string()), true) {
        Err(e) => {
            assert!(matches!(&e, CliError::OutputCollision(p) if p == "out.txt"));
            assert_eq!(e.exit_code(), 17);
            assert_eq!(e.message(), "EEXIST=17 output_filename \"out.txt\" already exists");
        }
        Ok(_) => panic!("expected a collision"),
    }
}

#[test]
fn exit_codes_and_messages() {
    assert_eq!(COLLISION_STATUS, 17);
    let read = CliError::InputRead("in.json".to_string());
    assert_eq!(read.exit_code(), FAILURE_STATUS);
    assert_eq!(read.message(), "could not read input_filename in.json");
    let parse = CliError::Parse("bad base64".to_string());
    assert_eq!(parse.exit_code(), 1);
    assert_eq!(parse.message(), "could not parse mdl: bad base64");
    let write = CliError::OutputWrite("disk full".to_string());
    assert_eq!(write.exit_code(), 1);
    assert_eq!(write.message(), "Error writing to output file: disk full");
    let issue = CliError::Issuance("no key".to_string());
    assert_eq!(issue.exit_code(), 1);
    assert_eq!(issue.message(), "Error issuing mdoc: no key");
}

#[test]
fn command_accessors() {
    let issue = IsoMdlCommand::Issue(IssueCommand {
        input_filename: "claims.json".to_string(),
        output_filename: Some("doc.txt".to_string()),
    });
    let verify = IsoMdlCommand::Verify(VerifyCommand {
        input_filename: "doc.txt".to_string(),
        output_filename: None,
    });
    let both = IsoMdlCommand::IssueVerify(IssueVerifyCommand {
        input_filename: "claims.json".to_string(),
        output_filename: Some("report.txt".to_string()),
    });
    assert_eq!(issue.input_filename(), "claims.json");
    assert_eq!(issue.output_filename(), &Some("doc.txt".to_string()));
    assert_eq!(verify.input_filename(), "doc.txt");
    assert_eq!(verify.output_filename(), &None);
    assert_eq!(both.output_filename(), &Some("report.txt".to_string()));
    assert!(issue.issues() && !issue.reports_claims());
    assert!(!verify.issues() && verify.reports_claims());
    assert!(both.issues() && both.reports_claims());
}
