//! Tests of the programmer argument resolver and the operation table.

use gowiners::programmer::EvaluationError;
use gowiners::project::{
    Device, Hdl, ProgrammerConfig, ProgrammerPreset, Project,
};
use gowiners::{Op, Programmer, ProgrammerError, Resolver};

fn pairs(list: &[(&str, &str)]) -> Vec<(String, String)> {
    list.iter().map(|(k, v)| (k.to_string(), v.to_string())).collect()
}

fn project_with_programmer(base: Vec<(String, String)>, presets: Vec<(String, ProgrammerPreset)>) -> Project {
    Project {
        name: "demo".to_owned(),
        version: 1,
        device: Device { family: "GW1N".to_owned(), part: "GW1NR-9".to_owned() },
        hdl: Hdl { top: None, standard: "verilog_2001".to_owned(), include_dirs: None },
        files: Vec::new(),
        pnr: None,
        bitstream: None,
        programmer: ProgrammerConfig { args: base, preset: presets },
    }
}

#[test]
fn preset_resolution_renames_op_and_drops_unknown_keys() {
    let proj = project_with_programmer(
        pairs(&[("op", "5"), ("extra", "x")]),
        vec![("p1".to_owned(), ProgrammerPreset { args: pairs(&[("fs", "./bit.fs")]) })],
    );
    let mut resolver = Resolver::new();
    resolver.insert("./bit.fs", "/abs/bit.fs");
    let mut programmer = Programmer::new("/bin/programmer_cli");
    programmer.evaluate(&proj, "p1", &resolver).unwrap();
    let line = programmer.command_line();
    assert!(line.contains(&"--run=5".to_owned()));
    assert!(line.contains(&"--fs=/abs/bit.fs".to_owned()));
    assert!(line.contains(&"--device=GW1N".to_owned()));
    assert_eq!(line.len(), 3);
    assert!(!line.iter().any(|a| a.contains("extra")));
}

#[test]
fn preset_values_override_base_values() {
    let proj = project_with_programmer(
        pairs(&[("op", "5")]),
        vec![("p1".to_owned(), ProgrammerPreset { args: pairs(&[("op", "7")]) })],
    );
    let resolver = Resolver::new();
    let mut programmer = Programmer::new("/bin/programmer_cli");
    programmer.evaluate(&proj, "p1", &resolver).unwrap();
    let line = programmer.command_line();
    assert!(line.contains(&"--run=7".to_owned()));
    assert!(!line.contains(&"--run=5".to_owned()));
    assert_eq!(line.len(), 2);
}

#[test]
fn missing_preset_fails_with_no_such_preset() {
    let proj = project_with_programmer(pairs(&[("op", "5")]), Vec::new());
    let resolver = Resolver::new();
    let mut programmer = Programmer::new("/bin/programmer_cli");
    let err = programmer.evaluate(&proj, "nope", &resolver).unwrap_err();
    assert!(matches!(err, EvaluationError::NoSuchPreset(ref name) if name == "nope"));
    assert_eq!(err.message(), "No such preset: nope");
}

#[test]
fn unresolvable_base_bitstream_fails_before_preset_lookup() {
    let proj = project_with_programmer(pairs(&[("fs", "./gone.fs")]), Vec::new());
    let resolver = Resolver::new();
    let mut programmer = Programmer::new("/bin/programmer_cli");
    let err = programmer.evaluate(&proj, "nope", &resolver).unwrap_err();
    assert!(matches!(err, EvaluationError::Io(ref path) if path == "./gone.fs"));
}

#[test]
fn unresolvable_preset_bitstream_fails_with_path_error() {
    let proj = project_with_programmer(
        Vec::new(),
        vec![("p1".to_owned(), ProgrammerPreset { args: pairs(&[("fs", "./gone.fs")]) })],
    );
    let resolver = Resolver::new();
    let mut programmer = Programmer::new("/bin/programmer_cli");
    let err = programmer.evaluate(&proj, "p1", &resolver).unwrap_err();
    assert!(matches!(err, EvaluationError::Io(ref path) if path == "./gone.fs"));
    assert_eq!(err.message(), "Failed to resolve path: ./gone.fs");
}

#[test]
fn device_entry_always_injected() {
    let proj = project_with_programmer(
        Vec::new(),
        vec![("p1".to_owned(), ProgrammerPreset { args: Vec::new() })],
    );
    let resolver = Resolver::new();
    let mut programmer = Programmer::new("/bin/programmer_cli");
    programmer.evaluate(&proj, "p1", &resolver).unwrap();
    assert_eq!(programmer.command_line(), vec!["--device=GW1N".to_owned()]);
}

#[test]
fn op_codes_match_the_programmer_menu() {
    assert_eq!(Op::ReadDeviceCodes.code(), 0);
    assert_eq!(Op::Reprogram.code(), 1);
    assert_eq!(Op::EmbFlashEraseProgram.code(), 5);
    assert_eq!(Op::ConnectToJtagOfMCU.code(), 23);
    assert_eq!(Op::MFGWriteIRef.code(), 34);
    assert_eq!(Op::SRAMReprogramThruUARTIPSPI.code(), 78);
    assert_eq!(Op::default().code(), 0);
}

#[test]
fn op_parses_menu_names() {
    assert_eq!(Op::from_str("Read Device Codes"), Ok(Op::ReadDeviceCodes));
    assert_eq!(Op::from_str("Reprogram"), Ok(Op::Reprogram));
    assert_eq!(Op::from_str("embFlash Erase,Program,Verify"), Ok(Op::EmbFlashEraseProgramVerify));
    assert_eq!(
        Op::from_str("sFlash Background Erase,Program,Verify thru GAO-Bridge"),
        Ok(Op::SFlashBackgroundEraseProgramVerifyThruGaoBridge)
    );
    assert_eq!(Op::from_str("Set ExFlash QE For GW5A(T)"), Ok(Op::SetExFlashQEForGW5AT));
    assert_eq!(
        Op::from_str("not an operation"),
        Err("Unknown operation: not an operation".to_owned())
    );
}

#[test]
fn programmer_error_messages() {
    assert_eq!(
        ProgrammerError::Spawn("no such file".to_owned()).message(),
        "Failed to spawn programmer: no such file"
    );
    assert_eq!(ProgrammerError::Failed.message(), "Programmer exited with no success");
    assert_eq!(
        ProgrammerError::Io("wait failed".to_owned()).message(),
        "Programmer I/O error: wait failed"
    );
}
