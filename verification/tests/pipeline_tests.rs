//! Tests of the project-to-command compilers and the path resolver.

use gowiners::pipeline::EvaluationError;
use gowiners::project::{
    BitstreamConfig, Device, Hdl, MaybeList, PlaceAndRouteConfig, ProgrammerConfig, Project,
};
use gowiners::{GowinEda, PipelineError, Resolver};

fn project(standard: &str, top: Option<&str>, files: Vec<(String, MaybeList<String>)>) -> Project {
    Project {
        name: "demo".to_owned(),
        version: 1,
        device: Device { family: "GW1N".to_owned(), part: "GW1NR-9".to_owned() },
        hdl: Hdl {
            top: top.map(|t| t.to_owned()),
            standard: standard.to_owned(),
            include_dirs: None,
        },
        files,
        pnr: None,
        bitstream: None,
        programmer: ProgrammerConfig { args: Vec::new(), preset: Vec::new() },
    }
}

#[test]
fn end_to_end_three_commands() {
    let proj = project(
        "verilog_2001",
        Some("top"),
        vec![(
            "verilog".to_owned(),
            MaybeList::List(vec!["a.v".to_owned(), "b.v".to_owned()]),
        )],
    );
    let mut resolver = Resolver::new();
    resolver.insert("a.v", "/abs/a.v");
    resolver.insert("b.v", "/abs/b.v");
    let eda = GowinEda::new("/opt/gowin");
    let mut pipeline = eda.pipeline();
    pipeline.configure(&proj, &resolver).unwrap();
    assert_eq!(
        pipeline.script(),
        "set_device -name GW1N GW1NR-9;\
         add_file -type verilog /abs/a.v /abs/b.v;\
         set_option -verilog_std verilog_2001 -top_module top;"
    );
}

#[test]
fn vhdl_standard_selects_vhdl_key() {
    let proj = project("vhdl-2008", None, Vec::new());
    let resolver = Resolver::new();
    let mut pipeline = gowiners::Pipeline::new("/bin/gw_sh");
    pipeline.configure(&proj, &resolver).unwrap();
    assert_eq!(
        pipeline.script(),
        "set_device -name GW1N GW1NR-9;set_option -vhdl_std vhdl-2008 -top_module top;"
    );
}

#[test]
fn verilog_standard_selects_verilog_key() {
    let proj = project("verilog-2001", None, Vec::new());
    let resolver = Resolver::new();
    let mut pipeline = gowiners::Pipeline::new("/bin/gw_sh");
    pipeline.configure(&proj, &resolver).unwrap();
    assert_eq!(
        pipeline.script(),
        "set_device -name GW1N GW1NR-9;set_option -verilog_std verilog-2001 -top_module top;"
    );
}

#[test]
fn one_registration_command_per_tag_in_order() {
    let proj = project(
        "verilog_2001",
        Some("main"),
        vec![
            ("verilog".to_owned(), MaybeList::Single("a.v".to_owned())),
            ("sdc".to_owned(), MaybeList::Single("c.sdc".to_owned())),
            ("cst".to_owned(), MaybeList::List(vec!["p.cst".to_owned()])),
        ],
    );
    let mut resolver = Resolver::new();
    resolver.insert("a.v", "/r/a.v");
    resolver.insert("c.sdc", "/r/c.sdc");
    resolver.insert("p.cst", "/r/p.cst");
    let mut pipeline = gowiners::Pipeline::new("/bin/gw_sh");
    pipeline.configure(&proj, &resolver).unwrap();
    assert_eq!(
        pipeline.script(),
        "set_device -name GW1N GW1NR-9;\
         add_file -type verilog /r/a.v;\
         add_file -type sdc /r/c.sdc;\
         add_file -type cst /r/p.cst;\
         set_option -verilog_std verilog_2001 -top_module main;"
    );
}

#[test]
fn pnr_and_bitstream_options_are_batched() {
    let mut proj = project("verilog_2001", None, Vec::new());
    proj.pnr = Some(PlaceAndRouteConfig {
        place_mode: Some(12),
        route_mode: None,
        replicate: Some(true),
    });
    proj.bitstream = Some(BitstreamConfig { compress: None });
    let resolver = Resolver::new();
    let mut pipeline = gowiners::Pipeline::new("/bin/gw_sh");
    pipeline.configure(&proj, &resolver).unwrap();
    assert_eq!(
        pipeline.script(),
        "set_device -name GW1N GW1NR-9;\
         set_option -verilog_std verilog_2001 -top_module top \
         -place_option 12 -route_option 0 -replicate_resources 1 -bit_compress 0;"
    );
}

#[test]
fn include_dirs_joined_with_semicolons() {
    let mut proj = project("verilog_2001", None, Vec::new());
    proj.hdl.include_dirs = Some(vec!["inc1".to_owned(), "inc2".to_owned()]);
    let mut resolver = Resolver::new();
    resolver.insert("inc1", "/r/inc1");
    resolver.insert("inc2", "/r/inc2");
    let mut pipeline = gowiners::Pipeline::new("/bin/gw_sh");
    pipeline.configure(&proj, &resolver).unwrap();
    assert_eq!(
        pipeline.script(),
        "set_device -name GW1N GW1NR-9;\
         set_option -verilog_std verilog_2001 -include_path /r/inc1;/r/inc2 -top_module top;"
    );
}

#[test]
fn missing_include_dir_fails_before_file_registration() {
    let mut proj = project("verilog_2001", None, Vec::new());
    proj.hdl.include_dirs = Some(vec!["gone".to_owned()]);
    let resolver = Resolver::new();
    let mut pipeline = gowiners::Pipeline::new("/bin/gw_sh");
    let err = pipeline.configure(&proj, &resolver).unwrap_err();
    let EvaluationError::Io(path) = err;
    assert_eq!(path, "gone");
    assert_eq!(pipeline.script(), "set_device -name GW1N GW1NR-9;");
}

#[test]
fn missing_file_keeps_earlier_tags_in_buffer() {
    let proj = project(
        "verilog_2001",
        None,
        vec![
            ("verilog".to_owned(), MaybeList::Single("a.v".to_owned())),
            ("sdc".to_owned(), MaybeList::Single("gone.sdc".to_owned())),
        ],
    );
    let mut resolver = Resolver::new();
    resolver.insert("a.v", "/r/a.v");
    let mut pipeline = gowiners::Pipeline::new("/bin/gw_sh");
    let err = pipeline.configure(&proj, &resolver).unwrap_err();
    let EvaluationError::Io(path) = err;
    assert_eq!(path, "gone.sdc");
    assert_eq!(
        pipeline.script(),
        "set_device -name GW1N GW1NR-9;add_file -type verilog /r/a.v;"
    );
}

#[test]
fn unbatched_evaluate_emits_options_before_files() {
    let proj = project(
        "verilog_2001",
        None,
        vec![("verilog".to_owned(), MaybeList::Single("a.v".to_owned()))],
    );
    let mut resolver = Resolver::new();
    resolver.insert("a.v", "/r/a.v");
    let mut pipeline = gowiners::Pipeline::new("/bin/gw_sh");
    pipeline.evaluate(&proj, &resolver).unwrap();
    assert_eq!(
        pipeline.script(),
        "set_device -name GW1N GW1NR-9;\
         set_option -verilog_std verilog_2001;\
         set_option -top_module top;\
         add_file -type verilog /r/a.v;"
    );
}

#[test]
fn run_stage_appends_after_configure() {
    let proj = project("verilog_2001", None, Vec::new());
    let resolver = Resolver::new();
    let mut pipeline = gowiners::Pipeline::new("/bin/gw_sh");
    pipeline.configure(&proj, &resolver).unwrap();
    pipeline.push(gowiners::commands::Run::All.into_command());
    assert_eq!(
        pipeline.script(),
        "set_device -name GW1N GW1NR-9;set_option -verilog_std verilog_2001 -top_module top;run all;"
    );
}

#[test]
fn resolution_is_idempotent_and_total() {
    let mut resolver = Resolver::new();
    resolver.insert("a.v", "/abs/a.v");
    let first = resolver.resolve("a.v");
    let second = resolver.resolve("a.v");
    assert_eq!(first, Some("/abs/a.v".to_owned()));
    assert_eq!(first, second);
    assert_eq!(resolver.resolve("missing.v"), None);
    assert_eq!(resolver.resolve("missing.v"), None);
}

#[test]
fn later_insert_overrides_earlier() {
    let mut resolver = Resolver::new();
    resolver.insert("a.v", "/old/a.v");
    resolver.insert("a.v", "/new/a.v");
    assert_eq!(resolver.resolve("a.v"), Some("/new/a.v".to_owned()));
}

#[test]
fn resolve_list_reports_first_missing_path() {
    let mut resolver = Resolver::new();
    resolver.insert("a.v", "/r/a.v");
    let r = resolver.resolve_list(&vec!["a.v".to_owned(), "x.v".to_owned(), "y.v".to_owned()]);
    assert_eq!(r, Err("x.v".to_owned()));
    let ok = resolver.resolve_list(&vec!["a.v".to_owned()]);
    assert_eq!(ok, Ok(vec!["/r/a.v".to_owned()]));
}

#[test]
fn maybe_list_to_vec() {
    let single: MaybeList<String> = MaybeList::Single("a.v".to_owned());
    assert_eq!(single.to_vec(), vec!["a.v".to_owned()]);
    let list: MaybeList<String> = MaybeList::List(vec!["a.v".to_owned(), "b.v".to_owned()]);
    assert_eq!(list.to_vec(), vec!["a.v".to_owned(), "b.v".to_owned()]);
}

#[test]
fn eda_derives_tool_paths() {
    let eda = GowinEda::new("/opt/gowin");
    let pipeline = eda.pipeline();
    assert_eq!(pipeline.bin().as_str(), "/opt/gowin/IDE/bin/gw_sh");
    let programmer = eda.programmer();
    assert_eq!(programmer.bin().as_str(), "/opt/gowin/Programmer/bin/programmer_cli");
}

#[test]
fn pipeline_error_messages() {
    assert_eq!(
        PipelineError::Spawn("no such file".to_owned()).message(),
        "Failed to spawn pipeline shell: no such file"
    );
    assert_eq!(
        PipelineError::Run(-3).message(),
        "Pipeline run failed with exit code: -3"
    );
    assert_eq!(
        PipelineError::Io("broken pipe".to_owned()).message(),
        "Pipeline I/O error: broken pipe"
    );
    assert_eq!(
        EvaluationError::Io("a.v".to_owned()).message(),
        "Failed to resolve path: a.v"
    );
}
