//! Tests of the TCL command value object and the concrete command
//! builders.

use gowiners::command::TclCommand;
use gowiners::commands::{AddFiles, ProjectOption, Run, SetDevice, SetOption, SetOptions};
use gowiners::options::{
    BitstreamCompress, IncludePath, PlaceOption, ReplicateResources, RouteOption, TopModule,
    VerilogStd, VhdlStd,
};

#[test]
fn empty_command_serializes_to_its_name() {
    let cmd = TclCommand::new("run");
    assert_eq!(cmd.build(), "run");
}

#[test]
fn flags_then_args_in_insertion_order() {
    let cmd = TclCommand::new("add_file")
        .flag("type", "verilog")
        .arg("a.v")
        .arg("b.v");
    assert_eq!(cmd.build(), "add_file -type verilog a.v b.v");
}

#[test]
fn duplicate_flags_are_preserved_in_order() {
    let cmd = TclCommand::new("set_option")
        .flag("opt", "1")
        .flag("opt", "2");
    assert_eq!(cmd.build(), "set_option -opt 1 -opt 2");
}

#[test]
fn push_forms_match_builder_forms() {
    let mut cmd = TclCommand::new("set_device");
    cmd.push_flag("name", "GW1N");
    cmd.push_arg("GW1NR-9");
    assert_eq!(cmd.build(), "set_device -name GW1N GW1NR-9");
}

#[test]
fn set_device_command() {
    let cmd = SetDevice { family: "GW1N".to_owned(), part: "GW1NR-9".to_owned() }.into_command();
    assert_eq!(cmd.build(), "set_device -name GW1N GW1NR-9");
}

#[test]
fn add_files_command() {
    let cmd = AddFiles {
        filetype: "verilog".to_owned(),
        files: vec!["/x/a.v".to_owned(), "/x/b.v".to_owned()],
    }
        .into_command();
    assert_eq!(cmd.build(), "add_file -type verilog /x/a.v /x/b.v");
}

#[test]
fn single_set_option_command() {
    let cmd = SetOption { name: "vhdl_std".to_owned(), value: "vhdl_2008".to_owned() }
        .into_command();
    assert_eq!(cmd.build(), "set_option -vhdl_std vhdl_2008");
}

#[test]
fn batched_set_options_command() {
    let mut options = SetOptions::default();
    options.push(ProjectOption { name: "verilog_std".to_owned(), value: "verilog_2001".to_owned() });
    options.push(ProjectOption { name: "top_module".to_owned(), value: "top".to_owned() });
    assert_eq!(options.into_command().build(), "set_option -verilog_std verilog_2001 -top_module top");
}

#[test]
fn project_option_single_command() {
    let cmd = ProjectOption { name: "top_module".to_owned(), value: "blinky".to_owned() }
        .into_command();
    assert_eq!(cmd.build(), "set_option -top_module blinky");
}

#[test]
fn run_stage_commands() {
    assert_eq!(Run::Syn.into_command().build(), "run syn");
    assert_eq!(Run::Pnr.into_command().build(), "run pnr");
    assert_eq!(Run::All.into_command().build(), "run all");
}

#[test]
fn option_newtypes_write_their_keys_and_values() {
    let o = VerilogStd("verilog_2001".to_owned()).into_option();
    assert_eq!(o.name, "verilog_std");
    assert_eq!(o.value, "verilog_2001");
    let o = VhdlStd("vhdl_2008".to_owned()).into_option();
    assert_eq!(o.name, "vhdl_std");
    assert_eq!(o.value, "vhdl_2008");
    let o = IncludePath("/a;/b".to_owned()).into_option();
    assert_eq!(o.name, "include_path");
    assert_eq!(o.value, "/a;/b");
    let o = TopModule("top".to_owned()).into_option();
    assert_eq!(o.name, "top_module");
    assert_eq!(o.value, "top");
    let o = PlaceOption(12).into_option();
    assert_eq!(o.name, "place_option");
    assert_eq!(o.value, "12");
    let o = RouteOption(0).into_option();
    assert_eq!(o.name, "route_option");
    assert_eq!(o.value, "0");
    let o = ReplicateResources(true).into_option();
    assert_eq!(o.name, "replicate_resources");
    assert_eq!(o.value, "1");
    let o = BitstreamCompress(false).into_option();
    assert_eq!(o.name, "bit_compress");
    assert_eq!(o.value, "0");
}

#[test]
fn decimal_formatting_exact_values() {
    assert_eq!(gowiners::text::u32_to_dec(0), "0");
    assert_eq!(gowiners::text::u32_to_dec(7), "7");
    assert_eq!(gowiners::text::u32_to_dec(10), "10");
    assert_eq!(gowiners::text::u32_to_dec(4294967295), "4294967295");
    assert_eq!(gowiners::text::i32_to_dec(-17), "-17");
    assert_eq!(gowiners::text::i32_to_dec(2147483647), "2147483647");
    assert_eq!(gowiners::text::i32_to_dec(-2147483648), "-2147483648");
}

#[test]
fn join_semicolon_exact_values() {
    assert_eq!(gowiners::text::join_semicolon(&vec![]), "");
    assert_eq!(gowiners::text::join_semicolon(&vec!["/a".to_owned()]), "/a");
    assert_eq!(
        gowiners::text::join_semicolon(&vec!["/a".to_owned(), "/b".to_owned(), "/c".to_owned()]),
        "/a;/b;/c"
    );
}
