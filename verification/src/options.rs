//! The individual project options of the batched `set_option` command:
//! each newtype knows its option key and how its value is written, and
//! turns into a [`ProjectOption`] with an exact contract.

use vstd::prelude::*;
use crate::commands::ProjectOption;
use crate::text::{dec_str, str_starts_with, u32_to_dec};

verus! {

/// The `-verilog_std` option.
#[derive(Debug, Clone)]
pub struct VerilogStd(pub String);

impl VerilogStd {
    pub fn into_option(self) -> (r: ProjectOption)
        ensures
            r.name@ == "verilog_std"@,
            r.value@ == self.0@,
    {
        ProjectOption { name: "verilog_std".to_owned(), value: self.0 }
    }
}

/// The `-vhdl_std` option.
#[derive(Debug, Clone)]
pub struct VhdlStd(pub String);

impl VhdlStd {
    pub fn into_option(self) -> (r: ProjectOption)
        ensures
            r.name@ == "vhdl_std"@,
            r.value@ == self.0@,
    {
        ProjectOption { name: "vhdl_std".to_owned(), value: self.0 }
    }
}

/// The `-include_path` option; its value is the resolved include
/// directories joined with `;`.
#[derive(Debug, Clone)]
pub struct IncludePath(pub String);

impl IncludePath {
    pub fn into_option(self) -> (r: ProjectOption)
        ensures
            r.name@ == "include_path"@,
            r.value@ == self.0@,
    {
        ProjectOption { name: "include_path".to_owned(), value: self.0 }
    }
}

/// The `-top_module` option.
#[derive(Debug, Clone)]
pub struct TopModule(pub String);

impl TopModule {
    pub fn into_option(self) -> (r: ProjectOption)
        ensures
            r.name@ == "top_module"@,
            r.value@ == self.0@,
    {
        ProjectOption { name: "top_module".to_owned(), value: self.0 }
    }
}

/// The `-place_option` option, written as a decimal integer.
#[derive(Debug, Copy, Clone)]
pub struct PlaceOption(pub u32);

impl PlaceOption {
    pub fn into_option(self) -> (r: ProjectOption)
        ensures
            r.name@ == "place_option"@,
            r.value@ == dec_str(self.0 as nat),
    {
        ProjectOption { name: "place_option".to_owned(), value: u32_to_dec(self.0) }
    }
}

/// The `-route_option` option, written as a decimal integer.
#[derive(Debug, Copy, Clone)]
pub struct RouteOption(pub u32);

impl RouteOption {
    pub fn into_option(self) -> (r: ProjectOption)
        ensures
            r.name@ == "route_option"@,
            r.value@ == dec_str(self.0 as nat),
    {
        ProjectOption { name: "route_option".to_owned(), value: u32_to_dec(self.0) }
    }
}

/// The text a boolean option value is written as: `1` or `0`.
pub open spec fn bool01(b: bool) -> Seq<char> {
    if b {
        "1"@
    } else {
        "0"@
    }
}

/// The `-replicate_resources` option, written as `1` or `0`.
#[derive(Debug, Copy, Clone)]
pub struct ReplicateResources(pub bool);

impl ReplicateResources {
    pub fn into_option(self) -> (r: ProjectOption)
        ensures
            r.name@ == "replicate_resources"@,
            r.value@ == bool01(self.0),
    {
        let value = if self.0 {
            "1"
        } else {
            "0"
        };
        ProjectOption { name: "replicate_resources".to_owned(), value: value.to_owned() }
    }
}

/// The `-bit_compress` option, written as `1` or `0`.
#[derive(Debug, Copy, Clone)]
pub struct BitstreamCompress(pub bool);

impl BitstreamCompress {
    pub fn into_option(self) -> (r: ProjectOption)
        ensures
            r.name@ == "bit_compress"@,
            r.value@ == bool01(self.0),
    {
        let value = if self.0 {
            "1"
        } else {
            "0"
        };
        ProjectOption { name: "bit_compress".to_owned(), value: value.to_owned() }
    }
}

/// The flag the HDL-standard option contributes: the VHDL key when the
/// standard string starts with `vhdl`, the Verilog key otherwise; the
/// value is the standard string itself either way.
pub open spec fn hdl_std_flag(standard: Seq<char>) -> (Seq<char>, Seq<char>) {
    if "vhdl"@.is_prefix_of(standard) {
        ("vhdl_std"@, standard)
    } else {
        ("verilog_std"@, standard)
    }
}

/// Picks the HDL-standard option for `standard`.
pub fn hdl_std_option(standard: &String) -> (r: ProjectOption)
    ensures
        (r.name@, r.value@) == hdl_std_flag(standard@),
{
    if str_starts_with(standard.as_str(), "vhdl") {
        VhdlStd(standard.clone()).into_option()
    } else {
        VerilogStd(standard.clone()).into_option()
    }
}

/// The HDL-standard flag selects the VHDL key exactly when the standard
/// string starts with `vhdl`, and the Verilog key otherwise.
pub proof fn lemma_hdl_key_selection(standard: Seq<char>)
    ensures
        (hdl_std_flag(standard).0 == "vhdl_std"@) <==> "vhdl"@.is_prefix_of(standard),
        !"vhdl"@.is_prefix_of(standard) ==> hdl_std_flag(standard).0 == "verilog_std"@,
        hdl_std_flag(standard).1 == standard,
{
    reveal_strlit("vhdl_std");
    reveal_strlit("verilog_std");
    assert("vhdl_std"@.len() != "verilog_std"@.len());
}

} // verus!
