//! The project data model: what a hardware project declares about its
//! device, HDL sources, place-and-route and bitstream settings, and the
//! device programmer.
//!
//! Mappings are held as ordered lists of key/value pairs rather than hash
//! maps: iteration order over a file set decides command emission order,
//! so the container must be deterministic for output to be reproducible,
//! and an insertion-ordered list keeps it so.  Callers that read a
//! configuration file hand the entries over in the file's order.

use vstd::prelude::*;

verus! {

/// The target device, passed through verbatim.
#[derive(Debug, Clone)]
pub struct Device {
    pub family: String,
    pub part: String,
}

/// HDL settings: the top module (defaults to `top` when absent), the
/// language standard tag, and optional include directories.
#[derive(Debug)]
pub struct Hdl {
    pub top: Option<String>,
    pub standard: String,
    pub include_dirs: Option<Vec<String>>,
}

/// A value that a configuration may write either as one element or as a
/// list of elements.
#[derive(Debug)]
pub enum MaybeList<T> {
    Single(T),
    List(Vec<T>),
}

impl MaybeList<String> {
    /// The paths this entry holds, in order.
    pub open spec fn paths(&self) -> Seq<Seq<char>> {
        match self {
            MaybeList::Single(p) => seq![p@],
            MaybeList::List(ps) => ps.deep_view(),
        }
    }

    /// The entry's paths as a vector, single values becoming a vector of
    /// one.
    pub fn to_vec(&self) -> (r: Vec<String>)
        ensures
            r.deep_view() == self.paths(),
    {
        match self {
            MaybeList::Single(it) => {
                let mut v: Vec<String> = Vec::new();
                v.push(it.clone());
                proof {
                    assert(v.deep_view() =~= self.paths());
                }
                v
            },
            MaybeList::List(it) => {
                let mut v: Vec<String> = Vec::new();
                let mut i: usize = 0;
                while i < it.len()
                    invariant
                        i <= it.len(),
                        v.deep_view() == it.deep_view().take(i as int),
                    decreases it.len() - i,
                {
                    v.push(it[i].clone());
                    proof {
                        let dv = it.deep_view();
                        assert(v.deep_view() =~= dv.take(i as int).push(dv[i as int]));
                        assert(dv.take(i + 1) =~= dv.take(i as int).push(dv[i as int]));
                    }
                    i = i + 1;
                }
                proof {
                    assert(it.deep_view().take(it@.len() as int) =~= it.deep_view());
                }
                v
            },
        }
    }
}

/// A bitstream image file.
#[derive(Debug)]
pub enum Bitstream {
    Fs(String),
}

/// A named, overriding set of programmer arguments.
#[derive(Debug)]
pub struct ProgrammerPreset {
    pub args: Vec<(String, String)>,
}

/// The programmer configuration: base arguments plus named presets that
/// override them.
#[derive(Debug)]
pub struct ProgrammerConfig {
    pub args: Vec<(String, String)>,
    pub preset: Vec<(String, ProgrammerPreset)>,
}

/// Place-and-route settings; absent numbers default to 0, the absent
/// boolean to false.
#[derive(Debug)]
pub struct PlaceAndRouteConfig {
    pub place_mode: Option<u32>,
    pub route_mode: Option<u32>,
    pub replicate: Option<bool>,
}

/// Bitstream generation settings; absent means no compression.
#[derive(Debug)]
pub struct BitstreamConfig {
    pub compress: Option<bool>,
}

/// A whole project description, immutable once loaded.
#[derive(Debug)]
pub struct Project {
    pub name: String,
    pub version: u32,
    pub device: Device,
    pub hdl: Hdl,
    pub files: Vec<(String, MaybeList<String>)>,
    pub pnr: Option<PlaceAndRouteConfig>,
    pub bitstream: Option<BitstreamConfig>,
    pub programmer: ProgrammerConfig,
}

} // verus!
