//! The synthesis / place-and-route compiler and its command buffer.
//!
//! A [`Pipeline`] owns the path of the scripting shell and an ordered,
//! append-only command buffer.  [`Pipeline::configure`] compiles a project
//! into the buffer in the fixed order the protocol asks for: one device
//! selection, one file-registration command per file-type tag, then a
//! single batched option command.  [`Pipeline::evaluate`] is the earlier,
//! unbatched form that emits one `set_option` command per option before
//! the file registrations.  [`Pipeline::script`] serializes the buffer
//! into the byte stream that is written to the shell in one piece; the
//! caller spawns the shell and performs the write.

use vstd::prelude::*;
use vstd::string::StringExecFns;
use crate::command::TclCommand;
use crate::commands::{
    is_add_files, is_set_device, is_set_options, options_flags, AddFiles, SetDevice, SetOption,
    SetOptions,
};
use crate::options::{
    bool01, hdl_std_flag, hdl_std_option, BitstreamCompress, IncludePath, PlaceOption,
    ReplicateResources, RouteOption, TopModule,
};
use crate::project::{Hdl, MaybeList, PlaceAndRouteConfig, Project};
use crate::resolver::{all_resolve, first_unresolved, resolve_all, Resolver};
use crate::text::{dec_str, i32_to_dec, int_dec_str, join_semi, join_semicolon};

verus! {

/// Why compiling a project failed: a referenced path could not be
/// resolved.  The variant carries the path as the project wrote it.
#[derive(Debug)]
pub enum EvaluationError {
    Io(String),
}

impl EvaluationError {
    /// A short human-readable description of the failure.
    pub fn message(&self) -> (r: String)
        ensures
            self matches EvaluationError::Io(p) ==> r@ == "Failed to resolve path: "@ + p@,
    {
        match self {
            EvaluationError::Io(p) => {
                let mut r = "Failed to resolve path: ".to_owned();
                r.append(p.as_str());
                r
            },
        }
    }
}

/// Why running the buffered commands failed.
#[derive(Debug)]
pub enum PipelineError {
    /// The scripting shell could not be spawned; carries the reason.
    Spawn(String),
    /// The shell exited with the given non-zero code.
    Run(i32),
    /// Writing to or waiting on the spawned shell failed.
    Io(String),
}

impl PipelineError {
    /// A short human-readable description of the failure.
    pub fn message(&self) -> (r: String)
        ensures
            self matches PipelineError::Spawn(e) ==> r@ == "Failed to spawn pipeline shell: "@
                + e@,
            self matches PipelineError::Run(code) ==> r@
                == "Pipeline run failed with exit code: "@ + int_dec_str(*code as int),
            self matches PipelineError::Io(e) ==> r@ == "Pipeline I/O error: "@ + e@,
    {
        match self {
            PipelineError::Spawn(e) => {
                let mut r = "Failed to spawn pipeline shell: ".to_owned();
                r.append(e.as_str());
                r
            },
            PipelineError::Run(code) => {
                let mut r = "Pipeline run failed with exit code: ".to_owned();
                let text = i32_to_dec(*code);
                r.append(text.as_str());
                r
            },
            PipelineError::Io(e) => {
                let mut r = "Pipeline I/O error: ".to_owned();
                r.append(e.as_str());
                r
            },
        }
    }
}

/// The ordered command buffer bound to one scripting-shell executable.
#[derive(Debug)]
pub struct Pipeline {
    bin: String,
    list: Vec<TclCommand>,
}

/// The include directories a project declares, or nothing.
pub open spec fn include_paths(hdl: Hdl) -> Seq<Seq<char>> {
    match hdl.include_dirs {
        Some(dirs) => dirs.deep_view(),
        None => Seq::empty(),
    }
}

/// The top module name, defaulting to `top`.
pub open spec fn top_text(hdl: Hdl) -> Seq<char> {
    match hdl.top {
        Some(t) => t@,
        None => "top"@,
    }
}

/// An optional number, defaulting to 0.
pub open spec fn u32_or_zero(o: Option<u32>) -> u32 {
    match o {
        Some(v) => v,
        None => 0,
    }
}

/// An optional boolean, defaulting to false.
pub open spec fn bool_or_false(o: Option<bool>) -> bool {
    match o {
        Some(b) => b,
        None => false,
    }
}

/// The three flags a place-and-route configuration contributes.
pub open spec fn pnr_flags(p: PlaceAndRouteConfig) -> Seq<(Seq<char>, Seq<char>)> {
    seq![
        ("place_option"@, dec_str(u32_or_zero(p.place_mode) as nat)),
        ("route_option"@, dec_str(u32_or_zero(p.route_mode) as nat)),
        ("replicate_resources"@, bool01(bool_or_false(p.replicate))),
    ]
}

/// The flags the optional include directories contribute: one
/// `include_path` flag whose value is the canonical paths joined with
/// `;`, or nothing.
pub open spec fn include_flags(project: Project, m: Map<Seq<char>, Seq<char>>) -> Seq<
    (Seq<char>, Seq<char>),
> {
    match project.hdl.include_dirs {
        Some(dirs) => seq![("include_path"@, join_semi(resolve_all(m, dirs.deep_view())))],
        None => Seq::empty(),
    }
}

/// The flags the optional place-and-route configuration contributes.
pub open spec fn pnr_section(project: Project) -> Seq<(Seq<char>, Seq<char>)> {
    match project.pnr {
        Some(p) => pnr_flags(p),
        None => Seq::empty(),
    }
}

/// The flags the optional bitstream configuration contributes.
pub open spec fn bitstream_section(project: Project) -> Seq<(Seq<char>, Seq<char>)> {
    match project.bitstream {
        Some(b) => seq![("bit_compress"@, bool01(bool_or_false(b.compress)))],
        None => Seq::empty(),
    }
}

/// Every flag of the batched option command, in emission order: HDL
/// standard, include path (if any), top module, place-and-route flags (if
/// any), bitstream compression (if any).
pub open spec fn configure_option_flags(project: Project, m: Map<Seq<char>, Seq<char>>) -> Seq<
    (Seq<char>, Seq<char>),
> {
    seq![hdl_std_flag(project.hdl.standard@)] + include_flags(project, m) + seq![
        ("top_module"@, top_text(project.hdl)),
    ] + pnr_section(project) + bitstream_section(project)
}

/// True when every path of every file-set entry resolves.
pub open spec fn files_resolve(
    m: Map<Seq<char>, Seq<char>>,
    files: Seq<(String, MaybeList<String>)>,
) -> bool {
    forall|i: int| 0 <= i < files.len() ==> all_resolve(m, (#[trigger] files[i]).1.paths())
}

/// `cmds` registers exactly the tags of `files`, in order, each command
/// carrying its own tag's canonical paths and nothing else.
pub open spec fn file_cmds_match(
    cmds: Seq<TclCommand>,
    m: Map<Seq<char>, Seq<char>>,
    files: Seq<(String, MaybeList<String>)>,
) -> bool {
    &&& cmds.len() == files.len()
    &&& forall|i: int|
        0 <= i < files.len() ==> is_add_files(
            #[trigger] cmds[i],
            files[i].0@,
            resolve_all(m, files[i].1.paths()),
        )
}

/// Tag `k` is the first file-set entry with an unresolvable path.
pub open spec fn files_failed_at(
    m: Map<Seq<char>, Seq<char>>,
    files: Seq<(String, MaybeList<String>)>,
    k: int,
) -> bool {
    &&& 0 <= k < files.len()
    &&& !all_resolve(m, files[k].1.paths())
    &&& forall|j: int| 0 <= j < k ==> all_resolve(m, (#[trigger] files[j]).1.paths())
}

/// Compiling a file set of N tags yields exactly N file-registration
/// commands, in the file set's order, each listing only its own tag's
/// resolved paths.
pub proof fn lemma_file_commands_exact(
    cmds: Seq<TclCommand>,
    m: Map<Seq<char>, Seq<char>>,
    files: Seq<(String, MaybeList<String>)>,
)
    requires
        file_cmds_match(cmds, m, files),
    ensures
        cmds.len() == files.len(),
        forall|i: int|
            0 <= i < files.len() ==> is_add_files(
                #[trigger] cmds[i],
                files[i].0@,
                resolve_all(m, files[i].1.paths()),
            ),
{
}

/// The batched option command always opens with the HDL-standard flag,
/// and that flag carries the VHDL key exactly when the standard string
/// starts with `vhdl`, the Verilog key otherwise; the value is the
/// standard string either way.
pub proof fn lemma_batched_hdl_key(project: Project, m: Map<Seq<char>, Seq<char>>)
    ensures
        configure_option_flags(project, m)[0] == hdl_std_flag(project.hdl.standard@),
        (configure_option_flags(project, m)[0].0 == "vhdl_std"@) <==> "vhdl"@.is_prefix_of(
            project.hdl.standard@,
        ),
        !"vhdl"@.is_prefix_of(project.hdl.standard@) ==> configure_option_flags(project, m)[0].0
            == "verilog_std"@,
{
    crate::options::lemma_hdl_key_selection(project.hdl.standard@);
}

/// The full script: each command's serialized form followed by the `;`
/// statement terminator, concatenated in buffer order.
pub open spec fn script_text(cmds: Seq<TclCommand>) -> Seq<char>
    decreases cmds.len(),
{
    if cmds.len() == 0 {
        Seq::empty()
    } else {
        script_text(cmds.drop_last()) + cmds.last().serialized() + ";"@
    }
}

impl Pipeline {
    /// The characters of the shell executable's path.
    pub closed spec fn bin_spec(&self) -> Seq<char> {
        self.bin@
    }

    /// The buffered commands, in order.
    pub closed spec fn cmds(&self) -> Seq<TclCommand> {
        self.list@
    }

    pub fn new(bin: &str) -> (r: Self)
        ensures
            r.bin_spec() == bin@,
            r.cmds() == Seq::<TclCommand>::empty(),
    {
        Pipeline { bin: bin.to_owned(), list: Vec::new() }
    }

    /// Appends one command to the buffer.
    pub fn push(&mut self, tcl: TclCommand)
        ensures
            final(self).bin_spec() == old(self).bin_spec(),
            final(self).cmds() == old(self).cmds().push(tcl),
    {
        self.list.push(tcl);
    }

    /// The shell executable this buffer will be submitted to.
    pub fn bin(&self) -> (r: &String)
        ensures
            r@ == self.bin_spec(),
    {
        &self.bin
    }

    /// Serializes the whole buffer into the single byte stream the shell
    /// consumes, consuming the buffer.
    pub fn script(self) -> (r: String)
        ensures
            r@ == script_text(self.cmds()),
    {
        let mut out = String::new();
        let mut i: usize = 0;
        while i < self.list.len()
            invariant
                i <= self.list@.len(),
                out@ == script_text(self.list@.take(i as int)),
            decreases self.list@.len() - i,
        {
            let line = self.list[i].serialize();
            out.append(line.as_str());
            out.append(";");
            proof {
                assert(self.list@.take(i + 1).drop_last() =~= self.list@.take(i as int));
                assert(self.list@.take(i + 1).last() == self.list@[i as int]);
            }
            i = i + 1;
        }
        proof {
            assert(self.list@.take(self.list@.len() as int) =~= self.list@);
        }
        out
    }

    /// Compiles a project with the batched option command: device
    /// selection, one file-registration command per tag, then a single
    /// `set_option` command carrying every option as a repeated flag.
    ///
    /// Fails with the first path that does not resolve; commands already
    /// appended for earlier stages stay in the buffer, and no partial
    /// file-registration command is ever appended.
    #[verifier::loop_isolation(false)]
    pub fn configure(&mut self, project: &Project, resolver: &Resolver) -> (r: Result<
        (),
        EvaluationError,
    >)
        ensures
            final(self).bin_spec() == old(self).bin_spec(),
            (r is Ok) <==> (all_resolve(resolver@, include_paths(project.hdl)) && files_resolve(
                resolver@,
                project.files@,
            )),
            final(self).cmds().len() > old(self).cmds().len(),
            final(self).cmds().take(old(self).cmds().len() as int) == old(self).cmds(),
            is_set_device(
                final(self).cmds()[old(self).cmds().len() as int],
                project.device.family@,
                project.device.part@,
            ),
            !all_resolve(resolver@, include_paths(project.hdl)) ==> ({
                &&& final(self).cmds().len() == old(self).cmds().len() + 1
                &&& (r matches Err(EvaluationError::Io(p)) && p@ == first_unresolved(
                    resolver@,
                    include_paths(project.hdl),
                ))
            }),
            (all_resolve(resolver@, include_paths(project.hdl)) && !files_resolve(
                resolver@,
                project.files@,
            )) ==> (exists|k: int|
                #![trigger files_failed_at(resolver@, project.files@, k)]
                {
                    &&& files_failed_at(resolver@, project.files@, k)
                    &&& final(self).cmds().len() == old(self).cmds().len() + 1 + k
                    &&& file_cmds_match(
                        final(self).cmds().skip(old(self).cmds().len() as int + 1),
                        resolver@,
                        project.files@.take(k),
                    )
                    &&& (r matches Err(EvaluationError::Io(p)) && p@ == first_unresolved(
                        resolver@,
                        project.files@[k].1.paths(),
                    ))
                }),
            r is Ok ==> ({
                &&& final(self).cmds().len() == old(self).cmds().len() + 2 + project.files@.len()
                &&& file_cmds_match(
                    final(self).cmds().subrange(
                        old(self).cmds().len() as int + 1,
                        old(self).cmds().len() as int + 1 + project.files@.len(),
                    ),
                    resolver@,
                    project.files@,
                )
                &&& is_set_options(
                    final(self).cmds().last(),
                    configure_option_flags(*project, resolver@),
                )
            }),
    {
        let ghost m = resolver@;
        let ghost base = self.cmds();
        self.push(
            SetDevice {
                family: project.device.family.clone(),
                part: project.device.part.clone(),
            }.into_command(),
        );

        let mut options = SetOptions::default();
        options.push(hdl_std_option(&project.hdl.standard));
        proof {
            assert(options_flags(options.0@) =~= seq![hdl_std_flag(project.hdl.standard@)]);
        }

        match &project.hdl.include_dirs {
            Some(dirs) => {
                match resolver.resolve_list(dirs) {
                    Ok(resolved) => {
                        options.push(IncludePath(join_semicolon(&resolved)).into_option());
                        proof {
                            assert(options_flags(options.0@) =~= seq![
                                hdl_std_flag(project.hdl.standard@),
                            ] + include_flags(*project, m));
                        }
                    },
                    Err(p) => {
                        proof {
                            assert(self.cmds().take(base.len() as int) =~= base);
                        }
                        return Err(EvaluationError::Io(p));
                    },
                }
            },
            None => {
                proof {
                    assert(options_flags(options.0@) =~= seq![
                        hdl_std_flag(project.hdl.standard@),
                    ] + include_flags(*project, m));
                }
            },
        }

        let top = match &project.hdl.top {
            Some(t) => t.clone(),
            None => "top".to_owned(),
        };
        options.push(TopModule(top).into_option());
        proof {
            assert(options_flags(options.0@) =~= seq![hdl_std_flag(project.hdl.standard@)]
                + include_flags(*project, m) + seq![("top_module"@, top_text(project.hdl))]);
        }

        match &project.pnr {
            Some(pnr) => {
                let place = match &pnr.place_mode {
                    Some(v) => *v,
                    None => 0,
                };
                let route = match &pnr.route_mode {
                    Some(v) => *v,
                    None => 0,
                };
                let replicate = match &pnr.replicate {
                    Some(b) => *b,
                    None => false,
                };
                options.push(PlaceOption(place).into_option());
                options.push(RouteOption(route).into_option());
                options.push(ReplicateResources(replicate).into_option());
            },
            None => {},
        }
        proof {
            assert(options_flags(options.0@) =~= seq![hdl_std_flag(project.hdl.standard@)]
                + include_flags(*project, m) + seq![("top_module"@, top_text(project.hdl))]
                + pnr_section(*project));
        }

        match &project.bitstream {
            Some(bitstream) => {
                let compress = match &bitstream.compress {
                    Some(b) => *b,
                    None => false,
                };
                options.push(BitstreamCompress(compress).into_option());
            },
            None => {},
        }
        proof {
            assert(options_flags(options.0@) =~= configure_option_flags(*project, m));
        }

        let mut i: usize = 0;
        while i < project.files.len()
            invariant
                i <= project.files@.len(),
                self.bin_spec() == old(self).bin_spec(),
                self.cmds().len() == base.len() + 1 + i,
                self.cmds().take(base.len() as int) == base,
                is_set_device(
                    self.cmds()[base.len() as int],
                    project.device.family@,
                    project.device.part@,
                ),
                file_cmds_match(self.cmds().skip(base.len() as int + 1), m, project.files@.take(i as int)),
                forall|j: int|
                    0 <= j < i ==> all_resolve(m, (#[trigger] project.files@[j]).1.paths()),
            decreases project.files@.len() - i,
        {
            let tag = project.files[i].0.clone();
            let paths_vec = project.files[i].1.to_vec();
            match resolver.resolve_list(&paths_vec) {
                Ok(resolved) => {
                    let ghost before = self.cmds();
                    self.push(AddFiles { filetype: tag, files: resolved }.into_command());
                    proof {
                        assert(self.cmds().take(base.len() as int) =~= base);
                        assert(self.cmds().skip(base.len() as int + 1) =~= before.skip(
                            base.len() as int + 1,
                        ).push(self.cmds().last()));
                        assert(project.files@.take(i + 1).drop_last() =~= project.files@.take(
                            i as int,
                        ));
                    }
                    i = i + 1;
                },
                Err(p) => {
                    proof {
                        assert(files_failed_at(m, project.files@, i as int));
                    }
                    return Err(EvaluationError::Io(p));
                },
            }
        }
        proof {
            assert(project.files@.take(project.files@.len() as int) =~= project.files@);
        }
        let ghost before_options = self.cmds();
        self.push(options.into_command());
        proof {
            assert(self.cmds().take(base.len() as int) =~= base);
            assert(self.cmds().subrange(base.len() as int + 1, base.len() as int + 1 + project.files@.len())
                =~= before_options.skip(base.len() as int + 1));
        }
        Ok(())
    }

    /// Compiles a project in the earlier, unbatched form: device
    /// selection, one `set_option` command for the HDL standard, one for
    /// the top module, then one file-registration command per tag.
    ///
    /// Fails with the first path that does not resolve; commands already
    /// appended stay in the buffer.
    #[verifier::loop_isolation(false)]
    pub fn evaluate(&mut self, project: &Project, resolver: &Resolver) -> (r: Result<
        (),
        EvaluationError,
    >)
        ensures
            final(self).bin_spec() == old(self).bin_spec(),
            (r is Ok) <==> files_resolve(resolver@, project.files@),
            final(self).cmds().len() >= old(self).cmds().len() + 3,
            final(self).cmds().take(old(self).cmds().len() as int) == old(self).cmds(),
            is_set_device(
                final(self).cmds()[old(self).cmds().len() as int],
                project.device.family@,
                project.device.part@,
            ),
            is_set_options(
                final(self).cmds()[old(self).cmds().len() as int + 1],
                seq![hdl_std_flag(project.hdl.standard@)],
            ),
            is_set_options(
                final(self).cmds()[old(self).cmds().len() as int + 2],
                seq![("top_module"@, top_text(project.hdl))],
            ),
            r is Ok ==> ({
                &&& final(self).cmds().len() == old(self).cmds().len() + 3 + project.files@.len()
                &&& file_cmds_match(
                    final(self).cmds().skip(old(self).cmds().len() as int + 3),
                    resolver@,
                    project.files@,
                )
            }),
            !files_resolve(resolver@, project.files@) ==> (exists|k: int|
                #![trigger files_failed_at(resolver@, project.files@, k)]
                {
                    &&& files_failed_at(resolver@, project.files@, k)
                    &&& final(self).cmds().len() == old(self).cmds().len() + 3 + k
                    &&& file_cmds_match(
                        final(self).cmds().skip(old(self).cmds().len() as int + 3),
                        resolver@,
                        project.files@.take(k),
                    )
                    &&& (r matches Err(EvaluationError::Io(p)) && p@ == first_unresolved(
                        resolver@,
                        project.files@[k].1.paths(),
                    ))
                }),
    {
        let ghost m = resolver@;
        let ghost base = self.cmds();
        self.push(
            SetDevice {
                family: project.device.family.clone(),
                part: project.device.part.clone(),
            }.into_command(),
        );

        let key = if crate::text::str_starts_with(project.hdl.standard.as_str(), "vhdl") {
            "vhdl_std"
        } else {
            "verilog_std"
        };
        self.push(
            SetOption {
                name: key.to_owned(),
                value: project.hdl.standard.clone(),
            }.into_command(),
        );

        let top = match &project.hdl.top {
            Some(t) => t.clone(),
            None => "top".to_owned(),
        };
        self.push(SetOption { name: "top_module".to_owned(), value: top }.into_command());
        proof {
            assert(self.cmds().take(base.len() as int) =~= base);
            assert(self.cmds()[base.len() as int + 1].flags_spec() =~= seq![
                hdl_std_flag(project.hdl.standard@),
            ]);
            assert(self.cmds()[base.len() as int + 2].flags_spec() =~= seq![
                ("top_module"@, top_text(project.hdl)),
            ]);
        }

        let mut i: usize = 0;
        while i < project.files.len()
            invariant
                i <= project.files@.len(),
                self.bin_spec() == old(self).bin_spec(),
                self.cmds().len() == base.len() + 3 + i,
                self.cmds().take(base.len() as int) == base,
                is_set_device(
                    self.cmds()[base.len() as int],
                    project.device.family@,
                    project.device.part@,
                ),
                is_set_options(
                    self.cmds()[base.len() as int + 1],
                    seq![hdl_std_flag(project.hdl.standard@)],
                ),
                is_set_options(
                    self.cmds()[base.len() as int + 2],
                    seq![("top_module"@, top_text(project.hdl))],
                ),
                file_cmds_match(self.cmds().skip(base.len() as int + 3), m, project.files@.take(i as int)),
                forall|j: int|
                    0 <= j < i ==> all_resolve(m, (#[trigger] project.files@[j]).1.paths()),
            decreases project.files@.len() - i,
        {
            let tag = project.files[i].0.clone();
            let paths_vec = project.files[i].1.to_vec();
            match resolver.resolve_list(&paths_vec) {
                Ok(resolved) => {
                    let ghost before = self.cmds();
                    self.push(AddFiles { filetype: tag, files: resolved }.into_command());
                    proof {
                        assert(self.cmds().take(base.len() as int) =~= base);
                        assert(self.cmds().skip(base.len() as int + 3) =~= before.skip(
                            base.len() as int + 3,
                        ).push(self.cmds().last()));
                        assert(project.files@.take(i + 1).drop_last() =~= project.files@.take(
                            i as int,
                        ));
                    }
                    i = i + 1;
                },
                Err(p) => {
                    proof {
                        assert(files_failed_at(m, project.files@, i as int));
                    }
                    return Err(EvaluationError::Io(p));
                },
            }
        }
        proof {
            assert(project.files@.take(project.files@.len() as int) =~= project.files@);
        }
        Ok(())
    }
}

} // verus!
