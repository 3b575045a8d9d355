//! The device-programmer side: merging a project's base programmer
//! arguments with a named preset into a flat argument map, and turning
//! that map into the `--key=value` invocation of the programmer
//! executable.
//!
//! The merge recognizes exactly two argument names from configuration: a
//! key `op` is renamed to `run`, a key `fs` has its value canonicalized
//! through the caller's [`Resolver`], and every other key is silently
//! dropped — an explicit allow-list, stated by [`arg_step`].  Preset
//! values override base values because the preset is merged second.  The
//! resolver always injects a `device` entry from the project's device
//! family last.
//!
//! The argument set is held as an insertion-ordered list with unique
//! keys, so one run's invocation is deterministic; contracts speak of its
//! map view, since the protocol attaches no meaning to the order.

use vstd::prelude::*;
use vstd::pervasive::VecAdditionalExecFns;
use vstd::string::StringExecFns;
use crate::project::{ProgrammerPreset, Project};
use crate::resolver::Resolver;
use crate::text::str_eq;

verus! {

/// Why resolving the programmer arguments failed.
#[derive(Debug)]
pub enum EvaluationError {
    /// A bitstream path could not be resolved; carries the path as
    /// written.
    Io(String),
    /// The named preset does not exist; carries the name.
    NoSuchPreset(String),
}

impl EvaluationError {
    /// A short human-readable description of the failure.
    pub fn message(&self) -> (r: String)
        ensures
            self matches EvaluationError::Io(p) ==> r@ == "Failed to resolve path: "@ + p@,
            self matches EvaluationError::NoSuchPreset(n) ==> r@ == "No such preset: "@ + n@,
    {
        match self {
            EvaluationError::Io(p) => {
                let mut r = "Failed to resolve path: ".to_owned();
                r.append(p.as_str());
                r
            },
            EvaluationError::NoSuchPreset(n) => {
                let mut r = "No such preset: ".to_owned();
                r.append(n.as_str());
                r
            },
        }
    }
}

/// Why running the programmer failed.
#[derive(Debug)]
pub enum ProgrammerError {
    /// The programmer executable could not be spawned; carries the
    /// reason.
    Spawn(String),
    /// The programmer exited with a non-zero status.
    Failed,
    /// Writing to or waiting on the spawned process failed.
    Io(String),
}

impl ProgrammerError {
    /// A short human-readable description of the failure.
    pub fn message(&self) -> (r: String)
        ensures
            self matches ProgrammerError::Spawn(e) ==> r@ == "Failed to spawn programmer: "@
                + e@,
            self matches ProgrammerError::Failed ==> r@ == "Programmer exited with no success"@,
            self matches ProgrammerError::Io(e) ==> r@ == "Programmer I/O error: "@ + e@,
    {
        match self {
            ProgrammerError::Spawn(e) => {
                let mut r = "Failed to spawn programmer: ".to_owned();
                r.append(e.as_str());
                r
            },
            ProgrammerError::Failed => "Programmer exited with no success".to_owned(),
            ProgrammerError::Io(e) => {
                let mut r = "Programmer I/O error: ".to_owned();
                r.append(e.as_str());
                r
            },
        }
    }
}

/// The map an ordered list of key/value pairs denotes; later entries
/// override earlier ones.
pub open spec fn pairs_map(pairs: Seq<(Seq<char>, Seq<char>)>) -> Map<Seq<char>, Seq<char>>
    decreases pairs.len(),
{
    if pairs.len() == 0 {
        Map::empty()
    } else {
        pairs_map(pairs.drop_last()).insert(pairs.last().0, pairs.last().1)
    }
}

/// No two entries share a key.
pub open spec fn unique_keys(pairs: Seq<(Seq<char>, Seq<char>)>) -> bool {
    forall|i: int, j: int| 0 <= i < j < pairs.len() ==> (#[trigger] pairs[i]).0 != (#[trigger] pairs[j]).0
}

/// What merging one source pair into the argument map `m` does: `op`
/// becomes `run`, `fs` is inserted with its canonical path from `rm`,
/// and every other key is dropped.
pub open spec fn arg_step(
    m: Map<Seq<char>, Seq<char>>,
    key: Seq<char>,
    value: Seq<char>,
    rm: Map<Seq<char>, Seq<char>>,
) -> Map<Seq<char>, Seq<char>> {
    if key == "op"@ {
        m.insert("run"@, value)
    } else if key == "fs"@ {
        m.insert("fs"@, rm[value])
    } else {
        m
    }
}

/// Merges the pairs into `m` in order, applying [`arg_step`] to each.
pub open spec fn merge_args(
    m: Map<Seq<char>, Seq<char>>,
    pairs: Seq<(Seq<char>, Seq<char>)>,
    rm: Map<Seq<char>, Seq<char>>,
) -> Map<Seq<char>, Seq<char>>
    decreases pairs.len(),
{
    if pairs.len() == 0 {
        m
    } else {
        arg_step(merge_args(m, pairs.drop_last(), rm), pairs.last().0, pairs.last().1, rm)
    }
}

/// True when every `fs` value among the pairs resolves, so the merge can
/// run to completion.
pub open spec fn merge_ok(pairs: Seq<(Seq<char>, Seq<char>)>, rm: Map<Seq<char>, Seq<char>>) -> bool {
    forall|i: int|
        0 <= i < pairs.len() && (#[trigger] pairs[i]).0 == "fs"@ ==> rm.contains_key(pairs[i].1)
}

/// Pair `k` is the first whose `fs` value does not resolve.
pub open spec fn merge_failed_at(
    pairs: Seq<(Seq<char>, Seq<char>)>,
    rm: Map<Seq<char>, Seq<char>>,
    k: int,
) -> bool {
    &&& 0 <= k < pairs.len()
    &&& pairs[k].0 == "fs"@
    &&& !rm.contains_key(pairs[k].1)
    &&& forall|j: int|
        0 <= j < k && (#[trigger] pairs[j]).0 == "fs"@ ==> rm.contains_key(pairs[j].1)
}

/// The preset a name picks: the last entry with that name, or nothing.
pub open spec fn preset_lookup(
    presets: Seq<(String, ProgrammerPreset)>,
    name: Seq<char>,
) -> Option<ProgrammerPreset>
    decreases presets.len(),
{
    if presets.len() == 0 {
        None
    } else if presets.last().0@ == name {
        Some(presets.last().1)
    } else {
        preset_lookup(presets.drop_last(), name)
    }
}

/// The merge introduces no key of its own invention: a key that is
/// neither `run` nor `fs` and was not in the map before is not in it
/// after — unrecognized configuration keys are dropped, never copied.
pub proof fn lemma_merge_only_known_keys(
    m: Map<Seq<char>, Seq<char>>,
    pairs: Seq<(Seq<char>, Seq<char>)>,
    rm: Map<Seq<char>, Seq<char>>,
    key: Seq<char>,
)
    requires
        !m.contains_key(key),
        key != "run"@,
        key != "fs"@,
    ensures
        !merge_args(m, pairs, rm).contains_key(key),
    decreases pairs.len(),
{
    if pairs.len() > 0 {
        lemma_merge_only_known_keys(m, pairs.drop_last(), rm, key);
    }
}

/// Updating the value at one position of a unique-keyed pair list is, at
/// the map level, one insertion.
proof fn lemma_pairs_map_update(pairs: Seq<(Seq<char>, Seq<char>)>, i: int, v: Seq<char>)
    requires
        unique_keys(pairs),
        0 <= i < pairs.len(),
    ensures
        pairs_map(pairs.update(i, (pairs[i].0, v))) == pairs_map(pairs).insert(pairs[i].0, v),
    decreases pairs.len(),
{
    let t = pairs.update(i, (pairs[i].0, v));
    if i == pairs.len() - 1 {
        assert(t.drop_last() =~= pairs.drop_last());
        assert(pairs_map(t) =~= pairs_map(pairs).insert(pairs[i].0, v));
    } else {
        assert(t.drop_last() =~= pairs.drop_last().update(i, (pairs[i].0, v)));
        lemma_pairs_map_update(pairs.drop_last(), i, v);
        assert(pairs[i].0 != pairs.last().0);
        assert(pairs_map(t) =~= pairs_map(pairs).insert(pairs[i].0, v));
    }
}

/// The programmer invocation being assembled: the executable's path and
/// the resolved argument set.
#[derive(Debug)]
pub struct Programmer {
    bin: String,
    args: Vec<(String, String)>,
}

impl Programmer {
    /// The characters of the programmer executable's path.
    pub closed spec fn bin_spec(&self) -> Seq<char> {
        self.bin@
    }

    /// The argument entries, in first-insertion order.
    pub closed spec fn args_list(&self) -> Seq<(Seq<char>, Seq<char>)> {
        self.args.deep_view()
    }

    /// The argument set as a map.
    pub open spec fn args_map(&self) -> Map<Seq<char>, Seq<char>> {
        pairs_map(self.args_list())
    }

    /// The argument list never holds a key twice; constructors establish
    /// this and every method preserves it.
    pub open spec fn wf(&self) -> bool {
        unique_keys(self.args_list())
    }

    pub fn new(bin: &str) -> (r: Self)
        ensures
            r.bin_spec() == bin@,
            r.args_list() == Seq::<(Seq<char>, Seq<char>)>::empty(),
            r.args_map() == Map::<Seq<char>, Seq<char>>::empty(),
            r.wf(),
    {
        let r = Programmer { bin: bin.to_owned(), args: Vec::new() };
        proof {
            assert(r.args_list() =~= Seq::<(Seq<char>, Seq<char>)>::empty());
            assert(r.args_map() =~= Map::<Seq<char>, Seq<char>>::empty());
        }
        r
    }

    /// Puts one argument into the set: overwrites the value in place when
    /// the key exists, appends otherwise.
    #[verifier::loop_isolation(false)]
    fn insert_arg(&mut self, key: &str, value: String)
        requires
            old(self).wf(),
        ensures
            final(self).wf(),
            final(self).bin_spec() == old(self).bin_spec(),
            final(self).args_map() == old(self).args_map().insert(key@, value@),
    {
        let ghost orig = self.args.deep_view();
        let mut i: usize = 0;
        while i < self.args.len()
            invariant
                i <= self.args@.len(),
                forall|j: int| 0 <= j < i ==> (#[trigger] self.args.deep_view()[j]).0 != key@,
                self.args.deep_view() == orig,
                self.bin_spec() == old(self).bin_spec(),
                old(self).wf(),
                self.args@.len() == orig.len(),
            decreases self.args@.len() - i,
        {
            if str_eq(self.args[i].0.as_str(), key) {
                let k = self.args[i].0.clone();
                self.args.set(i, (k, value));
                proof {
                    assert(self.args.deep_view() =~= orig.update(i as int, (key@, value@)));
                    assert(orig[i as int].0 == key@);
                    assert(orig.update(i as int, (key@, value@)) =~= orig.update(
                        i as int,
                        (orig[i as int].0, value@),
                    ));
                    lemma_pairs_map_update(orig, i as int, value@);
                    assert(unique_keys(self.args.deep_view()));
                }
                return ;
            }
            i = i + 1;
        }
        self.args.push((key.to_owned(), value));
        proof {
            assert(self.args.deep_view() =~= orig.push((key@, value@)));
            assert(self.args.deep_view().drop_last() =~= orig);
            assert(unique_keys(self.args.deep_view()));
        }
    }

    /// Merges one source pair list into the argument set, in order,
    /// resolving `fs` values through `resolver`.  Fails with the first
    /// `fs` value that does not resolve; pairs before it are merged.
    #[verifier::loop_isolation(false)]
    fn merge_pairs(&mut self, pairs: &Vec<(String, String)>, resolver: &Resolver) -> (r: Result<
        (),
        String,
    >)
        requires
            old(self).wf(),
        ensures
            final(self).wf(),
            final(self).bin_spec() == old(self).bin_spec(),
            (r is Ok) <==> merge_ok(pairs.deep_view(), resolver@),
            r is Ok ==> final(self).args_map() == merge_args(
                old(self).args_map(),
                pairs.deep_view(),
                resolver@,
            ),
            r matches Err(p) ==> (exists|k: int|
                #![trigger merge_failed_at(pairs.deep_view(), resolver@, k)]
                {
                    &&& merge_failed_at(pairs.deep_view(), resolver@, k)
                    &&& p@ == pairs.deep_view()[k].1
                    &&& final(self).args_map() == merge_args(
                        old(self).args_map(),
                        pairs.deep_view().take(k),
                        resolver@,
                    )
                }),
    {
        let ghost pv = pairs.deep_view();
        let ghost rm = resolver@;
        let ghost base = self.args_map();
        proof {
            assert(pv.len() == pairs@.len());
        }
        let mut i: usize = 0;
        while i < pairs.len()
            invariant
                i <= pairs@.len(),
                self.wf(),
                self.bin_spec() == old(self).bin_spec(),
                self.args_map() == merge_args(base, pv.take(i as int), rm),
                forall|j: int|
                    0 <= j < i && (#[trigger] pv[j]).0 == "fs"@ ==> rm.contains_key(pv[j].1),
            decreases pairs@.len() - i,
        {
            proof {
                assert(pv.take(i + 1).drop_last() =~= pv.take(i as int));
                assert(pv.take(i + 1).last() == pv[i as int]);
                assert(pv[i as int] == (pairs@[i as int].0@, pairs@[i as int].1@));
                reveal_strlit("op");
                reveal_strlit("fs");
                assert("op"@[0] == 'o');
                assert("fs"@[0] == 'f');
                assert("op"@ != "fs"@);
            }
            let key = &pairs[i].0;
            let value = &pairs[i].1;
            if str_eq(key.as_str(), "op") {
                self.insert_arg("run", value.clone());
            } else if str_eq(key.as_str(), "fs") {
                match resolver.resolve(value.as_str()) {
                    Some(canonical) => {
                        self.insert_arg("fs", canonical);
                    },
                    None => {
                        proof {
                            assert(merge_failed_at(pv, rm, i as int));
                        }
                        return Err(value.clone());
                    },
                }
            }
            i = i + 1;
        }
        proof {
            assert(pv.take(pv.len() as int) =~= pv);
        }
        Ok(())
    }

    /// Resolves the final argument set for one flash invocation: merges
    /// the project's base programmer arguments, then the named preset's
    /// (so preset values win), then injects `device` from the project's
    /// device family.
    ///
    /// Fails with a no-such-preset error when the name is absent, and
    /// with a path error when an `fs` value does not resolve; the base
    /// arguments are merged before the preset is looked up, so a bad base
    /// path is reported first.
    pub fn evaluate(&mut self, project: &Project, preset: &str, resolver: &Resolver) -> (r:
        Result<(), EvaluationError>)
        requires
            old(self).wf(),
        ensures
            final(self).wf(),
            final(self).bin_spec() == old(self).bin_spec(),
            (r is Ok) <==> ({
                &&& merge_ok(project.programmer.args.deep_view(), resolver@)
                &&& preset_lookup(project.programmer.preset@, preset@) is Some
                &&& merge_ok(
                    preset_lookup(project.programmer.preset@, preset@).unwrap().args.deep_view(),
                    resolver@,
                )
            }),
            r is Ok ==> final(self).args_map() == merge_args(
                merge_args(old(self).args_map(), project.programmer.args.deep_view(), resolver@),
                preset_lookup(project.programmer.preset@, preset@).unwrap().args.deep_view(),
                resolver@,
            ).insert("device"@, project.device.family@),
            !merge_ok(project.programmer.args.deep_view(), resolver@) ==> (exists|k: int|
                #![trigger merge_failed_at(project.programmer.args.deep_view(), resolver@, k)]
                {
                    &&& merge_failed_at(project.programmer.args.deep_view(), resolver@, k)
                    &&& (r matches Err(EvaluationError::Io(p)) && p@
                        == project.programmer.args.deep_view()[k].1)
                    &&& final(self).args_map() == merge_args(
                        old(self).args_map(),
                        project.programmer.args.deep_view().take(k),
                        resolver@,
                    )
                }),
            (merge_ok(project.programmer.args.deep_view(), resolver@) && preset_lookup(
                project.programmer.preset@,
                preset@,
            ) is None) ==> ({
                &&& (r matches Err(EvaluationError::NoSuchPreset(n)) && n@ == preset@)
                &&& final(self).args_map() == merge_args(
                    old(self).args_map(),
                    project.programmer.args.deep_view(),
                    resolver@,
                )
            }),
            (merge_ok(project.programmer.args.deep_view(), resolver@) && preset_lookup(
                project.programmer.preset@,
                preset@,
            ) is Some && !merge_ok(
                preset_lookup(project.programmer.preset@, preset@).unwrap().args.deep_view(),
                resolver@,
            )) ==> (exists|k: int|
                #![trigger merge_failed_at(preset_lookup(project.programmer.preset@, preset@).unwrap().args.deep_view(), resolver@, k)]
                {
                    let ps = preset_lookup(project.programmer.preset@, preset@).unwrap();
                    &&& merge_failed_at(ps.args.deep_view(), resolver@, k)
                    &&& (r matches Err(EvaluationError::Io(p)) && p@ == ps.args.deep_view()[k].1)
                    &&& final(self).args_map() == merge_args(
                        merge_args(
                            old(self).args_map(),
                            project.programmer.args.deep_view(),
                            resolver@,
                        ),
                        ps.args.deep_view().take(k),
                        resolver@,
                    )
                }),
    {
        match self.merge_pairs(&project.programmer.args, resolver) {
            Ok(_) => {},
            Err(p) => {
                return Err(EvaluationError::Io(p));
            },
        }
        let chosen = match find_preset(&project.programmer.preset, preset) {
            Some(ps) => ps,
            None => {
                return Err(EvaluationError::NoSuchPreset(preset.to_owned()));
            },
        };
        match self.merge_pairs(&chosen.args, resolver) {
            Ok(_) => {},
            Err(p) => {
                return Err(EvaluationError::Io(p));
            },
        }
        self.insert_arg("device", project.device.family.clone());
        Ok(())
    }

    /// The process arguments of one programmer invocation: `--key=value`
    /// for each entry of the argument set, in the set's order.
    #[verifier::loop_isolation(false)]
    pub fn command_line(&self) -> (r: Vec<String>)
        ensures
            r@.len() == self.args_list().len(),
            forall|i: int|
                0 <= i < r@.len() ==> r.deep_view()[i] == "--"@ + (
                #[trigger] self.args_list()[i]).0 + "="@ + self.args_list()[i].1,
    {
        let mut out: Vec<String> = Vec::new();
        let mut i: usize = 0;
        while i < self.args.len()
            invariant
                i <= self.args@.len(),
                out@.len() == i,
                forall|j: int|
                    0 <= j < i ==> out.deep_view()[j] == "--"@ + (
                    #[trigger] self.args.deep_view()[j]).0 + "="@ + self.args.deep_view()[j].1,
            decreases self.args@.len() - i,
        {
            let mut line = "--".to_owned();
            line.append(self.args[i].0.as_str());
            line.append("=");
            line.append(self.args[i].1.as_str());
            out.push(line);
            i = i + 1;
        }
        out
    }

    /// The programmer executable this argument set will be handed to.
    pub fn bin(&self) -> (r: &String)
        ensures
            r@ == self.bin_spec(),
    {
        &self.bin
    }
}

/// Finds the preset a name picks, as [`preset_lookup`] states.
fn find_preset<'a>(presets: &'a Vec<(String, ProgrammerPreset)>, name: &str) -> (r: Option<
    &'a ProgrammerPreset,
>)
    ensures
        (r is Some) <==> preset_lookup(presets@, name@) is Some,
        r matches Some(ps) ==> preset_lookup(presets@, name@) == Some(*ps),
{
    let mut i: usize = presets.len();
    proof {
        assert(presets@.take(presets@.len() as int) =~= presets@);
    }
    while i > 0
        invariant
            i <= presets@.len(),
            preset_lookup(presets@, name@) == preset_lookup(presets@.take(i as int), name@),
        decreases i,
    {
        i = i - 1;
        proof {
            assert(presets@.take(i + 1).drop_last() =~= presets@.take(i as int));
            assert(presets@.take(i + 1).last() == presets@[i as int]);
        }
        if str_eq(presets[i].0.as_str(), name) {
            return Some(&presets[i].1);
        }
    }
    proof {
        assert(presets@.take(0) =~= Seq::<(String, ProgrammerPreset)>::empty());
    }
    None
}

/// The operations the programmer executable understands; each has a
/// numeric code and most have a spelled-out menu name.
#[derive(Debug, Copy, Clone, PartialEq, Eq, Default)]
pub enum Op {
    #[default]
    ReadDeviceCodes,
    Reprogram,
    SRAMProgram,
    SRAMRead,
    SRAMProgramAndVerify,
    EmbFlashEraseProgram,
    EmbFlashEraseProgramVerify,
    EmbFlashEraseOnly,
    ExFlashEraseProgram,
    ExFlashEraseProgramVerify,
    ExFlashBulkErase,
    ExFlashVerify,
    ExFlashEraseProgramInBscan,
    ExFlashEraseProgramVerifyInBscan,
    ExFlashBulkEraseInBscan,
    ExFlashVerifyInBscan,
    SRAMProgramJtag1149,
    SRAMProgramVerifyJtag1149,
    BsdlRead,
    EmbFlash2ndEraseProgram,
    EmbFlash2ndEraseProgramVerify,
    EmbFlash2ndEraseOnly,
    ConnectToJtagOfMCU,
    SRAMErase,
    AuthenticationCodeEraseProgramVerify,
    AuthenticationCodeRead,
    FirmwareEraseProgramSecurely,
    FirmwareEraseOnly,
    FirmwareEraseProgram,
    FirmwareEraseProgramVerify,
    ExFlashCBinEraseProgram,
    ExFlashCBinEraseProgramVerify,
    MFGWriteIRef,
    CSRFileEraseProgramVerify,
    ExFlashEraseProgramThruGaoBridge,
    ExFlashEraseProgramVerifyThruGaoBridge,
    ExFlashCBinEraseProgramThruGaoBridge,
    ExFlashCBinEraseProgramVerifyThruGaoBridge,
    #[allow(non_camel_case_types)]
    DKGoAI_GW1NSR4C_QN48_V1_1,
    #[allow(non_camel_case_types)]
    DKGoAI_GW1NSR4C_QN48_V2_2,
    #[allow(non_camel_case_types)]
    DKGoAI_GW2AR18_QN88P_V1_1,
    SFlashEraseProgram,
    SFlashEraseProgramVerify,
    SFlashVerifyOnly,
    SFlashBulkErase,
    SFlashBackgroundEraseProgram,
    SFlashBackgroundEraseProgramVerify,
    SFlashEraseProgramVerifyThruGaoBridge,
    ExFlashDetectID,
    ExFlashBulkErase5A,
    ExFlashEraseProgram5A,
    ExFlashEraseProgramVerify5A,
    ExFlashCBinEraseProgram5A,
    ExFlashCBinEraseProgramVerify5A,
    I2CProgramSRAM,
    I2CProgramFlash,
    I2CEraseFlashOnly,
    I2CEraseFlashOnlyThruI2CSPI,
    I2CEraseProgramFlashThruI2CSPI,
    EBRRead,
    SFlashBackgroundEraseProgramVerifyThruGaoBridge,
    SFlashBulkEraseInBscan,
    SFlashEraseProgramInBscan,
    ExFlashVerify5A,
    ExFlashVerifyThruGaoBridge5A,
    ExFlashEraseProgramThruGaoBridge5A,
    ExFlashEraseProgramVerifyThruGaoBridge5A,
    EmbFlashBackgroundEraseProgram,
    EmbFlashBackgroundEraseProgramVerify,
    EmbFlashBackgroundEraseOnly,
    ReadUserCode,
    ReadStatusRegister,
    SetFlashQEFor9x18x,
    SetExFlashQEForGW5AT,
    ExFlashEraseProgramVerifyThruUARTIPSPI,
    SRAMReprogramThruUARTIPSPI,
}

/// The numeric code of each operation, as the `--run` argument writes
/// it.
pub open spec fn op_code(op: Op) -> u8 {
    match op {
        Op::ReadDeviceCodes => 0,
        Op::Reprogram => 1,
        Op::SRAMProgram => 2,
        Op::SRAMRead => 3,
        Op::SRAMProgramAndVerify => 4,
        Op::EmbFlashEraseProgram => 5,
        Op::EmbFlashEraseProgramVerify => 6,
        Op::EmbFlashEraseOnly => 7,
        Op::ExFlashEraseProgram => 8,
        Op::ExFlashEraseProgramVerify => 9,
        Op::ExFlashBulkErase => 10,
        Op::ExFlashVerify => 11,
        Op::ExFlashEraseProgramInBscan => 12,
        Op::ExFlashEraseProgramVerifyInBscan => 13,
        Op::ExFlashBulkEraseInBscan => 14,
        Op::ExFlashVerifyInBscan => 15,
        Op::SRAMProgramJtag1149 => 16,
        Op::SRAMProgramVerifyJtag1149 => 17,
        Op::BsdlRead => 18,
        Op::EmbFlash2ndEraseProgram => 19,
        Op::EmbFlash2ndEraseProgramVerify => 20,
        Op::EmbFlash2ndEraseOnly => 21,
        Op::ConnectToJtagOfMCU => 23,
        Op::SRAMErase => 24,
        Op::AuthenticationCodeEraseProgramVerify => 25,
        Op::AuthenticationCodeRead => 26,
        Op::FirmwareEraseProgramSecurely => 27,
        Op::FirmwareEraseOnly => 28,
        Op::FirmwareEraseProgram => 29,
        Op::FirmwareEraseProgramVerify => 30,
        Op::ExFlashCBinEraseProgram => 31,
        Op::ExFlashCBinEraseProgramVerify => 32,
        Op::MFGWriteIRef => 34,
        Op::CSRFileEraseProgramVerify => 35,
        Op::ExFlashEraseProgramThruGaoBridge => 36,
        Op::ExFlashEraseProgramVerifyThruGaoBridge => 37,
        Op::ExFlashCBinEraseProgramThruGaoBridge => 38,
        Op::ExFlashCBinEraseProgramVerifyThruGaoBridge => 39,
        Op::DKGoAI_GW1NSR4C_QN48_V1_1 => 40,
        Op::DKGoAI_GW1NSR4C_QN48_V2_2 => 41,
        Op::DKGoAI_GW2AR18_QN88P_V1_1 => 42,
        Op::SFlashEraseProgram => 44,
        Op::SFlashEraseProgramVerify => 45,
        Op::SFlashVerifyOnly => 46,
        Op::SFlashBulkErase => 47,
        Op::SFlashBackgroundEraseProgram => 48,
        Op::SFlashBackgroundEraseProgramVerify => 49,
        Op::SFlashEraseProgramVerifyThruGaoBridge => 50,
        Op::ExFlashDetectID => 51,
        Op::ExFlashBulkErase5A => 52,
        Op::ExFlashEraseProgram5A => 53,
        Op::ExFlashEraseProgramVerify5A => 54,
        Op::ExFlashCBinEraseProgram5A => 55,
        Op::ExFlashCBinEraseProgramVerify5A => 56,
        Op::I2CProgramSRAM => 57,
        Op::I2CProgramFlash => 58,
        Op::I2CEraseFlashOnly => 59,
        Op::I2CEraseFlashOnlyThruI2CSPI => 60,
        Op::I2CEraseProgramFlashThruI2CSPI => 61,
        Op::EBRRead => 62,
        Op::SFlashBackgroundEraseProgramVerifyThruGaoBridge => 63,
        Op::SFlashBulkEraseInBscan => 64,
        Op::SFlashEraseProgramInBscan => 65,
        Op::ExFlashVerify5A => 66,
        Op::ExFlashVerifyThruGaoBridge5A => 67,
        Op::ExFlashEraseProgramThruGaoBridge5A => 68,
        Op::ExFlashEraseProgramVerifyThruGaoBridge5A => 69,
        Op::EmbFlashBackgroundEraseProgram => 70,
        Op::EmbFlashBackgroundEraseProgramVerify => 71,
        Op::EmbFlashBackgroundEraseOnly => 72,
        Op::ReadUserCode => 73,
        Op::ReadStatusRegister => 74,
        Op::SetFlashQEFor9x18x => 75,
        Op::SetExFlashQEForGW5AT => 76,
        Op::ExFlashEraseProgramVerifyThruUARTIPSPI => 77,
        Op::SRAMReprogramThruUARTIPSPI => 78,
    }
}

/// The operation a menu name denotes, or nothing for an unknown name.
pub open spec fn parse_op(s: Seq<char>) -> Option<Op> {
    if s == "Read Device Codes"@ {
        Some(Op::ReadDeviceCodes)
    } else
    if s == "Reprogram"@ {
        Some(Op::Reprogram)
    } else
    if s == "SRAM Program"@ {
        Some(Op::SRAMProgram)
    } else
    if s == "SRAM Read"@ {
        Some(Op::SRAMRead)
    } else
    if s == "SRAM Program and Verify"@ {
        Some(Op::SRAMProgramAndVerify)
    } else
    if s == "embFlash Erase,Program"@ {
        Some(Op::EmbFlashEraseProgram)
    } else
    if s == "embFlash Erase,Program,Verify"@ {
        Some(Op::EmbFlashEraseProgramVerify)
    } else
    if s == "embFlash Erase Only"@ {
        Some(Op::EmbFlashEraseOnly)
    } else
    if s == "exFlash Erase,Program"@ {
        Some(Op::ExFlashEraseProgram)
    } else
    if s == "exFlash Erase,Program,Verify"@ {
        Some(Op::ExFlashEraseProgramVerify)
    } else
    if s == "exFlash Bulk Erase"@ {
        Some(Op::ExFlashBulkErase)
    } else
    if s == "exFlash Verify"@ {
        Some(Op::ExFlashVerify)
    } else
    if s == "exFlash Erase,Program in bscan"@ {
        Some(Op::ExFlashEraseProgramInBscan)
    } else
    if s == "exFlash Erase,Program,Verify in bscan"@ {
        Some(Op::ExFlashEraseProgramVerifyInBscan)
    } else
    if s == "exFlash Bulk Erase in bscan"@ {
        Some(Op::ExFlashBulkEraseInBscan)
    } else
    if s == "exFlash Verify in bscan"@ {
        Some(Op::ExFlashVerifyInBscan)
    } else
    if s == "SRAM Program JTAG 1149"@ {
        Some(Op::SRAMProgramJtag1149)
    } else
    if s == "SRAM Program,Verify JTAG 1149"@ {
        Some(Op::SRAMProgramVerifyJtag1149)
    } else
    if s == "bsdl read"@ {
        Some(Op::BsdlRead)
    } else
    if s == "embFlash 2nd Erase,Program"@ {
        Some(Op::EmbFlash2ndEraseProgram)
    } else
    if s == "embFlash 2nd Erase,Program,Verify"@ {
        Some(Op::EmbFlash2ndEraseProgramVerify)
    } else
    if s == "embFlash 2nd Erase Only"@ {
        Some(Op::EmbFlash2ndEraseOnly)
    } else
    if s == "Connect to JTAG of MCU"@ {
        Some(Op::ConnectToJtagOfMCU)
    } else
    if s == "SRAM Erase"@ {
        Some(Op::SRAMErase)
    } else
    if s == "Authentication Code Erase,Program,Verify"@ {
        Some(Op::AuthenticationCodeEraseProgramVerify)
    } else
    if s == "Authentication Code Read"@ {
        Some(Op::AuthenticationCodeRead)
    } else
    if s == "Firmware Erase,Program Securely"@ {
        Some(Op::FirmwareEraseProgramSecurely)
    } else
    if s == "Firmware Erase Only"@ {
        Some(Op::FirmwareEraseOnly)
    } else
    if s == "Firmware Erase,Program"@ {
        Some(Op::FirmwareEraseProgram)
    } else
    if s == "Firmware Erase,Program,Verify"@ {
        Some(Op::FirmwareEraseProgramVerify)
    } else
    if s == "exFlash C Bin Erase,Program"@ {
        Some(Op::ExFlashCBinEraseProgram)
    } else
    if s == "exFlash C Bin Erase,Program,Verify"@ {
        Some(Op::ExFlashCBinEraseProgramVerify)
    } else
    if s == "MFG Write iRef"@ {
        Some(Op::MFGWriteIRef)
    } else
    if s == "CSR File Erase,Program,Verify"@ {
        Some(Op::CSRFileEraseProgramVerify)
    } else
    if s == "exFlash Erase,Program thru GAO-Bridge"@ {
        Some(Op::ExFlashEraseProgramThruGaoBridge)
    } else
    if s == "exFlash Erase,Program,Verify thru GAO-Bridge"@ {
        Some(Op::ExFlashEraseProgramVerifyThruGaoBridge)
    } else
    if s == "exFlash C Bin Erase,Program thru GAO-Bridge"@ {
        Some(Op::ExFlashCBinEraseProgramThruGaoBridge)
    } else
    if s == "exFlash C Bin Erase,Program,Verify thru GAO-Bridge"@ {
        Some(Op::ExFlashCBinEraseProgramVerifyThruGaoBridge)
    } else
    if s == "sFlash Erase,Program"@ {
        Some(Op::SFlashEraseProgram)
    } else
    if s == "sFlash Erase,Program,Verify"@ {
        Some(Op::SFlashEraseProgramVerify)
    } else
    if s == "sFlash Verify Only"@ {
        Some(Op::SFlashVerifyOnly)
    } else
    if s == "sFlash Bulk Erase"@ {
        Some(Op::SFlashBulkErase)
    } else
    if s == "sFlash Background Erase,Program"@ {
        Some(Op::SFlashBackgroundEraseProgram)
    } else
    if s == "sFlash Background Erase,Program,Verify"@ {
        Some(Op::SFlashBackgroundEraseProgramVerify)
    } else
    if s == "sFlash Erase,Program,Verify thru GAO-Bridge"@ {
        Some(Op::SFlashEraseProgramVerifyThruGaoBridge)
    } else
    if s == "exFlash Detect ID"@ {
        Some(Op::ExFlashDetectID)
    } else
    if s == "exFlash Bulk Erase 5A"@ {
        Some(Op::ExFlashBulkErase5A)
    } else
    if s == "exFlash Erase,Program 5A"@ {
        Some(Op::ExFlashEraseProgram5A)
    } else
    if s == "exFlash Erase,Program,Verify 5A"@ {
        Some(Op::ExFlashEraseProgramVerify5A)
    } else
    if s == "exFlash C Bin Erase,Program 5A"@ {
        Some(Op::ExFlashCBinEraseProgram5A)
    } else
    if s == "exFlash C Bin Erase,Program,Verify 5A"@ {
        Some(Op::ExFlashCBinEraseProgramVerify5A)
    } else
    if s == "I2C Program SRAM"@ {
        Some(Op::I2CProgramSRAM)
    } else
    if s == "I2C Program Flash"@ {
        Some(Op::I2CProgramFlash)
    } else
    if s == "I2C Erase Flash Only"@ {
        Some(Op::I2CEraseFlashOnly)
    } else
    if s == "I2C Erase Flash Only thru I2C-SPI"@ {
        Some(Op::I2CEraseFlashOnlyThruI2CSPI)
    } else
    if s == "I2C Erase,Program Flash thru I2C-SPI"@ {
        Some(Op::I2CEraseProgramFlashThruI2CSPI)
    } else
    if s == "EBR Read"@ {
        Some(Op::EBRRead)
    } else
    if s == "sFlash Background Erase,Program,Verify thru GAO-Bridge"@ {
        Some(Op::SFlashBackgroundEraseProgramVerifyThruGaoBridge)
    } else
    if s == "sFlash Bulk Erase in bscan"@ {
        Some(Op::SFlashBulkEraseInBscan)
    } else
    if s == "sFlash Erase,Program in bscan"@ {
        Some(Op::SFlashEraseProgramInBscan)
    } else
    if s == "exFlash Verify 5A"@ {
        Some(Op::ExFlashVerify5A)
    } else
    if s == "exFlash Verify thru GAO-Bridge 5A"@ {
        Some(Op::ExFlashVerifyThruGaoBridge5A)
    } else
    if s == "exFlash Erase,Program thru GAO-Bridge 5A"@ {
        Some(Op::ExFlashEraseProgramThruGaoBridge5A)
    } else
    if s == "exFlash Erase,Program,Verify thru GAO-Bridge 5A"@ {
        Some(Op::ExFlashEraseProgramVerifyThruGaoBridge5A)
    } else
    if s == "embFlash Background Erase,Program"@ {
        Some(Op::EmbFlashBackgroundEraseProgram)
    } else
    if s == "embFlash Background Erase,Program,Verify"@ {
        Some(Op::EmbFlashBackgroundEraseProgramVerify)
    } else
    if s == "embFlash Background Erase Only"@ {
        Some(Op::EmbFlashBackgroundEraseOnly)
    } else
    if s == "Read User Code"@ {
        Some(Op::ReadUserCode)
    } else
    if s == "Read Status Register"@ {
        Some(Op::ReadStatusRegister)
    } else
    if s == "Set Flash QE For 9x/18x"@ {
        Some(Op::SetFlashQEFor9x18x)
    } else
    if s == "Set ExFlash QE For GW5A(T)"@ {
        Some(Op::SetExFlashQEForGW5AT)
    } else
    if s == "exFlash Erase,Program,Verify thru UART-IP-SPI"@ {
        Some(Op::ExFlashEraseProgramVerifyThruUARTIPSPI)
    } else
    if s == "SRAM Reprogram thru UART-IP-SPI"@ {
        Some(Op::SRAMReprogramThruUARTIPSPI)
    } else {
        None
    }
}

impl Op {
    /// The numeric code of this operation.
    pub fn code(&self) -> (r: u8)
        ensures
            r == op_code(*self),
    {
        match self {
            Op::ReadDeviceCodes => 0,
            Op::Reprogram => 1,
            Op::SRAMProgram => 2,
            Op::SRAMRead => 3,
            Op::SRAMProgramAndVerify => 4,
            Op::EmbFlashEraseProgram => 5,
            Op::EmbFlashEraseProgramVerify => 6,
            Op::EmbFlashEraseOnly => 7,
            Op::ExFlashEraseProgram => 8,
            Op::ExFlashEraseProgramVerify => 9,
            Op::ExFlashBulkErase => 10,
            Op::ExFlashVerify => 11,
            Op::ExFlashEraseProgramInBscan => 12,
            Op::ExFlashEraseProgramVerifyInBscan => 13,
            Op::ExFlashBulkEraseInBscan => 14,
            Op::ExFlashVerifyInBscan => 15,
            Op::SRAMProgramJtag1149 => 16,
            Op::SRAMProgramVerifyJtag1149 => 17,
            Op::BsdlRead => 18,
            Op::EmbFlash2ndEraseProgram => 19,
            Op::EmbFlash2ndEraseProgramVerify => 20,
            Op::EmbFlash2ndEraseOnly => 21,
            Op::ConnectToJtagOfMCU => 23,
            Op::SRAMErase => 24,
            Op::AuthenticationCodeEraseProgramVerify => 25,
            Op::AuthenticationCodeRead => 26,
            Op::FirmwareEraseProgramSecurely => 27,
            Op::FirmwareEraseOnly => 28,
            Op::FirmwareEraseProgram => 29,
            Op::FirmwareEraseProgramVerify => 30,
            Op::ExFlashCBinEraseProgram => 31,
            Op::ExFlashCBinEraseProgramVerify => 32,
            Op::MFGWriteIRef => 34,
            Op::CSRFileEraseProgramVerify => 35,
            Op::ExFlashEraseProgramThruGaoBridge => 36,
            Op::ExFlashEraseProgramVerifyThruGaoBridge => 37,
            Op::ExFlashCBinEraseProgramThruGaoBridge => 38,
            Op::ExFlashCBinEraseProgramVerifyThruGaoBridge => 39,
            Op::DKGoAI_GW1NSR4C_QN48_V1_1 => 40,
            Op::DKGoAI_GW1NSR4C_QN48_V2_2 => 41,
            Op::DKGoAI_GW2AR18_QN88P_V1_1 => 42,
            Op::SFlashEraseProgram => 44,
            Op::SFlashEraseProgramVerify => 45,
            Op::SFlashVerifyOnly => 46,
            Op::SFlashBulkErase => 47,
            Op::SFlashBackgroundEraseProgram => 48,
            Op::SFlashBackgroundEraseProgramVerify => 49,
            Op::SFlashEraseProgramVerifyThruGaoBridge => 50,
            Op::ExFlashDetectID => 51,
            Op::ExFlashBulkErase5A => 52,
            Op::ExFlashEraseProgram5A => 53,
            Op::ExFlashEraseProgramVerify5A => 54,
            Op::ExFlashCBinEraseProgram5A => 55,
            Op::ExFlashCBinEraseProgramVerify5A => 56,
            Op::I2CProgramSRAM => 57,
            Op::I2CProgramFlash => 58,
            Op::I2CEraseFlashOnly => 59,
            Op::I2CEraseFlashOnlyThruI2CSPI => 60,
            Op::I2CEraseProgramFlashThruI2CSPI => 61,
            Op::EBRRead => 62,
            Op::SFlashBackgroundEraseProgramVerifyThruGaoBridge => 63,
            Op::SFlashBulkEraseInBscan => 64,
            Op::SFlashEraseProgramInBscan => 65,
            Op::ExFlashVerify5A => 66,
            Op::ExFlashVerifyThruGaoBridge5A => 67,
            Op::ExFlashEraseProgramThruGaoBridge5A => 68,
            Op::ExFlashEraseProgramVerifyThruGaoBridge5A => 69,
            Op::EmbFlashBackgroundEraseProgram => 70,
            Op::EmbFlashBackgroundEraseProgramVerify => 71,
            Op::EmbFlashBackgroundEraseOnly => 72,
            Op::ReadUserCode => 73,
            Op::ReadStatusRegister => 74,
            Op::SetFlashQEFor9x18x => 75,
            Op::SetExFlashQEForGW5AT => 76,
            Op::ExFlashEraseProgramVerifyThruUARTIPSPI => 77,
            Op::SRAMReprogramThruUARTIPSPI => 78,
        }
    }

    /// Parses a spelled-out operation name, as [`parse_op`] states;
    /// fails on an unknown name with a message naming it.
    pub fn from_str(s: &str) -> (r: Result<Op, String>)
        ensures
            (r is Ok) <==> parse_op(s@) is Some,
            r matches Ok(op) ==> parse_op(s@) == Some(op),
            r matches Err(e) ==> e@ == "Unknown operation: "@ + s@,
    {
        if str_eq(s, "Read Device Codes") {
            Ok(Op::ReadDeviceCodes)
        } else
        if str_eq(s, "Reprogram") {
            Ok(Op::Reprogram)
        } else
        if str_eq(s, "SRAM Program") {
            Ok(Op::SRAMProgram)
        } else
        if str_eq(s, "SRAM Read") {
            Ok(Op::SRAMRead)
        } else
        if str_eq(s, "SRAM Program and Verify") {
            Ok(Op::SRAMProgramAndVerify)
        } else
        if str_eq(s, "embFlash Erase,Program") {
            Ok(Op::EmbFlashEraseProgram)
        } else
        if str_eq(s, "embFlash Erase,Program,Verify") {
            Ok(Op::EmbFlashEraseProgramVerify)
        } else
        if str_eq(s, "embFlash Erase Only") {
            Ok(Op::EmbFlashEraseOnly)
        } else
        if str_eq(s, "exFlash Erase,Program") {
            Ok(Op::ExFlashEraseProgram)
        } else
        if str_eq(s, "exFlash Erase,Program,Verify") {
            Ok(Op::ExFlashEraseProgramVerify)
        } else
        if str_eq(s, "exFlash Bulk Erase") {
            Ok(Op::ExFlashBulkErase)
        } else
        if str_eq(s, "exFlash Verify") {
            Ok(Op::ExFlashVerify)
        } else
        if str_eq(s, "exFlash Erase,Program in bscan") {
            Ok(Op::ExFlashEraseProgramInBscan)
        } else
        if str_eq(s, "exFlash Erase,Program,Verify in bscan") {
            Ok(Op::ExFlashEraseProgramVerifyInBscan)
        } else
        if str_eq(s, "exFlash Bulk Erase in bscan") {
            Ok(Op::ExFlashBulkEraseInBscan)
        } else
        if str_eq(s, "exFlash Verify in bscan") {
            Ok(Op::ExFlashVerifyInBscan)
        } else
        if str_eq(s, "SRAM Program JTAG 1149") {
            Ok(Op::SRAMProgramJtag1149)
        } else
        if str_eq(s, "SRAM Program,Verify JTAG 1149") {
            Ok(Op::SRAMProgramVerifyJtag1149)
        } else
        if str_eq(s, "bsdl read") {
            Ok(Op::BsdlRead)
        } else
        if str_eq(s, "embFlash 2nd Erase,Program") {
            Ok(Op::EmbFlash2ndEraseProgram)
        } else
        if str_eq(s, "embFlash 2nd Erase,Program,Verify") {
            Ok(Op::EmbFlash2ndEraseProgramVerify)
        } else
        if str_eq(s, "embFlash 2nd Erase Only") {
            Ok(Op::EmbFlash2ndEraseOnly)
        } else
        if str_eq(s, "Connect to JTAG of MCU") {
            Ok(Op::ConnectToJtagOfMCU)
        } else
        if str_eq(s, "SRAM Erase") {
            Ok(Op::SRAMErase)
        } else
        if str_eq(s, "Authentication Code Erase,Program,Verify") {
            Ok(Op::AuthenticationCodeEraseProgramVerify)
        } else
        if str_eq(s, "Authentication Code Read") {
            Ok(Op::AuthenticationCodeRead)
        } else
        if str_eq(s, "Firmware Erase,Program Securely") {
            Ok(Op::FirmwareEraseProgramSecurely)
        } else
        if str_eq(s, "Firmware Erase Only") {
            Ok(Op::FirmwareEraseOnly)
        } else
        if str_eq(s, "Firmware Erase,Program") {
            Ok(Op::FirmwareEraseProgram)
        } else
        if str_eq(s, "Firmware Erase,Program,Verify") {
            Ok(Op::FirmwareEraseProgramVerify)
        } else
        if str_eq(s, "exFlash C Bin Erase,Program") {
            Ok(Op::ExFlashCBinEraseProgram)
        } else
        if str_eq(s, "exFlash C Bin Erase,Program,Verify") {
            Ok(Op::ExFlashCBinEraseProgramVerify)
        } else
        if str_eq(s, "MFG Write iRef") {
            Ok(Op::MFGWriteIRef)
        } else
        if str_eq(s, "CSR File Erase,Program,Verify") {
            Ok(Op::CSRFileEraseProgramVerify)
        } else
        if str_eq(s, "exFlash Erase,Program thru GAO-Bridge") {
            Ok(Op::ExFlashEraseProgramThruGaoBridge)
        } else
        if str_eq(s, "exFlash Erase,Program,Verify thru GAO-Bridge") {
            Ok(Op::ExFlashEraseProgramVerifyThruGaoBridge)
        } else
        if str_eq(s, "exFlash C Bin Erase,Program thru GAO-Bridge") {
            Ok(Op::ExFlashCBinEraseProgramThruGaoBridge)
        } else
        if str_eq(s, "exFlash C Bin Erase,Program,Verify thru GAO-Bridge") {
            Ok(Op::ExFlashCBinEraseProgramVerifyThruGaoBridge)
        } else
        if str_eq(s, "sFlash Erase,Program") {
            Ok(Op::SFlashEraseProgram)
        } else
        if str_eq(s, "sFlash Erase,Program,Verify") {
            Ok(Op::SFlashEraseProgramVerify)
        } else
        if str_eq(s, "sFlash Verify Only") {
            Ok(Op::SFlashVerifyOnly)
        } else
        if str_eq(s, "sFlash Bulk Erase") {
            Ok(Op::SFlashBulkErase)
        } else
        if str_eq(s, "sFlash Background Erase,Program") {
            Ok(Op::SFlashBackgroundEraseProgram)
        } else
        if str_eq(s, "sFlash Background Erase,Program,Verify") {
            Ok(Op::SFlashBackgroundEraseProgramVerify)
        } else
        if str_eq(s, "sFlash Erase,Program,Verify thru GAO-Bridge") {
            Ok(Op::SFlashEraseProgramVerifyThruGaoBridge)
        } else
        if str_eq(s, "exFlash Detect ID") {
            Ok(Op::ExFlashDetectID)
        } else
        if str_eq(s, "exFlash Bulk Erase 5A") {
            Ok(Op::ExFlashBulkErase5A)
        } else
        if str_eq(s, "exFlash Erase,Program 5A") {
            Ok(Op::ExFlashEraseProgram5A)
        } else
        if str_eq(s, "exFlash Erase,Program,Verify 5A") {
            Ok(Op::ExFlashEraseProgramVerify5A)
        } else
        if str_eq(s, "exFlash C Bin Erase,Program 5A") {
            Ok(Op::ExFlashCBinEraseProgram5A)
        } else
        if str_eq(s, "exFlash C Bin Erase,Program,Verify 5A") {
            Ok(Op::ExFlashCBinEraseProgramVerify5A)
        } else
        if str_eq(s, "I2C Program SRAM") {
            Ok(Op::I2CProgramSRAM)
        } else
        if str_eq(s, "I2C Program Flash") {
            Ok(Op::I2CProgramFlash)
        } else
        if str_eq(s, "I2C Erase Flash Only") {
            Ok(Op::I2CEraseFlashOnly)
        } else
        if str_eq(s, "I2C Erase Flash Only thru I2C-SPI") {
            Ok(Op::I2CEraseFlashOnlyThruI2CSPI)
        } else
        if str_eq(s, "I2C Erase,Program Flash thru I2C-SPI") {
            Ok(Op::I2CEraseProgramFlashThruI2CSPI)
        } else
        if str_eq(s, "EBR Read") {
            Ok(Op::EBRRead)
        } else
        if str_eq(s, "sFlash Background Erase,Program,Verify thru GAO-Bridge") {
            Ok(Op::SFlashBackgroundEraseProgramVerifyThruGaoBridge)
        } else
        if str_eq(s, "sFlash Bulk Erase in bscan") {
            Ok(Op::SFlashBulkEraseInBscan)
        } else
        if str_eq(s, "sFlash Erase,Program in bscan") {
            Ok(Op::SFlashEraseProgramInBscan)
        } else
        if str_eq(s, "exFlash Verify 5A") {
            Ok(Op::ExFlashVerify5A)
        } else
        if str_eq(s, "exFlash Verify thru GAO-Bridge 5A") {
            Ok(Op::ExFlashVerifyThruGaoBridge5A)
        } else
        if str_eq(s, "exFlash Erase,Program thru GAO-Bridge 5A") {
            Ok(Op::ExFlashEraseProgramThruGaoBridge5A)
        } else
        if str_eq(s, "exFlash Erase,Program,Verify thru GAO-Bridge 5A") {
            Ok(Op::ExFlashEraseProgramVerifyThruGaoBridge5A)
        } else
        if str_eq(s, "embFlash Background Erase,Program") {
            Ok(Op::EmbFlashBackgroundEraseProgram)
        } else
        if str_eq(s, "embFlash Background Erase,Program,Verify") {
            Ok(Op::EmbFlashBackgroundEraseProgramVerify)
        } else
        if str_eq(s, "embFlash Background Erase Only") {
            Ok(Op::EmbFlashBackgroundEraseOnly)
        } else
        if str_eq(s, "Read User Code") {
            Ok(Op::ReadUserCode)
        } else
        if str_eq(s, "Read Status Register") {
            Ok(Op::ReadStatusRegister)
        } else
        if str_eq(s, "Set Flash QE For 9x/18x") {
            Ok(Op::SetFlashQEFor9x18x)
        } else
        if str_eq(s, "Set ExFlash QE For GW5A(T)") {
            Ok(Op::SetExFlashQEForGW5AT)
        } else
        if str_eq(s, "exFlash Erase,Program,Verify thru UART-IP-SPI") {
            Ok(Op::ExFlashEraseProgramVerifyThruUARTIPSPI)
        } else
        if str_eq(s, "SRAM Reprogram thru UART-IP-SPI") {
            Ok(Op::SRAMReprogramThruUARTIPSPI)
        } else {
            let mut msg = "Unknown operation: ".to_owned();
            msg.append(s);
            Err(msg)
        }
    }
}

} // verus!
