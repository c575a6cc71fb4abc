//! The read strategy: planning a scan, decoding responses, and the
//! per-unit retry policy, as an explicit state machine.
//!
//! A scan is a sequence of read units — whole blocks in bulk mode, single
//! parameters in partial mode.  The caller performs each requested
//! register read and feeds the outcome back; the machine decodes, retries
//! transient failures up to the attempt cap, skips the unit after the
//! cap, and aborts the whole scan on a session-fatal transport error.

use vstd::prelude::*;
use crate::param::{
    block_wf, params_view, spec_passes_filter, BlockModel, ParamModel, Parameter, ParameterBlock,
};
use crate::catalog::{catalog_view, catalog_wf};
use crate::value::{decode_value, spec_decode_value, spec_kind_width, ParamKind, ValueModel};

verus! {

/// Maximum read attempts per read unit (a block or a single parameter).
pub const SUN2000_ATTEMPTS_PER_PARAM: u8 = 3;

/// Wall-clock timeout for one register read, in milliseconds.
pub const READ_TIMEOUT_MS: u64 = 5000;

/// A successful read slower than this is reported as a lag warning.
pub const LAG_WARN_THRESHOLD_MS: u64 = 3500;

/// The class of a transport-level read error, as the caller observed it.
#[derive(Clone, Copy, PartialEq, Eq, Structural, Debug)]
pub enum TransportErrorKind {
    ConnectionReset,
    BrokenPipe,
    Other,
}

/// Whether this error class means the session itself is dead: such an
/// error aborts the remaining scan and forces a reconnect, rather than a
/// per-unit retry.
pub open spec fn spec_is_session_fatal(k: TransportErrorKind) -> bool {
    k is ConnectionReset || k is BrokenPipe
}

/// Decides [`spec_is_session_fatal`] at run time.
pub fn is_session_fatal(k: TransportErrorKind) -> (r: bool)
    ensures
        r == spec_is_session_fatal(k),
{
    match k {
        TransportErrorKind::ConnectionReset => true,
        TransportErrorKind::BrokenPipe => true,
        TransportErrorKind::Other => false,
    }
}

/// One register read for the caller to perform.
#[derive(Clone, Copy, PartialEq, Eq, Structural, Debug)]
pub struct ReadRequest {
    pub reg_address: u16,
    pub quantity: u16,
}

/// What one register read came back with.
pub enum ReadOutcome {
    /// The read returned these words after `elapsed_ms` milliseconds.
    Data { words: Vec<u16>, elapsed_ms: u64 },
    /// The read timed out.
    TimedOut,
    /// The read failed with a transport error of the given class.
    Failed { kind: TransportErrorKind },
}

/// Mathematical model of a [`ReadOutcome`].
#[verifier::ext_equal]
pub enum OutcomeModel {
    Data { words: Seq<u16>, elapsed_ms: u64 },
    TimedOut,
    Failed { kind: TransportErrorKind },
}

impl View for ReadOutcome {
    type V = OutcomeModel;

    open spec fn view(&self) -> OutcomeModel {
        match self {
            ReadOutcome::Data { words, elapsed_ms } => OutcomeModel::Data {
                words: words@,
                elapsed_ms: *elapsed_ms,
            },
            ReadOutcome::TimedOut => OutcomeModel::TimedOut,
            ReadOutcome::Failed { kind } => OutcomeModel::Failed { kind: *kind },
        }
    }
}

/// One parameter to decode out of a unit's response, at a word offset.
pub struct PlannedPart {
    pub param: Parameter,
    pub offset: u16,
}

/// Mathematical model of a [`PlannedPart`].
#[verifier::ext_equal]
pub struct PartModel {
    pub param: ParamModel,
    pub offset: u16,
}

impl View for PlannedPart {
    type V = PartModel;

    open spec fn view(&self) -> PartModel {
        PartModel { param: self.param@, offset: self.offset }
    }
}

/// One read unit: a register read plus the parameters decoded from it.
pub struct ReadUnit {
    pub reg_address: u16,
    pub quantity: u16,
    pub parts: Vec<PlannedPart>,
}

/// Mathematical model of a [`ReadUnit`].
#[verifier::ext_equal]
pub struct UnitModel {
    pub reg_address: u16,
    pub quantity: u16,
    pub parts: Seq<PartModel>,
}

impl View for ReadUnit {
    type V = UnitModel;

    open spec fn view(&self) -> UnitModel {
        UnitModel {
            reg_address: self.reg_address,
            quantity: self.quantity,
            parts: Seq::new(self.parts@.len(), |i: int| self.parts@[i]@),
        }
    }
}

/// The parameters of a run that the fetch filter keeps, in order.
pub open spec fn spec_filtered(ps: Seq<ParamModel>, initial_read: bool) -> Seq<ParamModel>
    decreases ps.len(),
{
    if ps.len() == 0 {
        Seq::empty()
    } else {
        let rest = spec_filtered(ps.drop_last(), initial_read);
        if spec_passes_filter(ps.last(), initial_read) {
            rest.push(ps.last())
        } else {
            rest
        }
    }
}

/// How many parameters a full steady-state scan of the catalog is
/// expected to decode.
pub open spec fn spec_expected_count(c: Seq<BlockModel>, initial_read: bool) -> nat
    decreases c.len(),
{
    if c.len() == 0 {
        0
    } else {
        spec_expected_count(c.drop_last(), initial_read) + spec_filtered(
            c.last().parameters,
            initial_read,
        ).len()
    }
}

/// The bulk-mode parts of one block: its filtered parameters, each at
/// its word offset from the block's start.
pub open spec fn spec_block_parts(ps: Seq<ParamModel>, base: u16, initial_read: bool) -> Seq<
    PartModel,
>
    decreases ps.len(),
{
    if ps.len() == 0 {
        Seq::empty()
    } else {
        let rest = spec_block_parts(ps.drop_last(), base, initial_read);
        if spec_passes_filter(ps.last(), initial_read) {
            rest.push(
                PartModel { param: ps.last(), offset: (ps.last().reg_address - base) as u16 },
            )
        } else {
            rest
        }
    }
}

/// The partial-mode units of one block: one single-parameter read per
/// filtered parameter.
pub open spec fn spec_partial_units(ps: Seq<ParamModel>, initial_read: bool) -> Seq<UnitModel>
    decreases ps.len(),
{
    if ps.len() == 0 {
        Seq::empty()
    } else {
        let rest = spec_partial_units(ps.drop_last(), initial_read);
        if spec_passes_filter(ps.last(), initial_read) {
            rest.push(
                UnitModel {
                    reg_address: ps.last().reg_address,
                    quantity: ps.last().len,
                    parts: seq![PartModel { param: ps.last(), offset: 0 }],
                },
            )
        } else {
            rest
        }
    }
}

/// The scan plan over a whole catalog: in bulk mode one unit per block
/// covering its full span, in partial mode one unit per filtered
/// parameter; always in catalog order.
pub open spec fn spec_plan(c: Seq<BlockModel>, partial: bool, initial_read: bool) -> Seq<UnitModel>
    decreases c.len(),
{
    if c.len() == 0 {
        Seq::empty()
    } else {
        let rest = spec_plan(c.drop_last(), partial, initial_read);
        if partial {
            rest + spec_partial_units(c.last().parameters, initial_read)
        } else {
            rest.push(
                UnitModel {
                    reg_address: c.last().reg_address,
                    quantity: c.last().len,
                    parts: spec_block_parts(
                        c.last().parameters,
                        c.last().reg_address,
                        initial_read,
                    ),
                },
            )
        }
    }
}

/// What decoding one planned part out of a unit's response yields:
/// nothing when the response is too short for the part's slice, when the
/// part's register length cannot hold its value kind, or when the slice
/// fails to decode; otherwise the parameter with its value populated.
pub open spec fn spec_decode_part(pt: PartModel, words: Seq<u16>) -> Option<ParamModel> {
    if pt.offset + pt.param.len <= words.len() && pt.param.len >= spec_kind_width(pt.param.value) {
        let sub = words.subrange(pt.offset as int, pt.offset + pt.param.len);
        match spec_decode_value(pt.param.value, pt.param.unit, sub) {
            Ok(v) => Some(ParamModel { value: v, ..pt.param }),
            Err(_) => None,
        }
    } else {
        None
    }
}

/// The parameters decoded from a unit's response, in part order, with
/// undecodable parts skipped.
pub open spec fn spec_decode_parts(parts: Seq<PartModel>, words: Seq<u16>) -> Seq<ParamModel>
    decreases parts.len(),
{
    if parts.len() == 0 {
        Seq::empty()
    } else {
        let rest = spec_decode_parts(parts.drop_last(), words);
        match spec_decode_part(parts.last(), words) {
            Some(p) => rest.push(p),
            None => rest,
        }
    }
}

/// Mathematical model of a [`ScanMachine`].
#[verifier::ext_equal]
pub struct ScanModel {
    pub units: Seq<UnitModel>,
    pub initial_read: bool,
    pub unit_idx: int,
    pub attempts: int,
    pub aborted: bool,
    pub results: Seq<ParamModel>,
}

/// Whether the scan is over: every unit handled, or aborted by a
/// session-fatal error.
pub open spec fn spec_scan_done(m: ScanModel) -> bool {
    m.aborted || m.unit_idx >= m.units.len()
}

/// The scan machine's transition function: the state after feeding one
/// read outcome, and the parameters newly decoded by it.
///
/// Data advances to the next unit with whatever its response decodes to.
/// A timeout or a non-fatal error below the attempt cap retries the same
/// unit; at the cap the unit is skipped.  A session-fatal error aborts
/// the scan.
pub open spec fn spec_feed(m: ScanModel, o: OutcomeModel) -> (ScanModel, Seq<ParamModel>)
    recommends
        !spec_scan_done(m),
{
    match o {
        OutcomeModel::Data { words, elapsed_ms } => {
            let dec = spec_decode_parts(m.units[m.unit_idx].parts, words);
            (
                ScanModel {
                    unit_idx: m.unit_idx + 1,
                    attempts: 0,
                    results: m.results + dec,
                    ..m
                },
                dec,
            )
        },
        OutcomeModel::TimedOut => (spec_feed_failure(m), Seq::empty()),
        OutcomeModel::Failed { kind } => {
            if spec_is_session_fatal(kind) {
                (ScanModel { aborted: true, ..m }, Seq::empty())
            } else {
                (spec_feed_failure(m), Seq::empty())
            }
        },
    }
}

/// A failed attempt: retry the unit below the cap, skip it at the cap.
pub open spec fn spec_feed_failure(m: ScanModel) -> ScanModel {
    if m.attempts + 1 < SUN2000_ATTEMPTS_PER_PARAM {
        ScanModel { attempts: m.attempts + 1, ..m }
    } else {
        ScanModel { unit_idx: m.unit_idx + 1, attempts: 0, ..m }
    }
}

/// Drives one scan over the catalog: hand out read requests, decode and
/// collect what comes back, retry or abort per the policy.
pub struct ScanMachine {
    pub units: Vec<ReadUnit>,
    pub initial_read: bool,
    pub unit_idx: usize,
    pub attempts: u8,
    pub aborted: bool,
    pub results: Vec<Parameter>,
}

/// The views of a unit vector.
pub open spec fn units_view(v: Seq<ReadUnit>) -> Seq<UnitModel> {
    Seq::new(v.len(), |i: int| v[i]@)
}

/// The views of a part vector.
pub open spec fn parts_view(v: Seq<PlannedPart>) -> Seq<PartModel> {
    Seq::new(v.len(), |i: int| v[i]@)
}

impl View for ScanMachine {
    type V = ScanModel;

    open spec fn view(&self) -> ScanModel {
        ScanModel {
            units: units_view(self.units@),
            initial_read: self.initial_read,
            unit_idx: self.unit_idx as int,
            attempts: self.attempts as int,
            aborted: self.aborted,
            results: params_view(self.results@),
        }
    }
}

/// Basic sanity of a machine state: the attempt counter is below the
/// cap and the position within bounds.
pub open spec fn spec_scan_wf(m: ScanModel) -> bool {
    &&& 0 <= m.attempts < SUN2000_ATTEMPTS_PER_PARAM
    &&& 0 <= m.unit_idx <= m.units.len()
}

/// Decodes one planned part out of a unit's response, per
/// [`spec_decode_part`].
fn decode_part(part: &PlannedPart, words: &Vec<u16>) -> (r: Option<Parameter>)
    ensures
        match r {
            Some(p) => spec_decode_part(part@, words@) == Some(p@),
            None => spec_decode_part(part@, words@) is None,
        },
{
    let off = part.offset as usize;
    let plen = part.param.len as usize;
    if off + plen > words.len() {
        return None;
    }
    let width: usize = match &part.param.value {
        ParamKind::Text(_) => 0,
        ParamKind::NumberU16(_) => 1,
        ParamKind::NumberI16(_) => 1,
        ParamKind::NumberU32(_) => 2,
        ParamKind::NumberI32(_) => 2,
    };
    if plen < width {
        return None;
    }
    let sub: &[u16] = vstd::slice::slice_subrange(words.as_slice(), off, off + plen);
    match decode_value(&part.param.value, part.param.unit, sub) {
        Ok(v) => Some(
            Parameter::new_from_string(
                part.param.name.clone(),
                v,
                part.param.desc,
                part.param.unit,
                part.param.gain,
                part.param.reg_address,
                part.param.len,
                part.param.initial_read,
                part.param.save_to_influx,
            ),
        ),
        Err(_) => None,
    }
}

impl ScanMachine {
    /// Plans one scan over the catalog: in bulk mode one read per block,
    /// in partial mode one read per filtered parameter.
    pub fn new(catalog: &Vec<ParameterBlock>, partial: bool, initial_read: bool) -> (m:
        ScanMachine)
        requires
            catalog_wf(catalog_view(catalog@)),
        ensures
            m@ == (ScanModel {
                units: spec_plan(catalog_view(catalog@), partial, initial_read),
                initial_read,
                unit_idx: 0int,
                attempts: 0int,
                aborted: false,
                results: Seq::<ParamModel>::empty(),
            }),
            spec_scan_wf(m@),
    {
        let ghost cv = catalog_view(catalog@);
        let mut units: Vec<ReadUnit> = Vec::new();
        let nb = catalog.len();
        let mut bi: usize = 0;
        while bi < nb
            invariant
                nb == catalog@.len(),
                bi <= nb,
                cv == catalog_view(catalog@),
                catalog_wf(cv),
                units_view(units@) == spec_plan(cv.take(bi as int), partial, initial_read),
            decreases nb - bi,
        {
            let blk = &catalog[bi];
            proof {
                assert(block_wf(cv[bi as int]));
                assert(blk@ == cv[bi as int]);
            }
            let np = blk.parameters.len();
            if partial {
                let ghost blk_units_before = units_view(units@);
                let mut pi: usize = 0;
                while pi < np
                    invariant
                        np == blk.parameters@.len(),
                        pi <= np,
                        blk@ == cv[bi as int],
                        units_view(units@) == blk_units_before + spec_partial_units(
                            blk@.parameters.take(pi as int),
                            initial_read,
                        ),
                    decreases np - pi,
                {
                    let p = &blk.parameters[pi];
                    proof {
                        assert(p@ == blk@.parameters[pi as int]);
                        assert(blk@.parameters.take(pi + 1).drop_last() =~= blk@.parameters.take(
                            pi as int,
                        ));
                        assert(blk@.parameters.take(pi + 1).last() == p@);
                    }
                    if crate::param::passes_filter(p, initial_read) {
                        let mut unit_parts: Vec<PlannedPart> = Vec::new();
                        unit_parts.push(PlannedPart { param: p.duplicate(), offset: 0 });
                        let unit = ReadUnit {
                            reg_address: p.reg_address,
                            quantity: p.len,
                            parts: unit_parts,
                        };
                        proof {
                            assert(unit@.parts =~~= seq![
                                PartModel { param: p@, offset: 0u16 },
                            ]);
                        }
                        units.push(unit);
                        proof {
                            let ghost ps0 = blk@.parameters.take(pi as int);
                            let ghost ps1 = blk@.parameters.take(pi + 1);
                            let ghost target = UnitModel {
                                reg_address: p@.reg_address,
                                quantity: p@.len,
                                parts: seq![PartModel { param: p@, offset: 0u16 }],
                            };
                            assert(unit@ =~~= target);
                            assert(spec_partial_units(ps1, initial_read) =~~= spec_partial_units(
                                ps0,
                                initial_read,
                            ).push(target));
                            assert(units_view(units@) =~~= (blk_units_before + spec_partial_units(
                                ps0,
                                initial_read,
                            )).push(unit@));
                            assert(units_view(units@) =~~= blk_units_before + spec_partial_units(
                                ps1,
                                initial_read,
                            ));
                        }
                    } else {
                        proof {
                            assert(units_view(units@) =~~= blk_units_before + spec_partial_units(
                                blk@.parameters.take(pi + 1),
                                initial_read,
                            ));
                        }
                    }
                    pi += 1;
                }
                proof {
                    assert(blk@.parameters.take(np as int) =~= blk@.parameters);
                    assert(cv.take(bi + 1).drop_last() =~= cv.take(bi as int));
                    assert(cv.take(bi + 1).last() == cv[bi as int]);
                    assert(units_view(units@) =~~= spec_plan(
                        cv.take(bi + 1),
                        partial,
                        initial_read,
                    ));
                }
            } else {
                let mut parts: Vec<PlannedPart> = Vec::new();
                let mut pi: usize = 0;
                while pi < np
                    invariant
                        np == blk.parameters@.len(),
                        pi <= np,
                        blk@ == cv[bi as int],
                        block_wf(blk@),
                        parts_view(parts@) == spec_block_parts(
                            blk@.parameters.take(pi as int),
                            blk@.reg_address,
                            initial_read,
                        ),
                    decreases np - pi,
                {
                    let p = &blk.parameters[pi];
                    proof {
                        assert(p@ == blk@.parameters[pi as int]);
                        assert(blk@.parameters.take(pi + 1).drop_last() =~= blk@.parameters.take(
                            pi as int,
                        ));
                        assert(blk@.parameters.take(pi + 1).last() == p@);
                        crate::param::lemma_block_param_bounds(blk@, pi as int);
                    }
                    if crate::param::passes_filter(p, initial_read) {
                        let part = PlannedPart {
                            param: p.duplicate(),
                            offset: p.reg_address - blk.reg_address,
                        };
                        parts.push(part);
                        proof {
                            assert(parts_view(parts@) =~~= spec_block_parts(
                                blk@.parameters.take(pi + 1),
                                blk@.reg_address,
                                initial_read,
                            ));
                        }
                    } else {
                        proof {
                            assert(parts_view(parts@) =~~= spec_block_parts(
                                blk@.parameters.take(pi + 1),
                                blk@.reg_address,
                                initial_read,
                            ));
                        }
                    }
                    pi += 1;
                }
                let unit = ReadUnit { reg_address: blk.reg_address, quantity: blk.len, parts };
                proof {
                    assert(blk@.parameters.take(np as int) =~= blk@.parameters);
                    assert(cv.take(bi + 1).drop_last() =~= cv.take(bi as int));
                    assert(cv.take(bi + 1).last() == cv[bi as int]);
                }
                units.push(unit);
                proof {
                    assert(units_view(units@) =~~= spec_plan(
                        cv.take(bi + 1),
                        partial,
                        initial_read,
                    ));
                }
            }
            bi += 1;
        }
        proof {
            assert(cv.take(nb as int) =~= cv);
        }
        let m = ScanMachine {
            units,
            initial_read,
            unit_idx: 0,
            attempts: 0,
            aborted: false,
            results: Vec::new(),
        };
        proof {
            assert(m@.results =~= Seq::<ParamModel>::empty());
        }
        m
    }

    /// The next register read to perform, or nothing when the scan is
    /// over.
    pub fn next_request(&self) -> (r: Option<ReadRequest>)
        ensures
            match r {
                Some(q) => !spec_scan_done(self@) && q.reg_address
                    == self@.units[self@.unit_idx].reg_address && q.quantity
                    == self@.units[self@.unit_idx].quantity,
                None => spec_scan_done(self@),
            },
    {
        if self.aborted || self.unit_idx >= self.units.len() {
            None
        } else {
            let u = &self.units[self.unit_idx];
            Some(ReadRequest { reg_address: u.reg_address, quantity: u.quantity })
        }
    }

    /// Whether the scan is over.
    pub fn is_finished(&self) -> (r: bool)
        ensures
            r == spec_scan_done(self@),
    {
        self.aborted || self.unit_idx >= self.units.len()
    }

    /// Whether a session-fatal error aborted the scan.
    pub fn aborted(&self) -> (r: bool)
        ensures
            r == self@.aborted,
    {
        self.aborted
    }

    /// The parameters decoded so far, in catalog order.
    pub fn results(&self) -> (r: &Vec<Parameter>)
        ensures
            params_view(r@) == self@.results,
    {
        &self.results
    }

    /// How many parameters the scan decoded so far.
    pub fn result_count(&self) -> (r: usize)
        ensures
            r == self@.results.len(),
    {
        self.results.len()
    }

    /// Feeds the outcome of the requested read back into the machine,
    /// per [`spec_feed`]; returns the parameters this outcome decoded.
    pub fn feed(&mut self, outcome: ReadOutcome) -> (newly: Vec<Parameter>)
        requires
            spec_scan_wf(old(self)@),
            !spec_scan_done(old(self)@),
        ensures
            final(self)@ == spec_feed(old(self)@, outcome@).0,
            params_view(newly@) == spec_feed(old(self)@, outcome@).1,
            spec_scan_wf(final(self)@),
    {
        match outcome {
            ReadOutcome::Data { words, elapsed_ms } => {
                let ghost m0 = self@;
                let unit = &self.units[self.unit_idx];
                let ghost uparts = unit@.parts;
                let np = unit.parts.len();
                let mut newly: Vec<Parameter> = Vec::new();
                let mut i: usize = 0;
                while i < np
                    invariant
                        np == unit.parts@.len(),
                        i <= np,
                        uparts == unit@.parts,
                        params_view(newly@) == spec_decode_parts(
                            uparts.take(i as int),
                            words@,
                        ),
                    decreases np - i,
                {
                    proof {
                        assert(uparts.take(i + 1).drop_last() =~= uparts.take(i as int));
                        assert(uparts.take(i + 1).last() == unit.parts@[i as int]@);
                    }
                    match decode_part(&unit.parts[i], &words) {
                        Some(p) => {
                            newly.push(p);
                            proof {
                                assert(params_view(newly@) =~= spec_decode_parts(
                                    uparts.take(i + 1),
                                    words@,
                                ));
                            }
                        },
                        None => {
                            proof {
                                assert(params_view(newly@) =~= spec_decode_parts(
                                    uparts.take(i + 1),
                                    words@,
                                ));
                            }
                        },
                    }
                    i += 1;
                }
                proof {
                    assert(uparts.take(np as int) =~= uparts);
                }
                let ghost results_before = params_view(self.results@);
                let mut k: usize = 0;
                let nn = newly.len();
                proof {
                    assert(params_view(self.results@) =~~= results_before + params_view(
                        newly@,
                    ).take(0int));
                }
                while k < nn
                    invariant
                        nn == newly@.len(),
                        k <= nn,
                        params_view(self.results@) == results_before + params_view(
                            newly@,
                        ).take(k as int),
                        self.unit_idx == m0.unit_idx,
                        self.attempts as int == m0.attempts,
                        self.aborted == m0.aborted,
                        units_view(self.units@) == m0.units,
                        self.initial_read == m0.initial_read,
                    decreases nn - k,
                {
                    self.results.push(newly[k].duplicate());
                    proof {
                        let ghost pv = params_view(newly@);
                        let ghost prev = results_before + pv.take(k as int);
                        assert(params_view(self.results@) =~~= prev.push(pv[k as int]));
                        assert(pv.take(k + 1) =~~= pv.take(k as int).push(pv[k as int]));
                        assert(params_view(self.results@) =~~= results_before + pv.take(k + 1));
                    }
                    k += 1;
                }
                let nu = self.units.len();
                proof {
                    assert(self.unit_idx < nu);
                }
                self.unit_idx += 1;
                self.attempts = 0;
                proof {
                    assert(params_view(newly@).take(nn as int) =~= params_view(newly@));
                    assert(self@ =~~= spec_feed(m0, OutcomeModel::Data {
                        words: words@,
                        elapsed_ms,
                    }).0);
                }
                newly
            },
            ReadOutcome::TimedOut => {
                self.bump_failure();
                let newly: Vec<Parameter> = Vec::new();
                proof {
                    assert(params_view(newly@) =~= Seq::<ParamModel>::empty());
                }
                newly
            },
            ReadOutcome::Failed { kind } => {
                if is_session_fatal(kind) {
                    self.aborted = true;
                } else {
                    self.bump_failure();
                }
                let newly: Vec<Parameter> = Vec::new();
                proof {
                    assert(params_view(newly@) =~= Seq::<ParamModel>::empty());
                }
                newly
            },
        }
    }

    /// Books one failed attempt: retry below the cap, skip the unit at
    /// the cap.
    fn bump_failure(&mut self)
        requires
            spec_scan_wf(old(self)@),
            !spec_scan_done(old(self)@),
        ensures
            final(self)@ == spec_feed_failure(old(self)@),
            spec_scan_wf(final(self)@),
    {
        let n = self.units.len();
        proof {
            assert(self.unit_idx < n);
        }
        if self.attempts + 1 < SUN2000_ATTEMPTS_PER_PARAM {
            self.attempts += 1;
        } else {
            self.unit_idx += 1;
            self.attempts = 0;
        }
    }
}

/// Whether a decoded parameter is forwarded to the sink: only during
/// steady-state polling, and only when the steady-state filter keeps it.
pub open spec fn spec_should_emit(p: ParamModel, initial_read: bool) -> bool {
    !initial_read && spec_passes_filter(p, false)
}

/// Decides [`spec_should_emit`] at run time.
pub fn should_emit(p: &Parameter, initial_read: bool) -> (r: bool)
    ensures
        r == spec_should_emit(p@, initial_read),
{
    !initial_read && crate::param::passes_filter(p, false)
}

/// A filtered prefix never holds more parameters than the filtered run.
proof fn lemma_filtered_take_le(ps: Seq<ParamModel>, initial_read: bool, i: int)
    requires
        0 <= i <= ps.len(),
    ensures
        spec_filtered(ps.take(i), initial_read).len() <= spec_filtered(ps, initial_read).len(),
    decreases ps.len() - i,
{
    if i < ps.len() {
        assert(ps.take(i + 1).drop_last() =~= ps.take(i));
        assert(ps.take(i + 1).last() == ps[i]);
        lemma_filtered_take_le(ps, initial_read, i + 1);
        assert(ps.take(ps.len() as int) =~= ps);
    } else {
        assert(ps.take(i) =~= ps);
    }
}

/// A catalog prefix never expects more parameters than the catalog.
proof fn lemma_expected_take_le(c: Seq<BlockModel>, initial_read: bool, i: int)
    requires
        0 <= i <= c.len(),
    ensures
        spec_expected_count(c.take(i), initial_read) <= spec_expected_count(c, initial_read),
    decreases c.len() - i,
{
    if i < c.len() {
        assert(c.take(i + 1).drop_last() =~= c.take(i));
        assert(c.take(i + 1).last() == c[i]);
        lemma_expected_take_le(c, initial_read, i + 1);
        assert(c.take(c.len() as int) =~= c);
    } else {
        assert(c.take(i) =~= c);
    }
}

/// A transient outcome: a timeout or a read error that is not
/// session-fatal.
pub open spec fn spec_transient(o: OutcomeModel) -> bool {
    match o {
        OutcomeModel::Data { .. } => false,
        OutcomeModel::TimedOut => true,
        OutcomeModel::Failed { kind } => !spec_is_session_fatal(kind),
    }
}

/// Retry exhaustion: a read unit that fails transiently on every attempt
/// up to the cap is skipped — the scan moves past it having decoded
/// nothing from it, and the session is not considered dead.
pub proof fn lemma_retry_exhaustion(
    m: ScanModel,
    o1: OutcomeModel,
    o2: OutcomeModel,
    o3: OutcomeModel,
)
    requires
        !spec_scan_done(m),
        m.attempts == 0,
        spec_transient(o1),
        spec_transient(o2),
        spec_transient(o3),
    ensures
        spec_feed(spec_feed(spec_feed(m, o1).0, o2).0, o3).0 == (ScanModel {
            unit_idx: m.unit_idx + 1,
            attempts: 0,
            ..m
        }),
        spec_feed(m, o1).1 == Seq::<ParamModel>::empty(),
        spec_feed(spec_feed(m, o1).0, o2).1 == Seq::<ParamModel>::empty(),
        spec_feed(spec_feed(spec_feed(m, o1).0, o2).0, o3).1 == Seq::<ParamModel>::empty(),
        !spec_feed(spec_feed(spec_feed(m, o1).0, o2).0, o3).0.aborted,
{
    let m1 = spec_feed(m, o1).0;
    let m2 = spec_feed(m1, o2).0;
    let m3 = spec_feed(m2, o3).0;
    assert(m1 == (ScanModel { attempts: 1, ..m }));
    assert(m2 == (ScanModel { attempts: 2, ..m }));
    assert(m3 =~~= (ScanModel { unit_idx: m.unit_idx + 1, attempts: 0, ..m }));
}

/// Session-fatal classification: a broken-pipe or connection-reset class
/// error during any single read aborts the remaining scan — nothing more
/// is decoded and the scan reports itself dead.
pub proof fn lemma_session_fatal_aborts(m: ScanModel, kind: TransportErrorKind)
    requires
        !spec_scan_done(m),
        spec_is_session_fatal(kind),
    ensures
        spec_feed(m, OutcomeModel::Failed { kind }).0.aborted,
        spec_scan_done(spec_feed(m, OutcomeModel::Failed { kind }).0),
        spec_feed(m, OutcomeModel::Failed { kind }).0.results == m.results,
        spec_feed(m, OutcomeModel::Failed { kind }).1 == Seq::<ParamModel>::empty(),
{
}

/// A generic I/O error below the attempt cap only causes a retry: the
/// scan stays on the same unit and the session stays alive.
pub proof fn lemma_transient_error_retries(m: ScanModel, kind: TransportErrorKind)
    requires
        !spec_scan_done(m),
        !spec_is_session_fatal(kind),
        m.attempts + 1 < SUN2000_ATTEMPTS_PER_PARAM,
    ensures
        !spec_feed(m, OutcomeModel::Failed { kind }).0.aborted,
        spec_feed(m, OutcomeModel::Failed { kind }).0.unit_idx == m.unit_idx,
        spec_feed(m, OutcomeModel::Failed { kind }).0.attempts == m.attempts + 1,
        spec_feed(m, OutcomeModel::Failed { kind }).0.results == m.results,
        !spec_scan_done(spec_feed(m, OutcomeModel::Failed { kind }).0),
{
}

/// Counts how many parameters a steady-state scan of the catalog is
/// expected to decode.
pub fn expected_param_count(catalog: &Vec<ParameterBlock>) -> (r: usize)
    requires
        spec_expected_count(catalog_view(catalog@), false) <= usize::MAX,
    ensures
        r == spec_expected_count(catalog_view(catalog@), false),
{
    let ghost cv = catalog_view(catalog@);
    let mut count: usize = 0;
    let nb = catalog.len();
    let mut bi: usize = 0;
    while bi < nb
        invariant
            nb == catalog@.len(),
            cv == catalog_view(catalog@),
            spec_expected_count(cv, false) <= usize::MAX,
            bi <= nb,
            count == spec_expected_count(cv.take(bi as int), false),
        decreases nb - bi,
    {
        let blk = &catalog[bi];
        proof {
            assert(blk@ == cv[bi as int]);
        }
        let np = blk.parameters.len();
        let mut pi: usize = 0;
        while pi < np
            invariant
                np == blk.parameters@.len(),
                pi <= np,
                cv == catalog_view(catalog@),
                spec_expected_count(cv, false) <= usize::MAX,
                bi < cv.len(),
                blk@ == cv[bi as int],
                count == spec_expected_count(cv.take(bi as int), false) + spec_filtered(
                    blk@.parameters.take(pi as int),
                    false,
                ).len(),
            decreases np - pi,
        {
            let p = &blk.parameters[pi];
            proof {
                assert(p@ == blk@.parameters[pi as int]);
                assert(blk@.parameters.take(pi + 1).drop_last() =~= blk@.parameters.take(
                    pi as int,
                ));
                assert(blk@.parameters.take(pi + 1).last() == p@);
                lemma_expected_take_le(cv, false, bi + 1);
                lemma_filtered_take_le(blk@.parameters, false, pi + 1);
                assert(cv.take(bi + 1).drop_last() =~= cv.take(bi as int));
                assert(cv.take(bi + 1).last() == cv[bi as int]);
            }
            if crate::param::passes_filter(p, false) {
                count += 1;
            }
            pi += 1;
        }
        proof {
            assert(blk@.parameters.take(np as int) =~= blk@.parameters);
            assert(cv.take(bi + 1).drop_last() =~= cv.take(bi as int));
            assert(cv.take(bi + 1).last() == cv[bi as int]);
        }
        bi += 1;
    }
    proof {
        assert(cv.take(nb as int) =~= cv);
    }
    count
}

} // verus!
