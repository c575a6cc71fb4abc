//! Register parameters, contiguous parameter blocks, and the fetch filter.

use vstd::prelude::*;
use vstd::string::StringExecFns;
use crate::strutil;
use crate::strutil::{dec_of_int, dec_of_nat, has_prefix, has_suffix, scaled_dec};
use crate::value::{
    spec_is_epoch_unit, view_opt_str, FieldModel, FieldValue, ParamKind, ValueModel,
};

verus! {

/// A fatal catalog-authoring error found while building a block.
#[derive(Debug)]
pub enum CatalogError {
    /// A block must hold at least one parameter.
    EmptyBlock,
    /// A parameter's own data is inconsistent: zero gain, zero length, a
    /// length that does not fit its value kind, or a span past the
    /// register address space.
    BadParameter { name: String },
    /// A parameter does not start where its predecessor ended.
    ContiguityGap { name: String, expected: u16, found: u16 },
    /// The block spans more registers than one bulk read can cover.
    BlockTooLong,
    /// Two parameters of the block share a name.
    DuplicateName { name: String },
}

/// One named register definition.
#[derive(Clone)]
pub struct Parameter {
    pub name: String,
    pub value: ParamKind,
    pub desc: Option<&'static str>,
    pub unit: Option<&'static str>,
    pub gain: u16,
    pub reg_address: u16,
    pub len: u16,
    pub initial_read: bool,
    pub save_to_influx: bool,
}

/// Mathematical model of a [`Parameter`].
#[verifier::ext_equal]
pub struct ParamModel {
    pub name: Seq<char>,
    pub value: ValueModel,
    pub desc: Option<Seq<char>>,
    pub unit: Option<Seq<char>>,
    pub gain: u16,
    pub reg_address: u16,
    pub len: u16,
    pub initial_read: bool,
    pub save_to_influx: bool,
}

impl View for Parameter {
    type V = ParamModel;

    open spec fn view(&self) -> ParamModel {
        ParamModel {
            name: self.name@,
            value: self.value@,
            desc: view_opt_str(self.desc),
            unit: view_opt_str(self.unit),
            gain: self.gain,
            reg_address: self.reg_address,
            len: self.len,
            initial_read: self.initial_read,
            save_to_influx: self.save_to_influx,
        }
    }
}

/// Well-formedness of one parameter: a positive gain, a register length
/// that fits the value kind (one word for the 16-bit kinds, at least
/// two for the 32-bit and text kinds), and a span inside the register
/// address space.
pub open spec fn param_wf(p: ParamModel) -> bool {
    &&& p.gain >= 1
    &&& p.len >= 1
    &&& p.reg_address + p.len <= 0x10000
    &&& match p.value {
        ValueModel::Text(_) => p.len >= 2,
        ValueModel::NumberU16(_) => p.len == 1,
        ValueModel::NumberI16(_) => p.len == 1,
        ValueModel::NumberU32(_) => p.len >= 2,
        ValueModel::NumberI32(_) => p.len >= 2,
    }
}

impl Parameter {
    /// Builds a parameter from a static name.
    pub fn new(
        name: &'static str,
        value: ParamKind,
        desc: Option<&'static str>,
        unit: Option<&'static str>,
        gain: u16,
        reg_address: u16,
        len: u16,
        initial_read: bool,
        save_to_influx: bool,
    ) -> (r: Parameter)
        ensures
            r@ == (ParamModel {
                name: name@,
                value: value@,
                desc: view_opt_str(desc),
                unit: view_opt_str(unit),
                gain,
                reg_address,
                len,
                initial_read,
                save_to_influx,
            }),
    {
        Parameter {
            name: name.to_owned(),
            value,
            desc,
            unit,
            gain,
            reg_address,
            len,
            initial_read,
            save_to_influx,
        }
    }

    /// Builds a parameter from an owned name.
    pub fn new_from_string(
        name: String,
        value: ParamKind,
        desc: Option<&'static str>,
        unit: Option<&'static str>,
        gain: u16,
        reg_address: u16,
        len: u16,
        initial_read: bool,
        save_to_influx: bool,
    ) -> (r: Parameter)
        ensures
            r@ == (ParamModel {
                name: name@,
                value: value@,
                desc: view_opt_str(desc),
                unit: view_opt_str(unit),
                gain,
                reg_address,
                len,
                initial_read,
                save_to_influx,
            }),
    {
        Parameter {
            name,
            value,
            desc,
            unit,
            gain,
            reg_address,
            len,
            initial_read,
            save_to_influx,
        }
    }

    /// Checks [`param_wf`] at run time.
    fn check_wf(&self) -> (r: bool)
        ensures
            r == param_wf(self@),
    {
        if self.gain < 1 || self.len < 1 {
            return false;
        }
        if self.reg_address as u32 + self.len as u32 > 0x10000 {
            return false;
        }
        match &self.value {
            ParamKind::Text(_) => self.len >= 2,
            ParamKind::NumberU16(_) => self.len == 1,
            ParamKind::NumberI16(_) => self.len == 1,
            ParamKind::NumberU32(_) => self.len >= 2,
            ParamKind::NumberI32(_) => self.len >= 2,
        }
    }
}

/// The steady-state fetch filter.  During the initial read only
/// parameters marked for it are fetched; afterwards a parameter is
/// fetched iff it persists to the sink or its name marks a state, alarm,
/// status or code register.
pub open spec fn spec_passes_filter(p: ParamModel, initial_read: bool) -> bool {
    if initial_read {
        p.initial_read
    } else {
        ||| p.save_to_influx
        ||| has_prefix(p.name, "state_"@)
        ||| has_prefix(p.name, "alarm_"@)
        ||| has_suffix(p.name, "_status"@)
        ||| has_suffix(p.name, "_code"@)
    }
}

/// Decides [`spec_passes_filter`] at run time.
pub fn passes_filter(p: &Parameter, initial_read: bool) -> (r: bool)
    ensures
        r == spec_passes_filter(p@, initial_read),
{
    if initial_read {
        p.initial_read
    } else {
        p.save_to_influx || strutil::str_has_prefix(p.name.as_str(), "state_")
            || strutil::str_has_prefix(p.name.as_str(), "alarm_") || strutil::str_has_suffix(
            p.name.as_str(),
            "_status",
        ) || strutil::str_has_suffix(p.name.as_str(), "_code")
    }
}

/// Contiguity of a parameter run: every parameter starts exactly where
/// its predecessor ended.
pub open spec fn spec_contiguous(ps: Seq<ParamModel>) -> bool {
    forall|i: int|
        1 <= i < ps.len() ==> #[trigger] ps[i].reg_address == ps[i - 1].reg_address + ps[i - 1].len
}

/// The view of a parameter vector.
pub open spec fn params_view(v: Seq<Parameter>) -> Seq<ParamModel> {
    v.map_values(|p: Parameter| p@)
}

/// The register span of a non-empty parameter run: from the first
/// parameter's address to the end of the last one.
pub open spec fn spec_block_span(ps: Seq<ParamModel>) -> int
    recommends
        ps.len() > 0,
{
    ps.last().reg_address + ps.last().len - ps[0].reg_address
}

/// Name uniqueness of a parameter run: no two parameters share a name.
pub open spec fn spec_names_unique(ps: Seq<ParamModel>) -> bool {
    forall|i: int, j: int| 0 <= i < j < ps.len() ==> ps[i].name != ps[j].name
}

/// The conditions under which a block is accepted: non-empty, each
/// parameter well-formed, the run contiguous, names unique within the
/// block, and the span within one bulk read's count.
pub open spec fn spec_block_ok(ps: Seq<ParamModel>) -> bool {
    &&& ps.len() > 0
    &&& forall|i: int| 0 <= i < ps.len() ==> param_wf(#[trigger] ps[i])
    &&& spec_contiguous(ps)
    &&& spec_names_unique(ps)
    &&& spec_block_span(ps) <= 0xffff
}

/// In a contiguous run, addresses never decrease from the first
/// parameter on.
pub proof fn lemma_contig_start(ps: Seq<ParamModel>, i: int)
    requires
        spec_contiguous(ps),
        0 <= i < ps.len(),
    ensures
        ps[0].reg_address <= ps[i].reg_address,
    decreases i,
{
    if i > 0 {
        lemma_contig_start(ps, i - 1);
    }
}

/// In a contiguous run, every parameter ends at or before the end of
/// the last one.
pub proof fn lemma_contig_end(ps: Seq<ParamModel>, i: int)
    requires
        spec_contiguous(ps),
        0 <= i < ps.len(),
    ensures
        ps[i].reg_address + ps[i].len <= ps.last().reg_address + ps.last().len,
    decreases ps.len() - i,
{
    if i < ps.len() - 1 {
        lemma_contig_end(ps, i + 1);
    }
}

/// The total number of registers a parameter run occupies.
pub open spec fn spec_len_sum(ps: Seq<ParamModel>) -> int
    decreases ps.len(),
{
    if ps.len() == 0 {
        0
    } else {
        spec_len_sum(ps.drop_last()) + ps.last().len
    }
}

/// In a contiguous run, the span from the first parameter's address to
/// the end of the last equals the sum of the member lengths.
proof fn lemma_contig_span_is_sum(ps: Seq<ParamModel>)
    requires
        spec_contiguous(ps),
        ps.len() > 0,
    ensures
        ps.last().reg_address + ps.last().len - ps[0].reg_address == spec_len_sum(ps),
    decreases ps.len(),
{
    if ps.len() > 1 {
        assert(spec_contiguous(ps.drop_last())) by {
            assert forall|i: int|
                1 <= i < ps.drop_last().len() implies #[trigger] ps.drop_last()[i].reg_address
                == ps.drop_last()[i - 1].reg_address + ps.drop_last()[i - 1].len by {
                assert(ps[i].reg_address == ps[i - 1].reg_address + ps[i - 1].len);
            }
        }
        lemma_contig_span_is_sum(ps.drop_last());
        let n = ps.len() as int;
        assert(ps.drop_last().last() == ps[n - 2]);
        assert(ps.drop_last()[0] == ps[0]);
        assert(ps[n - 1] == ps.last());
        assert(ps[n - 1].reg_address == ps[n - 2].reg_address + ps[n - 2].len);
    } else {
        assert(ps.drop_last() =~= Seq::<ParamModel>::empty());
        assert(spec_len_sum(Seq::<ParamModel>::empty()) == 0);
    }
}

/// A well-formed block's length is the sum of its parameters' register
/// lengths, so one bulk read of `len` registers at the block's address
/// covers every member.
pub proof fn lemma_block_len_is_sum(b: BlockModel)
    requires
        block_wf(b),
    ensures
        b.len == spec_len_sum(b.parameters),
{
    lemma_contig_span_is_sum(b.parameters);
}

/// Every parameter of a well-formed block lies inside the block's span.
pub proof fn lemma_block_param_bounds(b: BlockModel, i: int)
    requires
        block_wf(b),
        0 <= i < b.parameters.len(),
    ensures
        b.reg_address <= b.parameters[i].reg_address,
        b.parameters[i].reg_address + b.parameters[i].len <= b.reg_address + b.len,
{
    lemma_contig_start(b.parameters, i);
    lemma_contig_end(b.parameters, i);
}

/// An ordered, non-empty run of parameters occupying contiguous
/// registers, readable with a single bulk register read.
pub struct ParameterBlock {
    pub reg_address: u16,
    pub len: u16,
    pub parameters: Vec<Parameter>,
}

/// Mathematical model of a [`ParameterBlock`].
#[verifier::ext_equal]
pub struct BlockModel {
    pub reg_address: u16,
    pub len: u16,
    pub parameters: Seq<ParamModel>,
}

impl View for ParameterBlock {
    type V = BlockModel;

    open spec fn view(&self) -> BlockModel {
        BlockModel {
            reg_address: self.reg_address,
            len: self.len,
            parameters: params_view(self.parameters@),
        }
    }
}

/// Well-formedness of a block: an accepted parameter run whose address
/// is the first parameter's and whose length spans the whole run.
pub open spec fn block_wf(b: BlockModel) -> bool {
    &&& spec_block_ok(b.parameters)
    &&& b.reg_address == b.parameters[0].reg_address
    &&& b.reg_address + b.len == b.parameters.last().reg_address + b.parameters.last().len
}

impl ParameterBlock {
    /// Builds a block after checking the §3 invariants: the parameters
    /// must form a contiguous register run with block-unique names.  A
    /// gap, an empty run, a shared name or an ill-formed parameter is a
    /// fatal catalog-authoring error.
    #[verifier::rlimit(100)]
    #[verifier::spinoff_prover]
    pub fn new(parameters: Vec<Parameter>) -> (r: Result<ParameterBlock, CatalogError>)
        ensures
            r is Ok <==> spec_block_ok(params_view(parameters@)),
            r matches Ok(b) ==> b@.parameters == params_view(parameters@) && block_wf(b@),
            r matches Err(e) ==> match e {
                CatalogError::EmptyBlock => parameters@.len() == 0,
                CatalogError::BadParameter { .. } => exists|i: int|
                    0 <= i < parameters@.len() && !param_wf(#[trigger] params_view(parameters@)[i]),
                CatalogError::ContiguityGap { .. } => !spec_contiguous(params_view(parameters@)),
                CatalogError::BlockTooLong => parameters@.len() > 0 && spec_block_span(
                    params_view(parameters@),
                ) > 0xffff,
                CatalogError::DuplicateName { .. } => !spec_names_unique(params_view(parameters@)),
            },
    {
        let ghost ps = params_view(parameters@);
        let n = parameters.len();
        if n == 0 {
            return Err(CatalogError::EmptyBlock);
        }
        let first_addr = parameters[0].reg_address;
        let mut expected: u32 = first_addr as u32;
        let mut i: usize = 0;
        while i < n
            invariant
                0 < n == parameters@.len(),
                ps == params_view(parameters@),
                ps.len() == n,
                forall|j: int| 0 <= j < n ==> #[trigger] ps[j] == parameters@[j]@,
                i <= n,
                forall|j: int| 0 <= j < i ==> param_wf(#[trigger] ps[j]),
                forall|j: int|
                    1 <= j < i ==> #[trigger] ps[j].reg_address == ps[j - 1].reg_address + ps[j
                        - 1].len,
                first_addr == ps[0].reg_address,
                i == 0 ==> expected == first_addr,
                i > 0 ==> expected == ps[i - 1].reg_address + ps[i - 1].len,
                first_addr <= expected <= 0x10000,
            decreases n - i,
        {
            let p = &parameters[i];
            proof {
                assert(ps[i as int] == parameters@[i as int]@);
            }
            if !p.check_wf() {
                proof {
                    assert(!param_wf(ps[i as int]));
                    assert(!spec_block_ok(ps));
                }
                return Err(CatalogError::BadParameter { name: p.name.clone() });
            }
            if p.reg_address as u32 != expected {
                proof {
                    assert(i >= 1) by {
                        assert(ps[0].reg_address == first_addr);
                    }
                    assert(ps[i as int].reg_address != ps[i as int - 1].reg_address + ps[i as int
                        - 1].len);
                    assert(!spec_contiguous(ps));
                    assert(!spec_block_ok(ps));
                }
                return Err(
                    CatalogError::ContiguityGap {
                        name: p.name.clone(),
                        expected: expected as u16,
                        found: p.reg_address,
                    },
                );
            }
            expected = p.reg_address as u32 + p.len as u32;
            i += 1;
        }
        let mut i: usize = 1;
        while i < n
            invariant
                0 < n == parameters@.len(),
                ps == params_view(parameters@),
                ps.len() == n,
                forall|j: int| 0 <= j < n ==> #[trigger] ps[j] == parameters@[j]@,
                1 <= i <= n,
                spec_names_unique(ps.take(i as int)),
            decreases n - i,
        {
            let mut j: usize = 0;
            while j < i
                invariant
                    0 < n == parameters@.len(),
                    ps == params_view(parameters@),
                    ps.len() == n,
                    forall|k: int| 0 <= k < n ==> #[trigger] ps[k] == parameters@[k]@,
                    j <= i < n,
                    forall|k: int| 0 <= k < j ==> ps[k].name != ps[i as int].name,
                decreases i - j,
            {
                if strutil::str_eq(parameters[j].name.as_str(), parameters[i].name.as_str()) {
                    proof {
                        assert(ps[j as int].name == ps[i as int].name);
                        assert(!spec_names_unique(ps));
                        assert(!spec_block_ok(ps));
                    }
                    return Err(CatalogError::DuplicateName { name: parameters[i].name.clone() });
                }
                j += 1;
            }
            proof {
                assert forall|a: int, b: int|
                    #![trigger ps.take(i + 1)[a], ps.take(i + 1)[b]]
                    0 <= a < b < i + 1 implies ps.take(i + 1)[a].name != ps.take(i + 1)[b].name by {
                    if b < i {
                        assert(ps.take(i as int)[a].name != ps.take(i as int)[b].name);
                    } else {
                        assert(ps[a].name != ps[i as int].name);
                    }
                }
            }
            i += 1;
        }
        proof {
            assert(ps.take(n as int) =~= ps);
        }
        let span: u32 = expected - first_addr as u32;
        if span > 0xffff {
            return Err(CatalogError::BlockTooLong);
        }
        Ok(ParameterBlock { reg_address: first_addr, len: span as u16, parameters })
    }

}

/// Relies on chrono: `DateTime::from_timestamp`, `Local`'s
/// `TimeZone::from_local_datetime` and `DateTime::to_rfc2822`.  Formats
/// the epoch seconds, read as a local wall-clock time, as a non-empty
/// RFC 2822 string; the text depends on the machine's time zone, and an
/// ambiguous or unmappable local time yields nothing.
#[verifier::external_body]
fn rfc2822_local(secs: u32) -> (r: Option<String>)
    ensures
        r matches Some(s) ==> s@.len() > 0,
{
    let naive = match chrono::DateTime::from_timestamp(secs as i64, 0) {
        Some(dt) => dt.naive_utc(),
        None => return None,
    };
    match chrono::TimeZone::from_local_datetime(&chrono::Local, &naive) {
        chrono::LocalResult::Single(dt) => Some(dt.to_rfc2822()),
        chrono::LocalResult::Ambiguous(_, _) => None,
        chrono::LocalResult::None => None,
    }
}

/// Whether [`Parameter::get_text_value`] accepts the parameter: the gain
/// is positive and the value slot is populated, except that an absent
/// epoch timestamp under gain 1 is rendered as absent.
pub open spec fn spec_displayable(p: ParamModel) -> bool {
    &&& p.gain >= 1
    &&& match p.value {
        ValueModel::Text(v) => v is Some,
        ValueModel::NumberU16(v) => v is Some,
        ValueModel::NumberI16(v) => v is Some,
        ValueModel::NumberI32(v) => v is Some,
        ValueModel::NumberU32(v) => v is Some || (p.gain == 1 && spec_is_epoch_unit(p.unit)),
    }
}

/// What [`Parameter::get_text_value`] renders.  Text passes through;
/// numbers render as decimals, scaled by the gain when it is not 1; a
/// 32-bit unsigned value with gain 1 under an `"epoch"` unit renders as
/// `<seconds>, <RFC 2822 local time>`, with a placeholder when the zone
/// conversion fails and `"None"` when the timestamp is absent.
pub open spec fn spec_display_ok(p: ParamModel, out: Seq<char>) -> bool {
    match p.value {
        ValueModel::Text(v) => v matches Some(s) && out == s,
        ValueModel::NumberU16(v) => v matches Some(x) && out == (if p.gain != 1 {
            scaled_dec(x as int, p.gain as nat)
        } else {
            dec_of_nat(x as nat)
        }),
        ValueModel::NumberI16(v) => v matches Some(x) && out == (if p.gain != 1 {
            scaled_dec(x as int, p.gain as nat)
        } else {
            dec_of_int(x as int)
        }),
        ValueModel::NumberI32(v) => v matches Some(x) && out == (if p.gain != 1 {
            scaled_dec(x as int, p.gain as nat)
        } else {
            dec_of_int(x as int)
        }),
        ValueModel::NumberU32(v) => if p.gain != 1 {
            v matches Some(x) && out == scaled_dec(x as int, p.gain as nat)
        } else if spec_is_epoch_unit(p.unit) {
            match v {
                Some(x) => (exists|tz: Seq<char>|
                    out == dec_of_nat(x as nat) + ", "@ + tz) || out
                    == "timestamp conversion error"@,
                None => out == "None"@,
            }
        } else {
            v matches Some(x) && out == dec_of_nat(x as nat)
        },
    }
}

/// Which value [`Parameter::get_influx_value`] hands to the sink: text
/// as a string field, numbers with gain 1 as a signed integer field, and
/// scaled numbers as the raw value together with the gain divisor.
pub open spec fn spec_sink_value(p: ParamModel) -> FieldModel
    recommends
        spec_sink_ready(p),
{
    match p.value {
        ValueModel::Text(v) => FieldModel::Text(
            match v {
                Some(s) => s,
                None => Seq::empty(),
            },
        ),
        ValueModel::NumberU16(v) => spec_numeric_field(
            match v {
                Some(x) => x as i64,
                None => 0,
            },
            p.gain,
        ),
        ValueModel::NumberI16(v) => spec_numeric_field(
            match v {
                Some(x) => x as i64,
                None => 0,
            },
            p.gain,
        ),
        ValueModel::NumberU32(v) => spec_numeric_field(
            match v {
                Some(x) => x as i64,
                None => 0,
            },
            p.gain,
        ),
        ValueModel::NumberI32(v) => spec_numeric_field(
            match v {
                Some(x) => x as i64,
                None => 0,
            },
            p.gain,
        ),
    }
}

/// A numeric sink field: scaled when the gain is not 1.
pub open spec fn spec_numeric_field(raw: i64, gain: u16) -> FieldModel {
    if gain != 1 {
        FieldModel::Scaled { raw, gain }
    } else {
        FieldModel::SignedInteger(raw)
    }
}

/// Whether [`Parameter::get_influx_value`] accepts the parameter: every
/// value slot must be populated.
pub open spec fn spec_sink_ready(p: ParamModel) -> bool {
    crate::value::spec_has_value(p.value)
}

impl Parameter {
    /// Renders the decoded value as text, per [`spec_display_ok`].
    pub fn get_text_value(&self) -> (r: String)
        requires
            spec_displayable(self@),
        ensures
            spec_display_ok(self@, r@),
    {
        match &self.value {
            ParamKind::Text(v) => match v {
                Some(s) => s.clone(),
                None => {
                    proof {
                        assert(false);
                    }
                    String::new()
                },
            },
            ParamKind::NumberU16(v) => {
                let x = v.unwrap();
                if self.gain != 1 {
                    strutil::scaled_to_dec_string(x as i64, self.gain)
                } else {
                    strutil::u64_to_dec_string(x as u64)
                }
            },
            ParamKind::NumberI16(v) => {
                let x = v.unwrap();
                if self.gain != 1 {
                    strutil::scaled_to_dec_string(x as i64, self.gain)
                } else {
                    strutil::i64_to_dec_string(x as i64)
                }
            },
            ParamKind::NumberU32(v) => {
                if self.gain != 1 {
                    strutil::scaled_to_dec_string(v.unwrap() as i64, self.gain)
                } else {
                    let epoch = match self.unit {
                        Some(u) => strutil::str_eq(u, "epoch"),
                        None => false,
                    };
                    if epoch {
                        match v {
                            Some(x) => {
                                let secs: u32 = *x;
                                match rfc2822_local(secs) {
                                    Some(tz) => {
                                        let d = strutil::u64_to_dec_string(secs as u64);
                                        let r = d.concat(", ").concat(tz.as_str());
                                        proof {
                                            assert(r@ == dec_of_nat(secs as nat) + ", "@ + tz@);
                                        }
                                        r
                                    },
                                    None => String::from_str("timestamp conversion error"),
                                }
                            },
                            None => String::from_str("None"),
                        }
                    } else {
                        strutil::u64_to_dec_string(v.unwrap() as u64)
                    }
                }
            },
            ParamKind::NumberI32(v) => {
                let x = v.unwrap();
                if self.gain != 1 {
                    strutil::scaled_to_dec_string(x as i64, self.gain)
                } else {
                    strutil::i64_to_dec_string(x as i64)
                }
            },
        }
    }

    /// Converts the decoded value into a sink field, per
    /// [`spec_sink_value`].
    pub fn get_influx_value(&self) -> (r: FieldValue)
        requires
            spec_sink_ready(self@),
        ensures
            r@ == spec_sink_value(self@),
    {
        match &self.value {
            ParamKind::Text(v) => match v {
                Some(s) => FieldValue::Text(s.clone()),
                None => {
                    proof {
                        assert(false);
                    }
                    FieldValue::Text(String::new())
                },
            },
            ParamKind::NumberU16(v) => self.numeric_field(v.unwrap() as i64),
            ParamKind::NumberI16(v) => self.numeric_field(v.unwrap() as i64),
            ParamKind::NumberU32(v) => self.numeric_field(v.unwrap() as i64),
            ParamKind::NumberI32(v) => self.numeric_field(v.unwrap() as i64),
        }
    }

    /// A copy with the same model.  (The derived `Clone` carries no
    /// specification.)
    pub fn duplicate(&self) -> (r: Parameter)
        ensures
            r@ == self@,
    {
        Parameter {
            name: self.name.clone(),
            value: self.value.duplicate(),
            desc: self.desc,
            unit: self.unit,
            gain: self.gain,
            reg_address: self.reg_address,
            len: self.len,
            initial_read: self.initial_read,
            save_to_influx: self.save_to_influx,
        }
    }

    /// Wraps a raw numeric value for the sink, per
    /// [`spec_numeric_field`].
    fn numeric_field(&self, raw: i64) -> (r: FieldValue)
        ensures
            r@ == spec_numeric_field(raw, self@.gain),
    {
        if self.gain != 1 {
            FieldValue::Scaled { raw, gain: self.gain }
        } else {
            FieldValue::SignedInteger(raw)
        }
    }
}

} // verus!
