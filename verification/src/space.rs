//! The typed model of an action/observation space, its parser from the wire
//! description, and its random sampler.
//!
//! A space is one of three variants: `DISCRETE` (one integer bound),
//! `BOX` (a continuous box with per-element real bounds), or `TUPLE`
//! (an ordered composite of nested spaces).  Real bounds are IEEE 754
//! binary64 values carried by their raw bit patterns; the library never
//! computes on them, it only routes them.

use vstd::prelude::*;

use crate::error::GymError;
use crate::json::JsonValue;
use crate::random::RandomSource;

verus! {

/// A space description, as the remote service declares it.
#[derive(Debug)]
pub enum Space {
    /// A single integer in `[0, n)`.
    DISCRETE { n: u64 },
    /// A flat sequence of reals; `shape` gives the per-axis dimension
    /// counts, and `low`/`high` give one bound pair per flattened scalar,
    /// each bound a binary64 bit pattern.
    BOX { shape: Vec<u64>, high: Vec<u64>, low: Vec<u64> },
    /// An ordered sequence of nested spaces.
    TUPLE { spaces: Vec<Box<Space>> },
}

/// One position of a sampling plan: what has to be drawn there.
#[derive(Debug, Clone, Copy, PartialEq, Eq, Structural)]
pub enum Axis {
    /// A uniform integer below `n`.
    IntBelow { n: u64 },
    /// A uniform binary64 real in `[low, high)`, both bounds bit patterns.
    RealIn { low: u64, high: u64 },
}

/// One sampled scalar.  Integer draws are resolved by the library; a real
/// draw is handed back still pending, as its exact bounds, for the host's
/// floating-point uniform primitive to resolve.  A pending draw whose two
/// bound patterns are equal denotes the degenerate one-point domain: the
/// boundary value itself is the sample.
#[derive(Debug, Clone, Copy, PartialEq, Eq, Structural)]
pub enum Draw {
    /// A resolved integer draw.
    IntVal { v: u64 },
    /// A pending uniform real draw from `[low, high)`.
    RealIn { low: u64, high: u64 },
}

/// The sum of a sequence of dimension counts.
pub open spec fn sum_of(s: Seq<u64>) -> int
    decreases s.len(),
{
    if s.len() == 0 {
        0
    } else {
        sum_of(s.drop_last()) + s.last()
    }
}

/// The value of the `name` discriminator field, where it is a text field.
pub open spec fn name_field(v: JsonValue) -> Option<Seq<char>> {
    match v.spec_get("name"@) {
        Some(JsonValue::Text { s }) => Some(s@),
        _ => None,
    }
}

/// The value of an unsigned-integer field, where it is one.
pub open spec fn uint_field(v: JsonValue, key: Seq<char>) -> Option<u64> {
    match v.spec_get(key) {
        Some(JsonValue::Number { as_uint: Some(u), .. }) => Some(u),
        _ => None,
    }
}

/// The items of a list field, where it is one.
pub open spec fn list_field(v: JsonValue, key: Seq<char>) -> Option<Seq<JsonValue>> {
    match v.spec_get(key) {
        Some(JsonValue::List { items }) => Some(items@),
        _ => None,
    }
}

pub open spec fn is_uint(v: JsonValue) -> bool {
    v matches JsonValue::Number { as_uint: Some(_), .. }
}

pub open spec fn uint_of(v: JsonValue) -> u64 {
    match v {
        JsonValue::Number { as_uint: Some(u), .. } => u,
        _ => 0,
    }
}

pub open spec fn is_number(v: JsonValue) -> bool {
    v is Number
}

pub open spec fn bits_of(v: JsonValue) -> u64 {
    match v {
        JsonValue::Number { bits, .. } => bits,
        _ => 0,
    }
}

pub open spec fn all_uints(items: Seq<JsonValue>) -> bool {
    forall|i: int| 0 <= i < items.len() ==> is_uint(#[trigger] items[i])
}

pub open spec fn all_numbers(items: Seq<JsonValue>) -> bool {
    forall|i: int| 0 <= i < items.len() ==> is_number(#[trigger] items[i])
}

pub open spec fn uints_of(items: Seq<JsonValue>) -> Seq<u64> {
    Seq::new(items.len(), |i: int| uint_of(items[i]))
}

pub open spec fn bits_items(items: Seq<JsonValue>) -> Seq<u64> {
    Seq::new(items.len(), |i: int| bits_of(items[i]))
}

/// Whether `r` is the schema error naming `f`.
pub open spec fn is_schema(r: Result<Space, GymError>, f: Seq<char>) -> bool {
    r matches Err(GymError::Schema { detail }) && detail@ == f
}

/// Exactly how `Space::from_json` answers a `Box` description: the three
/// field lists are read in the order shape, high, low; the first missing or
/// ill-typed one names the schema error, and inconsistent lengths are
/// charged to `shape`.
pub open spec fn box_outcome(v: JsonValue, r: Result<Space, GymError>) -> bool {
    match (list_field(v, "shape"@), list_field(v, "high"@), list_field(v, "low"@)) {
        (None, _, _) => is_schema(r, "shape"@),
        (Some(_), None, _) => is_schema(r, "high"@),
        (Some(_), Some(_), None) => is_schema(r, "low"@),
        (Some(sh), Some(hi), Some(lo)) => {
            if !all_uints(sh) {
                is_schema(r, "shape"@)
            } else if !all_numbers(hi) {
                is_schema(r, "high"@)
            } else if !all_numbers(lo) {
                is_schema(r, "low"@)
            } else if hi.len() != lo.len() || sum_of(uints_of(sh)) != lo.len() {
                is_schema(r, "shape"@)
            } else {
                r matches Ok(s) && s matches Space::BOX { shape, high, low }
                    && shape@ == uints_of(sh) && high@ == bits_items(hi) && low@ == bits_items(lo)
            }
        },
    }
}

/// Whether a `Box` description carries all three lists, well typed and
/// consistent in length.
pub open spec fn box_parses(v: JsonValue) -> bool {
    &&& list_field(v, "shape"@) matches Some(sh)
    &&& list_field(v, "high"@) matches Some(hi)
    &&& list_field(v, "low"@) matches Some(lo)
    &&& all_uints(sh)
    &&& all_numbers(hi)
    &&& all_numbers(lo)
    &&& hi.len() == lo.len()
    &&& sum_of(uints_of(sh)) == lo.len()
}

/// Whether a description parses at all.
pub open spec fn parses(v: JsonValue) -> bool {
    match name_field(v) {
        None => false,
        Some(nm) => if nm == "Discrete"@ {
            uint_field(v, "n"@) is Some
        } else if nm == "Box"@ {
            box_parses(v)
        } else {
            false
        },
    }
}

/// Exactly how `Space::from_json` answers any description: which
/// descriptions succeed, what space each one yields, and which error every
/// other description draws.
pub open spec fn parse_outcome(v: JsonValue, r: Result<Space, GymError>) -> bool {
    match name_field(v) {
        None => is_schema(r, "name"@),
        Some(nm) => if nm == "Discrete"@ {
            match uint_field(v, "n"@) {
                Some(n) => r == Ok::<Space, GymError>(Space::DISCRETE { n }),
                None => is_schema(r, "n"@),
            }
        } else if nm == "Box"@ {
            box_outcome(v, r)
        } else if nm == "Tuple"@ {
            r == Err::<Space, GymError>(GymError::UnsupportedSpace)
        } else {
            is_schema(r, nm)
        },
    }
}

impl Space {
    /// Well-formedness: a box's bound lists agree with each other and with
    /// the sum of its dimension counts, recursively through tuples.
    pub open spec fn wf(self) -> bool
        decreases self,
    {
        match self {
            Space::DISCRETE { .. } => true,
            Space::BOX { shape, high, low } => high@.len() == low@.len() && sum_of(shape@)
                == low@.len(),
            Space::TUPLE { spaces } => forall|i: int|
                0 <= i < spaces@.len() ==> (#[trigger] spaces@[i]).wf(),
        }
    }

    /// Deep structural equality of two spaces.
    pub open spec fn eqv(self, other: Space) -> bool
        decreases self,
    {
        match (self, other) {
            (Space::DISCRETE { n }, Space::DISCRETE { n: n2 }) => n == n2,
            (
                Space::BOX { shape, high, low },
                Space::BOX { shape: shape2, high: high2, low: low2 },
            ) => shape@ == shape2@ && high@ == high2@ && low@ == low2@,
            (Space::TUPLE { spaces }, Space::TUPLE { spaces: spaces2 }) => {
                &&& spaces@.len() == spaces2@.len()
                &&& forall|i: int|
                    0 <= i < spaces@.len() ==> (#[trigger] spaces@[i]).eqv(*spaces2@[i])
            },
            _ => false,
        }
    }

    /// The sampling plan: one entry per flattened scalar position, in order.
    /// A discrete space is one integer draw; a box is one real draw per
    /// bound pair, in bound order; a tuple concatenates its children's
    /// plans.
    pub open spec fn spec_plan(self) -> Seq<Axis>
        decreases self, 0int,
    {
        match self {
            Space::DISCRETE { n } => seq![Axis::IntBelow { n }],
            Space::BOX { shape, high, low } => Seq::new(
                low@.len(),
                |i: int| Axis::RealIn { low: low@[i], high: high@[i] },
            ),
            Space::TUPLE { spaces } => Self::spec_plans(spaces@, 0),
        }
    }

    /// The concatenated plans of `spaces[i..]`.
    pub open spec fn spec_plans(spaces: Seq<Box<Space>>, i: int) -> Seq<Axis>
        decreases spaces, spaces.len() - i,
    {
        if i < 0 || i >= spaces.len() {
            Seq::empty()
        } else {
            spaces[i].spec_plan() + Self::spec_plans(spaces, i + 1)
        }
    }

    /// Whether sampling is owed a result: the space is well formed and every
    /// integer draw has a non-empty domain.  (Whether a pending real draw's
    /// domain is empty is not the library's question: its bounds are opaque
    /// bit patterns, and the host primitive that resolves the draw decides.)
    pub open spec fn samplable(self) -> bool {
        &&& self.wf()
        &&& forall|i: int|
            0 <= i < self.spec_plan().len() ==> ((#[trigger] self.spec_plan()[i]) matches
                Axis::IntBelow { n } ==> n >= 1)
    }
}

impl Space {
    /// Parses a space description: the `name` field picks the variant, the
    /// variant's own fields follow.  A missing or ill-typed field yields the
    /// schema error naming it; an unrecognized variant yields the schema
    /// error naming that variant; a `Tuple` description is refused outright,
    /// whatever its payload, since its wire encoding is unsupported.  Box
    /// bound lists must agree in length with each other and with the sum of
    /// the dimension counts; the parsed space is always well formed.
    pub fn from_json(info: &JsonValue) -> (r: Result<Space, GymError>)
        ensures
            parse_outcome(*info, r),
            r is Ok <==> parses(*info),
            r matches Ok(s) ==> s.wf(),
    {
        let name = match info.find("name") {
            Some(JsonValue::Text { s }) => s,
            _ => {
                return Err(schema_err("name"));
            },
        };
        if crate::json::string_eq_str(name, "Discrete") {
            match info.find("n") {
                Some(JsonValue::Number { as_uint: Some(u), .. }) => Ok(Space::DISCRETE { n: *u }),
                _ => Err(schema_err("n")),
            }
        } else if crate::json::string_eq_str(name, "Box") {
            let shape_items = match info.find("shape") {
                Some(JsonValue::List { items }) => items,
                _ => {
                    return Err(schema_err("shape"));
                },
            };
            let high_items = match info.find("high") {
                Some(JsonValue::List { items }) => items,
                _ => {
                    return Err(schema_err("high"));
                },
            };
            let low_items = match info.find("low") {
                Some(JsonValue::List { items }) => items,
                _ => {
                    return Err(schema_err("low"));
                },
            };
            let shape = match read_uints(shape_items) {
                Some(v) => v,
                None => {
                    return Err(schema_err("shape"));
                },
            };
            let high = match read_bits(high_items) {
                Some(v) => v,
                None => {
                    return Err(schema_err("high"));
                },
            };
            let low = match read_bits(low_items) {
                Some(v) => v,
                None => {
                    return Err(schema_err("low"));
                },
            };
            if high.len() != low.len() {
                return Err(schema_err("shape"));
            }
            if !sum_matches(&shape, low.len()) {
                return Err(schema_err("shape"));
            }
            Ok(Space::BOX { shape, high, low })
        } else if crate::json::string_eq_str(name, "Tuple") {
            Err(GymError::UnsupportedSpace)
        } else {
            Err(GymError::Schema { detail: name.clone() })
        }
    }

    /// The sampling plan of a well-formed space, or the schema error of the
    /// first ill-formed box found.
    #[verifier::loop_isolation(false)]
    pub fn plan(&self) -> (r: Result<Vec<Axis>, GymError>)
        ensures
            r is Ok <==> self.wf(),
            r matches Ok(p) ==> p@ == self.spec_plan(),
            r matches Err(e) ==> e matches GymError::Schema { .. },
        decreases *self,
    {
        match self {
            Space::DISCRETE { n } => {
                let mut out: Vec<Axis> = Vec::new();
                out.push(Axis::IntBelow { n: *n });
                proof {
                    assert(out@ =~= seq![Axis::IntBelow { n: *n }]);
                }
                Ok(out)
            },
            Space::BOX { shape, high, low } => {
                if high.len() != low.len() {
                    return Err(schema_err("shape"));
                }
                if !sum_matches(shape, low.len()) {
                    return Err(schema_err("shape"));
                }
                let m = low.len();
                let mut out: Vec<Axis> = Vec::new();
                let mut i: usize = 0;
                while i < m
                    invariant
                        0 <= i <= m,
                        out@.len() == i,
                        forall|j: int|
                            0 <= j < i ==> out@[j] == (Axis::RealIn {
                                low: low@[j],
                                high: high@[j],
                            }),
                    decreases m - i,
                {
                    out.push(Axis::RealIn { low: low[i], high: high[i] });
                    i = i + 1;
                }
                proof {
                    assert(out@ =~= self.spec_plan());
                }
                Ok(out)
            },
            Space::TUPLE { spaces } => {
                let m = spaces.len();
                let mut out: Vec<Axis> = Vec::new();
                let mut i: usize = 0;
                while i < m
                    invariant
                        0 <= i <= m,
                        forall|j: int| 0 <= j < i ==> (#[trigger] spaces@[j]).wf(),
                        out@ + Self::spec_plans(spaces@, i as int) == Self::spec_plans(
                            spaces@,
                            0,
                        ),
                    decreases m - i,
                {
                    match spaces[i].plan() {
                        Ok(mut p) => {
                            proof {
                                assert(out@ + Self::spec_plans(spaces@, i as int) =~= (out@ + p@)
                                    + Self::spec_plans(spaces@, i as int + 1));
                            }
                            out.append(&mut p);
                        },
                        Err(e) => {
                            proof {
                                assert(!spaces@[i as int].wf());
                            }
                            return Err(e);
                        },
                    }
                    i = i + 1;
                }
                proof {
                    assert(out@ + Self::spec_plans(spaces@, m as int) =~= out@);
                }
                Ok(out)
            },
        }
    }

    /// Draws one random value vector from the space: integer draws are
    /// resolved uniformly by the thread-local generator, real draws come
    /// back pending with their exact bounds.  An ill-formed space, and a
    /// discrete bound of zero (an empty sampling domain), fail fast with a
    /// schema error rather than sample garbage.
    #[verifier::loop_isolation(false)]
    pub fn sample(&self) -> (r: Result<Vec<Draw>, GymError>)
        ensures
            r is Ok <==> self.samplable(),
            r matches Ok(d) ==> fills(d@, self.spec_plan()),
            r matches Err(e) ==> e matches GymError::Schema { .. },
    {
        let plan = match self.plan() {
            Ok(p) => p,
            Err(e) => {
                return Err(e);
            },
        };
        let mut rng = RandomSource::fresh();
        let mut out: Vec<Draw> = Vec::new();
        let mut i: usize = 0;
        while i < plan.len()
            invariant
                0 <= i <= plan@.len(),
                out@.len() == i,
                forall|j: int| 0 <= j < i ==> draw_fills(#[trigger] out@[j], plan@[j]),
                forall|j: int|
                    0 <= j < i ==> ((#[trigger] plan@[j]) matches Axis::IntBelow { n } ==> n
                        >= 1),
            decreases plan@.len() - i,
        {
            let a = plan[i];
            match a {
                Axis::IntBelow { n } => {
                    if n == 0 {
                        return Err(schema_err("n"));
                    }
                    let v = rng.below(n);
                    out.push(Draw::IntVal { v });
                },
                Axis::RealIn { low, high } => {
                    out.push(Draw::RealIn { low, high });
                },
            }
            i = i + 1;
        }
        Ok(out)
    }

    /// A deep copy: the result is structurally equal to the original.
    #[verifier::loop_isolation(false)]
    pub fn duplicate(&self) -> (r: Space)
        ensures
            r.eqv(*self),
        decreases *self,
    {
        match self {
            Space::DISCRETE { n } => Space::DISCRETE { n: *n },
            Space::BOX { shape, high, low } => Space::BOX {
                shape: copy_u64s(shape),
                high: copy_u64s(high),
                low: copy_u64s(low),
            },
            Space::TUPLE { spaces } => {
                let m = spaces.len();
                let mut out: Vec<Box<Space>> = Vec::new();
                let mut i: usize = 0;
                while i < m
                    invariant
                        0 <= i <= m,
                        out@.len() == i,
                        forall|j: int| 0 <= j < i ==> (#[trigger] out@[j]).eqv(*spaces@[j]),
                    decreases m - i,
                {
                    let d = spaces[i].duplicate();
                    out.push(Box::new(d));
                    i = i + 1;
                }
                Space::TUPLE { spaces: out }
            },
        }
    }
}

/// Whatever a discrete space's sampler returns is a single integer draw,
/// and that integer lies in `[0, n)`.
pub proof fn lemma_discrete_sample_in_range(n: u64, d: Seq<Draw>)
    requires
        fills(d, (Space::DISCRETE { n }).spec_plan()),
    ensures
        d.len() == 1,
        d[0] matches Draw::IntVal { v } && v < n,
{
    assert(draw_fills(d[0], (Space::DISCRETE { n }).spec_plan()[0]));
}

/// Whatever a box space's sampler returns has one pending real draw per
/// bound pair, carrying exactly the pair at its position.
pub proof fn lemma_box_sample_bounds(s: Space, d: Seq<Draw>)
    requires
        s is BOX,
        fills(d, s.spec_plan()),
    ensures
        d.len() == s->low@.len(),
        forall|i: int|
            0 <= i < d.len() ==> d[i] == (Draw::RealIn { low: s->low@[i], high: s->high@[i] }),
{
    assert forall|i: int| 0 <= i < d.len() implies d[i] == (Draw::RealIn {
        low: s->low@[i],
        high: s->high@[i],
    }) by {
        assert(draw_fills(d[i], s.spec_plan()[i]));
    }
}

/// Structurally equal spaces agree on well-formedness and have the same
/// sampling plan; what is proved of sampling one therefore holds of any
/// copy of it.
pub proof fn lemma_eqv_same_model(a: Space, b: Space)
    requires
        a.eqv(b),
    ensures
        a.wf() == b.wf(),
        a.spec_plan() == b.spec_plan(),
    decreases a, 1int,
{
    match (a, b) {
        (Space::BOX { shape, high, low }, Space::BOX { shape: shape2, high: high2, low: low2 }) => {
            assert(a.spec_plan() =~= b.spec_plan());
        },
        (Space::TUPLE { spaces }, Space::TUPLE { spaces: spaces2 }) => {
            assert forall|i: int| 0 <= i < spaces2@.len() && a.wf() implies (
            #[trigger] spaces2@[i]).wf() by {
                assert(spaces@[i].wf());
                lemma_eqv_same_model(*spaces@[i], *spaces2@[i]);
            }
            assert forall|i: int| 0 <= i < spaces@.len() && b.wf() implies (
            #[trigger] spaces@[i]).wf() by {
                assert(spaces2@[i].wf());
                lemma_eqv_same_model(*spaces@[i], *spaces2@[i]);
            }
            lemma_eqv_same_plans(spaces@, spaces2@, 0);
        },
        _ => {},
    }
}

proof fn lemma_eqv_same_plans(s1: Seq<Box<Space>>, s2: Seq<Box<Space>>, i: int)
    requires
        s1.len() == s2.len(),
        forall|j: int| 0 <= j < s1.len() ==> (#[trigger] s1[j]).eqv(*s2[j]),
    ensures
        Space::spec_plans(s1, i) == Space::spec_plans(s2, i),
    decreases s1, s1.len() - i,
{
    if 0 <= i < s1.len() {
        lemma_eqv_same_model(*s1[i], *s2[i]);
        lemma_eqv_same_plans(s1, s2, i + 1);
    }
}

/// The schema error naming the given field or variant.
pub(crate) fn schema_err(f: &str) -> (e: GymError)
    ensures
        e matches GymError::Schema { detail } && detail@ == f@,
{
    GymError::Schema { detail: f.to_owned() }
}

/// Reads a list of unsigned-integer numbers, or reports that some item is
/// not one.
#[verifier::loop_isolation(false)]
fn read_uints(items: &Vec<JsonValue>) -> (r: Option<Vec<u64>>)
    ensures
        match r {
            Some(out) => all_uints(items@) && out@ == uints_of(items@),
            None => !all_uints(items@),
        },
{
    let mut out: Vec<u64> = Vec::new();
    let mut i: usize = 0;
    while i < items.len()
        invariant
            0 <= i <= items@.len(),
            out@.len() == i,
            forall|j: int|
                0 <= j < i ==> is_uint(#[trigger] items@[j]) && out@[j] == uint_of(items@[j]),
        decreases items@.len() - i,
    {
        match &items[i] {
            JsonValue::Number { as_uint: Some(u), .. } => {
                out.push(*u);
            },
            _ => {
                return None;
            },
        }
        i = i + 1;
    }
    proof {
        assert(out@ =~= uints_of(items@));
    }
    Some(out)
}

/// Reads a list of numbers as binary64 bit patterns, or reports that some
/// item is not a number.
#[verifier::loop_isolation(false)]
pub(crate) fn read_bits(items: &Vec<JsonValue>) -> (r: Option<Vec<u64>>)
    ensures
        match r {
            Some(out) => all_numbers(items@) && out@ == bits_items(items@),
            None => !all_numbers(items@),
        },
{
    let mut out: Vec<u64> = Vec::new();
    let mut i: usize = 0;
    while i < items.len()
        invariant
            0 <= i <= items@.len(),
            out@.len() == i,
            forall|j: int|
                0 <= j < i ==> is_number(#[trigger] items@[j]) && out@[j] == bits_of(items@[j]),
        decreases items@.len() - i,
    {
        match &items[i] {
            JsonValue::Number { bits, .. } => {
                out.push(*bits);
            },
            _ => {
                return None;
            },
        }
        i = i + 1;
    }
    proof {
        assert(out@ =~= bits_items(items@));
    }
    Some(out)
}

/// Whether the dimension counts sum to exactly `want`.
#[verifier::loop_isolation(false)]
fn sum_matches(shape: &Vec<u64>, want: usize) -> (r: bool)
    ensures
        r == (sum_of(shape@) == want as int),
{
    let mut total: u128 = 0;
    let mut i: usize = 0;
    while i < shape.len()
        invariant
            0 <= i <= shape@.len(),
            total as int == sum_of(shape@.subrange(0, i as int)),
            total as int <= i as int * (u64::MAX as int),
        decreases shape@.len() - i,
    {
        proof {
            assert(shape@.subrange(0, i + 1).drop_last() =~= shape@.subrange(0, i as int));
            assert(shape@.subrange(0, i + 1).last() == shape@[i as int]);
            assert((i + 1) as int * (u64::MAX as int) <= 0x1_0000_0000_0000_0000 * (
            u64::MAX as int)) by (nonlinear_arith)
                requires
                    i + 1 <= 0x1_0000_0000_0000_0000,
            ;
        }
        total = total + (shape[i] as u128);
        i = i + 1;
    }
    proof {
        assert(shape@.subrange(0, shape@.len() as int) =~= shape@);
    }
    total == (want as u128)
}

/// An element-for-element copy of a bound list.
#[verifier::loop_isolation(false)]
fn copy_u64s(v: &Vec<u64>) -> (r: Vec<u64>)
    ensures
        r@ == v@,
{
    let mut out: Vec<u64> = Vec::new();
    let mut i: usize = 0;
    while i < v.len()
        invariant
            0 <= i <= v@.len(),
            out@ == v@.subrange(0, i as int),
        decreases v@.len() - i,
    {
        out.push(v[i]);
        proof {
            assert(out@ =~= v@.subrange(0, i + 1));
        }
        i = i + 1;
    }
    proof {
        assert(v@.subrange(0, v@.len() as int) =~= v@);
    }
    out
}

/// Whether one sampled scalar answers one plan position.
pub open spec fn draw_fills(d: Draw, a: Axis) -> bool {
    match a {
        Axis::IntBelow { n } => d matches Draw::IntVal { v } && v < n,
        Axis::RealIn { low, high } => d == (Draw::RealIn { low, high }),
    }
}

/// Whether a sampled vector answers a plan, position by position.
pub open spec fn fills(d: Seq<Draw>, plan: Seq<Axis>) -> bool {
    &&& d.len() == plan.len()
    &&& forall|i: int| 0 <= i < d.len() ==> draw_fills(#[trigger] d[i], plan[i])
}

} // verus!
