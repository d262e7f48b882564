use vstd::prelude::*;

use crate::payload::{IntegerValue, PayloadValue, Timestamp};

verus! {

/// Longest sequence that is projected element by element; longer ones are abbreviated.
pub const MAX_LISTED: usize = 10;

/// What stands for binary data in a display document.
pub const BLOB_LABEL: &'static str = "<base64 blob>";

/// Second element of an abbreviated sequence.
pub const ABBREVIATED_LABEL: &'static str = "(abbreviated)";

/// Prefix of the first element of an abbreviated sequence.
pub const COUNT_PREFIX: &'static str = "count: ";

/// Type names that stand for values that are not displayed.
pub const REAL_LABEL: &'static str = "f64";

pub const UID_LABEL: &'static str = "plist::Uid";

pub const UNKNOWN_LABEL: &'static str = "plist::Value";

/// What stands for a date that has no four-digit year.
pub const DATE_OUT_OF_RANGE: &'static str = "<date out of range>";

/// First second of the year 0000, UTC.
pub const EARLIEST_TEXT_SECS: i64 = -62167219200;

/// Last second of the year 9999, UTC.
pub const LATEST_TEXT_SECS: i64 = 253402300799;

/// A display-safe value: what a display document is made of.
#[derive(Debug, PartialEq)]
pub enum DisplayValue {
    Text(String),
    Integer(i128),
    Boolean(bool),
    List(Vec<DisplayValue>),
    Mapping(Vec<(String, DisplayValue)>),
}

/// The mathematical form of a display value.
pub enum DisplayModel {
    Text(Seq<char>),
    Integer(int),
    Boolean(bool),
    List(Seq<DisplayModel>),
    Mapping(Seq<(Seq<char>, DisplayModel)>),
}

impl DisplayValue {
    pub open spec fn model(self) -> DisplayModel
        decreases self,
    {
        match self {
            DisplayValue::Text(s) => DisplayModel::Text(s@),
            DisplayValue::Integer(i) => DisplayModel::Integer(i as int),
            DisplayValue::Boolean(b) => DisplayModel::Boolean(b),
            DisplayValue::List(v) => DisplayModel::List(
                Seq::new(
                    v@.len(),
                    |i: int|
                        if 0 <= i < v@.len() {
                            v[i].model()
                        } else {
                            DisplayModel::Boolean(false)
                        },
                ),
            ),
            DisplayValue::Mapping(m) => DisplayModel::Mapping(
                Seq::new(
                    m@.len(),
                    |i: int|
                        if 0 <= i < m@.len() {
                            (m[i].0@, m[i].1.model())
                        } else {
                            (Seq::empty(), DisplayModel::Boolean(false))
                        },
                ),
            ),
        }
    }
}

/// The display model of each entry of a mapping, keys kept.
pub open spec fn entries_model(m: Seq<(String, DisplayValue)>) -> Seq<(Seq<char>, DisplayModel)> {
    Seq::new(m.len(), |i: int| (m[i].0@, m[i].1.model()))
}

/// Decimal digits of a natural number, most significant first.
pub open spec fn decimal(n: nat) -> Seq<char>
    decreases n,
{
    let digit = seq!['0', '1', '2', '3', '4', '5', '6', '7', '8', '9'][(n % 10) as int];
    if n < 10 {
        seq![digit]
    } else {
        decimal(n / 10).push(digit)
    }
}

/// The RFC 3339 text, in UTC, of the instant `secs` seconds and `nanos` nanoseconds
/// after the Unix epoch, as a property list writes a date.
pub uninterp spec fn xml_date_text(secs: int, nanos: int) -> Seq<char>;

/// Relies on `ToString` for `usize`: its decimal digits, without sign or padding.
#[verifier::external_body]
pub(crate) fn decimal_text(n: usize) -> (r: String)
    ensures
        r@ == decimal(n as nat),
{
    n.to_string()
}

/// Relies on `plist::Date::to_xml_format` (through `chrono::DateTime::from_timestamp`
/// and `SystemTime`): the date as a property list writes it. Years 0 to 9999 only,
/// where the formatting cannot fail.
#[verifier::external_body]
fn xml_date(ts: &Timestamp) -> (r: String)
    requires
        ts.wf(),
        EARLIEST_TEXT_SECS <= ts.secs <= LATEST_TEXT_SECS,
    ensures
        r@ == xml_date_text(ts.secs as int, ts.nanos as int),
{
    chrono::DateTime::from_timestamp(ts.secs, ts.nanos).map(
        |d| plist::Date::from(std::time::SystemTime::from(d)).to_xml_format(),
    ).unwrap_or_default()
}

/// Text for a date in a display document.
pub open spec fn date_text(ts: Timestamp) -> Seq<char> {
    if ts.wf() && EARLIEST_TEXT_SECS <= ts.secs <= LATEST_TEXT_SECS {
        xml_date_text(ts.secs as int, ts.nanos as int)
    } else {
        DATE_OUT_OF_RANGE@
    }
}

/// The two elements that replace a sequence of `n` elements when it is too long to list.
pub open spec fn abbreviation(n: nat) -> Seq<DisplayModel> {
    seq![DisplayModel::Text(COUNT_PREFIX@ + decimal(n)), DisplayModel::Text(ABBREVIATED_LABEL@)]
}

/// The display form of a payload value.
pub open spec fn project_spec(t: PayloadValue) -> DisplayModel
    decreases t,
{
    match t {
        PayloadValue::String(s) => DisplayModel::Text(s@),
        PayloadValue::Integer(i) => DisplayModel::Integer(i.value()),
        PayloadValue::Boolean(b) => DisplayModel::Boolean(b),
        PayloadValue::Date(ts) => DisplayModel::Text(date_text(ts)),
        PayloadValue::Binary(_) => DisplayModel::Text(BLOB_LABEL@),
        PayloadValue::Sequence(v) => if v@.len() <= MAX_LISTED {
            DisplayModel::List(
                Seq::new(
                    v@.len(),
                    |i: int|
                        if 0 <= i < v@.len() {
                            project_spec(v[i])
                        } else {
                            DisplayModel::Boolean(false)
                        },
                ),
            )
        } else {
            DisplayModel::List(abbreviation(v@.len()))
        },
        PayloadValue::Mapping(m) => DisplayModel::Mapping(
            Seq::new(
                m@.len(),
                |i: int|
                    if 0 <= i < m@.len() {
                        (m[i].0@, project_spec(m[i].1))
                    } else {
                        (Seq::empty(), DisplayModel::Boolean(false))
                    },
            ),
        ),
        PayloadValue::Real => DisplayModel::Text(REAL_LABEL@),
        PayloadValue::Uid(_) => DisplayModel::Text(UID_LABEL@),
        PayloadValue::Unknown => DisplayModel::Text(UNKNOWN_LABEL@),
    }
}

/// The text that stands for a date in a display document.
pub fn date_display(ts: &Timestamp) -> (r: String)
    ensures
        r@ == date_text(*ts),
{
    if ts.nanos < 1_000_000_000 && EARLIEST_TEXT_SECS <= ts.secs && ts.secs <= LATEST_TEXT_SECS {
        xml_date(ts)
    } else {
        DATE_OUT_OF_RANGE.to_owned()
    }
}

/// The two elements that replace a sequence of `n` elements.
fn abbreviate(n: usize) -> (r: Vec<DisplayValue>)
    ensures
        DisplayValue::List(r).model() == DisplayModel::List(abbreviation(n as nat)),
{
    let count = COUNT_PREFIX.to_owned().concat(decimal_text(n).as_str());
    let mut r: Vec<DisplayValue> = Vec::new();
    r.push(DisplayValue::Text(count));
    r.push(DisplayValue::Text(ABBREVIATED_LABEL.to_owned()));
    assert(DisplayValue::List(r).model() =~= DisplayModel::List(abbreviation(n as nat))) by {
        if let DisplayModel::List(s) = DisplayValue::List(r).model() {
            assert(s[0] == r@[0].model());
            assert(s[1] == r@[1].model());
            assert(s =~= abbreviation(n as nat));
        }
    }
    r
}

/// Projects a payload value into its display form: scalars as text, numbers or
/// flags, binary data as a label, sequences of more than [`MAX_LISTED`] elements as
/// their length, mappings with their keys.
pub fn project(t: &PayloadValue) -> (r: DisplayValue)
    ensures
        r.model() == project_spec(*t),
    decreases t,
{
    match t {
        PayloadValue::String(s) => DisplayValue::Text(s.clone()),
        PayloadValue::Integer(i) => DisplayValue::Integer(i.to_i128()),
        PayloadValue::Boolean(b) => DisplayValue::Boolean(*b),
        PayloadValue::Date(ts) => DisplayValue::Text(date_display(ts)),
        PayloadValue::Binary(_) => DisplayValue::Text(BLOB_LABEL.to_owned()),
        PayloadValue::Sequence(v) => {
            if v.len() <= MAX_LISTED {
                let mut out: Vec<DisplayValue> = Vec::new();
                let mut i: usize = 0;
                while i < v.len()
                    invariant
                        i <= v@.len(),
                        out@.len() == i,
                        *t == PayloadValue::Sequence(*v),
                        forall|j: int| 0 <= j < i ==> #[trigger] out@[j].model() == project_spec(v@[j]),
                    decreases v@.len() - i,
                {
                    proof {
                        vstd::std_specs::vec::axiom_vec_index_decreases(*v, i as int);
                        assert(decreases_to!(*t => (*t)->Sequence_0));
                    }
                    let d = project(&v[i]);
                    out.push(d);
                    i += 1;
                }
                let r = DisplayValue::List(out);
                assert(r.model() =~= project_spec(*t)) by {
                    if let DisplayModel::List(a) = r.model() {
                        if let DisplayModel::List(b) = project_spec(*t) {
                            assert forall|j: int| 0 <= j < a.len() implies a[j] == b[j] by {
                                assert(out@[j].model() == project_spec(v@[j]));
                            }
                            assert(a =~= b);
                        }
                    }
                }
                r
            } else {
                DisplayValue::List(abbreviate(v.len()))
            }
        },
        PayloadValue::Mapping(m) => {
            let mut out: Vec<(String, DisplayValue)> = Vec::new();
            let mut i: usize = 0;
            while i < m.len()
                invariant
                    i <= m@.len(),
                    out@.len() == i,
                    *t == PayloadValue::Mapping(*m),
                    forall|j: int|
                        0 <= j < i ==> #[trigger] out@[j].0@ == m@[j].0@ && out@[j].1.model()
                            == project_spec(m@[j].1),
                decreases m@.len() - i,
            {
                proof {
                    vstd::std_specs::vec::axiom_vec_index_decreases(*m, i as int);
                    assert(decreases_to!(*t => (*t)->Mapping_0));
                }
                let d = project(&m[i].1);
                out.push((m[i].0.clone(), d));
                i += 1;
            }
            let r = DisplayValue::Mapping(out);
            assert(r.model() =~= project_spec(*t)) by {
                if let DisplayModel::Mapping(a) = r.model() {
                    if let DisplayModel::Mapping(b) = project_spec(*t) {
                        assert forall|j: int| 0 <= j < a.len() implies a[j] == b[j] by {
                            assert(out@[j].0@ == m@[j].0@);
                        }
                        assert(a =~= b);
                    }
                }
            }
            r
        },
        PayloadValue::Real => DisplayValue::Text(REAL_LABEL.to_owned()),
        PayloadValue::Uid(_) => DisplayValue::Text(UID_LABEL.to_owned()),
        PayloadValue::Unknown => DisplayValue::Text(UNKNOWN_LABEL.to_owned()),
    }
}

/// A sequence is listed element by element when it has at most ten elements, and
/// is replaced by exactly two texts, its length and a marker, when it has more.
pub proof fn sequence_projection_threshold(v: Vec<PayloadValue>)
    ensures
        v@.len() <= MAX_LISTED ==> (project_spec(PayloadValue::Sequence(v)) matches DisplayModel::List(
            s,
        ) && s.len() == v@.len() && forall|i: int|
            0 <= i < v@.len() ==> s[i] == project_spec(#[trigger] v@[i])),
        v@.len() > MAX_LISTED ==> project_spec(PayloadValue::Sequence(v)) == DisplayModel::List(
            abbreviation(v@.len()),
        ),
        abbreviation(v@.len()).len() == 2,
{
}

/// Every list of a display model has at most [`MAX_LISTED`] elements, at any depth.
pub open spec fn lists_bounded(d: DisplayModel) -> bool
    decreases d,
{
    match d {
        DisplayModel::List(s) => s.len() <= MAX_LISTED && forall|i: int|
            0 <= i < s.len() ==> lists_bounded(#[trigger] s[i]),
        DisplayModel::Mapping(m) => forall|i: int| 0 <= i < m.len() ==> lists_bounded(#[trigger] m[i].1),
        _ => true,
    }
}

/// Whatever the payload, no list of its display form has more than ten elements, at
/// any depth: longer sequences have been replaced by their two-element abbreviation.
pub proof fn projection_lists_are_bounded(t: PayloadValue)
    ensures
        lists_bounded(project_spec(t)),
    decreases t,
{
    match t {
        PayloadValue::Sequence(v) => {
            if let DisplayModel::List(s) = project_spec(t) {
                if v@.len() <= MAX_LISTED {
                    assert forall|i: int| 0 <= i < s.len() implies lists_bounded(#[trigger] s[i]) by {
                        vstd::std_specs::vec::axiom_vec_index_decreases(v, i);
                        assert(decreases_to!(t => t->Sequence_0));
                        projection_lists_are_bounded(v@[i]);
                    }
                } else {
                    assert forall|i: int| 0 <= i < s.len() implies lists_bounded(#[trigger] s[i]) by {
                        assert(s =~= abbreviation(v@.len()));
                    }
                }
            }
        },
        PayloadValue::Mapping(m) => {
            if let DisplayModel::Mapping(s) = project_spec(t) {
                assert forall|i: int| 0 <= i < s.len() implies lists_bounded(#[trigger] s[i].1) by {
                    vstd::std_specs::vec::axiom_vec_index_decreases(m, i);
                    assert(decreases_to!(t => t->Mapping_0));
                    projection_lists_are_bounded(m@[i].1);
                }
            }
        },
        _ => {},
    }
}

} // verus!
