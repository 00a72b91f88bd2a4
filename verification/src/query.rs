//! Query-parameter serialization: model, rendering, and round trip.
//!
//! A parameter object serializes to a sequence of `key=value` pairs in
//! which absent fields do not appear at all.  The model is a fixed list
//! of optional fields, rendered in declaration order; the round-trip
//! lemmas further down show that the rendering loses nothing.

use vstd::prelude::*;

verus! {

use crate::models::params::{direction_text, filings_fields, filings_query, insider_fields,
    insider_query, institutional_fields, institutional_query, opt_direction, opt_put_call,
    opt_status, put_call_text, search_fields, search_query, status_text, FilingStatus,
    ListFilingsParams, ListInsiderParams, ListInstitutionalParams, PutCallFilter,
    SearchCompaniesParams, TransactionDirection};
use crate::text::lemma_u64_round_trip;
use crate::text::dec_digits;
use crate::text::parse_u64_spec;
use crate::text::u64_to_string;

/// The view of built query pairs.
pub open spec fn pairs_view(q: Seq<(String, String)>) -> Seq<(Seq<char>, Seq<char>)> {
    q.map_values(|p: (String, String)| (p.0@, p.1@))
}

/// The pairs contributed by one optional field: one pair when present,
/// none when absent.
pub open spec fn opt_entry(key: Seq<char>, v: Option<Seq<char>>) -> Seq<(Seq<char>, Seq<char>)> {
    match v {
        Some(s) => seq![(key, s)],
        None => Seq::empty(),
    }
}

/// An optional number, rendered in decimal.
pub open spec fn opt_num(v: Option<u64>) -> Option<Seq<char>> {
    match v {
        Some(n) => Some(dec_digits(n as nat)),
        None => None,
    }
}

/// An optional 32-bit number, rendered in decimal.
pub open spec fn opt_num32(v: Option<u32>) -> Option<Seq<char>> {
    match v {
        Some(n) => Some(dec_digits(n as nat)),
        None => None,
    }
}

/// The query text of a boolean.
pub open spec fn bool_text(b: bool) -> Seq<char> {
    if b {
        "true"@
    } else {
        "false"@
    }
}

/// An optional boolean, rendered as its query text.
pub open spec fn opt_bool(v: Option<bool>) -> Option<Seq<char>> {
    match v {
        Some(b) => Some(bool_text(b)),
        None => None,
    }
}

/// A field list: keys with optional, already-rendered values.
pub open spec fn render(fields: Seq<(Seq<char>, Option<Seq<char>>)>) -> Seq<(Seq<char>, Seq<char>)>
    decreases fields.len(),
{
    if fields.len() == 0 {
        Seq::empty()
    } else {
        opt_entry(fields[0].0, fields[0].1) + render(fields.drop_first())
    }
}

/// The keys of a field list.
pub open spec fn field_keys(fields: Seq<(Seq<char>, Option<Seq<char>>)>) -> Seq<Seq<char>> {
    fields.map_values(|f: (Seq<char>, Option<Seq<char>>)| f.0)
}

/// The optional values of a field list.
pub open spec fn field_values(fields: Seq<(Seq<char>, Option<Seq<char>>)>) -> Seq<
    Option<Seq<char>>,
> {
    fields.map_values(|f: (Seq<char>, Option<Seq<char>>)| f.1)
}

/// No key occurs twice.
pub open spec fn distinct_keys(keys: Seq<Seq<char>>) -> bool {
    forall|i: int, j: int| 0 <= i < j < keys.len() ==> keys[i] != keys[j]
}

/// Rendering one more field appends that field's pairs.
proof fn lemma_render_snoc(fields: Seq<(Seq<char>, Option<Seq<char>>)>, k: int)
    requires
        0 <= k < fields.len(),
    ensures
        render(fields.take(k + 1)) == render(fields.take(k)) + opt_entry(
            fields[k].0,
            fields[k].1,
        ),
    decreases k,
{
    if k == 0 {
        let e = Seq::<(Seq<char>, Option<Seq<char>>)>::empty();
        assert(render(e) == Seq::<(Seq<char>, Seq<char>)>::empty());
        assert(fields.take(0) =~= e);
        assert(fields.take(1).drop_first() =~= e);
        assert(fields.take(1)[0] == fields[0]);
        assert(render(fields.take(1)) == opt_entry(fields[0].0, fields[0].1) + render(e));
        assert(opt_entry(fields[0].0, fields[0].1) + render(e) =~= opt_entry(
            fields[0].0,
            fields[0].1,
        ));
        assert(render(fields.take(0)) + opt_entry(fields[0].0, fields[0].1) =~= opt_entry(
            fields[0].0,
            fields[0].1,
        ));
    } else {
        let df = fields.drop_first();
        lemma_render_snoc(df, k - 1);
        assert(fields.take(k + 1).drop_first() =~= df.take(k));
        assert(fields.take(k).drop_first() =~= df.take(k - 1));
        assert(fields.take(k + 1)[0] == fields[0]);
        assert(fields.take(k)[0] == fields[0]);
        assert(df[k - 1] == fields[k]);
        let e0 = opt_entry(fields[0].0, fields[0].1);
        let ek = opt_entry(fields[k].0, fields[k].1);
        assert(render(fields.take(k + 1)) == e0 + render(df.take(k)));
        assert(render(fields.take(k)) == e0 + render(df.take(k - 1)));
        assert(render(df.take(k)) == render(df.take(k - 1)) + ek);
        assert(e0 + (render(df.take(k - 1)) + ek) =~= (e0 + render(df.take(k - 1))) + ek);
    }
}

/// The view of an executable field list.
pub open spec fn exec_fields_view(s: Seq<(&str, Option<String>)>) -> Seq<
    (Seq<char>, Option<Seq<char>>),
> {
    s.map_values(|f: (&str, Option<String>)| (f.0@, f.1.deep_view()))
}

/// Appends one pair.
fn push_value(pairs: &mut Vec<(String, String)>, key: &str, value: &str)
    ensures
        pairs_view(final(pairs)@) == pairs_view(old(pairs)@) + seq![(key@, value@)],
{
    pairs.push((key.to_owned(), value.to_owned()));
    proof {
        assert(pairs_view(pairs@) =~= pairs_view(old(pairs)@) + seq![(key@, value@)]);
    }
}

/// Renders a field list as query pairs: each present field contributes
/// its pair, in order, and absent fields contribute nothing.
pub(crate) fn render_pairs(fields: &Vec<(&'static str, Option<String>)>) -> (r: Vec<
    (String, String),
>)
    ensures
        pairs_view(r@) == render(exec_fields_view(fields@)),
{
    let ghost fv = exec_fields_view(fields@);
    let mut pairs: Vec<(String, String)> = Vec::new();
    proof {
        assert(fv.take(0) =~= Seq::<(Seq<char>, Option<Seq<char>>)>::empty());
        assert(pairs_view(pairs@) =~= render(fv.take(0)));
    }
    let mut i: usize = 0;
    while i < fields.len()
        invariant
            0 <= i <= fields.len(),
            fv == exec_fields_view(fields@),
            fv.len() == fields@.len(),
            pairs_view(pairs@) == render(fv.take(i as int)),
        decreases fields.len() - i,
    {
        proof {
            assert(fv[i as int] == (fields@[i as int].0@, fields@[i as int].1.deep_view()));
            lemma_render_snoc(fv, i as int);
        }
        let key: &'static str = fields[i].0;
        match &fields[i].1 {
            Some(v) => {
                push_value(&mut pairs, key, v.as_str());
                proof {
                    assert(seq![(key@, v@)] =~= opt_entry(fv[i as int].0, fv[i as int].1));
                }
            },
            None => {
                proof {
                    assert(pairs_view(pairs@) =~= render(fv.take(i as int)) + opt_entry(
                        fv[i as int].0,
                        fv[i as int].1,
                    ));
                }
            },
        }
        i = i + 1;
    }
    proof {
        assert(fv.take(fv.len() as int) =~= fv);
    }
    pairs
}

/// Duplicates an optional text field for a field list.
pub(crate) fn clone_opt_string(v: &Option<String>) -> (r: Option<String>)
    ensures
        r.deep_view() == v.deep_view(),
{
    match v {
        Some(s) => Some(s.clone()),
        None => None,
    }
}

/// Renders an optional numeric field for a field list.
pub(crate) fn opt_num_string(v: &Option<u64>) -> (r: Option<String>)
    ensures
        r.deep_view() == opt_num(*v),
{
    match v {
        Some(n) => Some(u64_to_string(*n)),
        None => None,
    }
}

/// Renders an optional 32-bit numeric field for a field list.
pub(crate) fn opt_num32_string(v: &Option<u32>) -> (r: Option<String>)
    ensures
        r.deep_view() == opt_num32(*v),
{
    match v {
        Some(n) => Some(u64_to_string(*n as u64)),
        None => None,
    }
}

/// Renders an optional boolean field for a field list.
pub(crate) fn opt_bool_string(v: &Option<bool>) -> (r: Option<String>)
    ensures
        r.deep_view() == opt_bool(*v),
{
    match v {
        Some(b) => {
            let text = if *b {
                "true"
            } else {
                "false"
            };
            Some(text.to_owned())
        },
        None => None,
    }
}

/// A key that belongs to none of the fields cannot open the rendering.
proof fn lemma_render_key_absent(fields: Seq<(Seq<char>, Option<Seq<char>>)>, k: Seq<char>)
    requires
        forall|i: int| 0 <= i < fields.len() ==> (#[trigger] fields[i]).0 != k,
    ensures
        render(fields).len() == 0 || render(fields)[0].0 != k,
    decreases fields.len(),
{
    if fields.len() > 0 {
        let rest = fields.drop_first();
        assert(forall|i: int| 0 <= i < rest.len() ==> (#[trigger] rest[i]).0 != k);
        lemma_render_key_absent(rest, k);
        if fields[0].1 is None {
            assert(render(fields) =~= render(rest));
        }
    }
}

/// Every rendered pair comes from a present field: its key and its value.
proof fn lemma_render_pair_source(fields: Seq<(Seq<char>, Option<Seq<char>>)>, j: int)
    requires
        0 <= j < render(fields).len(),
    ensures
        exists|i: int|
            0 <= i < fields.len() && #[trigger] fields[i].1 == Some(render(fields)[j].1) && render(
                fields,
            )[j].0 == fields[i].0,
    decreases fields.len(),
{
    let rest = fields.drop_first();
    if fields[0].1 is Some {
        if j == 0 {
            assert(fields[0].1 == Some(render(fields)[0].1) && render(fields)[0].0 == fields[0].0);
        } else {
            lemma_render_pair_source(rest, j - 1);
            let i0 = choose|i: int|
                0 <= i < rest.len() && #[trigger] rest[i].1 == Some(render(rest)[j - 1].1)
                    && render(rest)[j - 1].0 == rest[i].0;
            let i1 = i0 + 1;
            assert(fields[i1].1 == Some(render(fields)[j].1) && render(fields)[j].0
                == fields[i1].0);
        }
    } else {
        assert(render(fields) =~= render(rest));
        lemma_render_pair_source(rest, j);
        let i0 = choose|i: int|
            0 <= i < rest.len() && #[trigger] rest[i].1 == Some(render(rest)[j].1) && render(
                rest,
            )[j].0 == rest[i].0;
        let i1 = i0 + 1;
        assert(fields[i1].1 == Some(render(fields)[j].1) && render(fields)[j].0 == fields[i1].0);
    }
}

/// An absent field's key never appears among the rendered pairs: absent
/// fields are omitted from the query entirely.
pub proof fn lemma_absent_field_never_appears(
    fields: Seq<(Seq<char>, Option<Seq<char>>)>,
    i: int,
)
    requires
        0 <= i < fields.len(),
        fields[i].1 is None,
        distinct_keys(field_keys(fields)),
    ensures
        forall|j: int| 0 <= j < render(fields).len() ==> (#[trigger] render(fields)[j]).0
            != fields[i].0,
{
    assert forall|j: int| 0 <= j < render(fields).len() implies (#[trigger] render(
        fields,
    )[j]).0 != fields[i].0 by {
        lemma_render_pair_source(fields, j);
        let i0 = choose|i0: int|
            0 <= i0 < fields.len() && #[trigger] fields[i0].1 == Some(render(fields)[j].1)
                && render(fields)[j].0 == fields[i0].0;
        assert(field_keys(fields)[i0] == fields[i0].0);
        assert(field_keys(fields)[i] == fields[i].0);
    }
}

/// Reading rendered pairs back: for each key in order, take the leading
/// pair when it carries that key; what remains afterwards is left over.
pub open spec fn strip(q: Seq<(Seq<char>, Seq<char>)>, keys: Seq<Seq<char>>) -> (
    Seq<Option<Seq<char>>>,
    Seq<(Seq<char>, Seq<char>)>,
)
    decreases keys.len(),
{
    if keys.len() == 0 {
        (Seq::empty(), q)
    } else {
        let present = q.len() > 0 && q[0].0 == keys[0];
        let v = if present {
            Some(q[0].1)
        } else {
            None
        };
        let rest = if present {
            q.drop_first()
        } else {
            q
        };
        let rec = strip(rest, keys.drop_first());
        (seq![v] + rec.0, rec.1)
    }
}

/// Reading a rendering back recovers each field's optional value and
/// leaves nothing over, provided the keys are distinct.
pub proof fn lemma_strip_render(fields: Seq<(Seq<char>, Option<Seq<char>>)>)
    requires
        distinct_keys(field_keys(fields)),
    ensures
        strip(render(fields), field_keys(fields)).0 == field_values(fields),
        strip(render(fields), field_keys(fields)).1 == Seq::<(Seq<char>, Seq<char>)>::empty(),
    decreases fields.len(),
{
    let ks = field_keys(fields);
    let q = render(fields);
    if fields.len() == 0 {
        assert(q =~= Seq::<(Seq<char>, Seq<char>)>::empty());
        assert(field_values(fields) =~= Seq::<Option<Seq<char>>>::empty());
        assert(strip(q, ks).0 =~= field_values(fields));
    } else {
        let rest = fields.drop_first();
        assert(field_keys(rest) =~= ks.drop_first());
        assert(distinct_keys(field_keys(rest))) by {
            assert forall|i: int, j: int|
                0 <= i < j < field_keys(rest).len() implies field_keys(rest)[i] != field_keys(
                rest,
            )[j] by {
                assert(field_keys(rest)[i] == ks[i + 1]);
                assert(field_keys(rest)[j] == ks[j + 1]);
            }
        }
        lemma_strip_render(rest);
        assert(ks[0] == fields[0].0);
        if fields[0].1 is Some {
            assert(q[0] == (fields[0].0, fields[0].1.unwrap()));
            assert(q.drop_first() =~= render(rest));
            assert(strip(q, ks).0 == seq![Some(fields[0].1.unwrap())] + strip(
                render(rest),
                field_keys(rest),
            ).0);
            assert(strip(q, ks).0 =~= field_values(fields));
        } else {
            assert(q =~= render(rest));
            assert forall|i: int| 0 <= i < rest.len() implies (#[trigger] rest[i]).0
                != ks[0] by {
                assert(rest[i].0 == field_keys(rest)[i]);
                assert(field_keys(rest)[i] == ks[i + 1]);
            }
            lemma_render_key_absent(rest, ks[0]);
            assert(strip(q, ks).0 == seq![None::<Seq<char>>] + strip(
                render(rest),
                field_keys(rest),
            ).0);
            assert(strip(q, ks).0 =~= field_values(fields));
        }
    }
}

/// Reading an optional numeric field back from its query text.
pub open spec fn decode_num(v: Option<Seq<char>>) -> Option<Option<u64>> {
    match v {
        None => Some(None::<u64>),
        Some(s) => match parse_u64_spec(s) {
            Some(n) => Some(Some(n)),
            None => None,
        },
    }
}

/// Reading an optional 32-bit numeric field back from its query text.
pub open spec fn decode_num32(v: Option<Seq<char>>) -> Option<Option<u32>> {
    match v {
        None => Some(None::<u32>),
        Some(s) => match parse_u64_spec(s) {
            Some(n) => if n <= u32::MAX {
                Some(Some(n as u32))
            } else {
                None
            },
            None => None,
        },
    }
}

/// Reading an optional boolean field back from its query text.
pub open spec fn decode_bool(v: Option<Seq<char>>) -> Option<Option<bool>> {
    match v {
        None => Some(None::<bool>),
        Some(s) => if s == bool_text(true) {
            Some(Some(true))
        } else if s == bool_text(false) {
            Some(Some(false))
        } else {
            None
        },
    }
}

/// Reading an optional status filter back from its query text.
pub open spec fn decode_status(v: Option<Seq<char>>) -> Option<Option<FilingStatus>> {
    match v {
        None => Some(None::<FilingStatus>),
        Some(s) => if s == status_text(FilingStatus::All) {
            Some(Some(FilingStatus::All))
        } else if s == status_text(FilingStatus::Provisional) {
            Some(Some(FilingStatus::Provisional))
        } else if s == status_text(FilingStatus::Final) {
            Some(Some(FilingStatus::Final))
        } else {
            None
        },
    }
}

/// Reading an optional direction filter back from its query text.
pub open spec fn decode_direction(v: Option<Seq<char>>) -> Option<Option<TransactionDirection>> {
    match v {
        None => Some(None::<TransactionDirection>),
        Some(s) => if s == direction_text(TransactionDirection::Buy) {
            Some(Some(TransactionDirection::Buy))
        } else if s == direction_text(TransactionDirection::Sell) {
            Some(Some(TransactionDirection::Sell))
        } else {
            None
        },
    }
}

/// Reading an optional put/call filter back from its query text.
pub open spec fn decode_put_call(v: Option<Seq<char>>) -> Option<Option<PutCallFilter>> {
    match v {
        None => Some(None::<PutCallFilter>),
        Some(s) => if s == put_call_text(PutCallFilter::Put) {
            Some(Some(PutCallFilter::Put))
        } else if s == put_call_text(PutCallFilter::Call) {
            Some(Some(PutCallFilter::Call))
        } else if s == put_call_text(PutCallFilter::Equity) {
            Some(Some(PutCallFilter::Equity))
        } else {
            None
        },
    }
}

/// The query keys of filing parameters, in declaration order.
pub open spec fn filings_keys() -> Seq<Seq<char>> {
    seq![
        "forms"@,
        "ticker"@,
        "cik"@,
        "status"@,
        "startDate"@,
        "endDate"@,
        "q"@,
        "limit"@,
        "cursor"@,
    ]
}

/// The filter values of a filing parameter object, as the query carries
/// them.
pub struct FilingsQueryView {
    pub forms: Option<Seq<char>>,
    pub ticker: Option<Seq<char>>,
    pub cik: Option<u64>,
    pub status: Option<FilingStatus>,
    pub start_date: Option<Seq<char>>,
    pub end_date: Option<Seq<char>>,
    pub q: Option<Seq<char>>,
    pub limit: Option<u32>,
    pub cursor: Option<Seq<char>>,
}

/// The filter values held by a filing parameter object.
pub open spec fn filings_view(p: ListFilingsParams) -> FilingsQueryView {
    FilingsQueryView {
        forms: p.forms.deep_view(),
        ticker: p.ticker.deep_view(),
        cik: p.cik,
        status: p.status,
        start_date: p.start_date.deep_view(),
        end_date: p.end_date.deep_view(),
        q: p.q.deep_view(),
        limit: p.limit,
        cursor: p.cursor.deep_view(),
    }
}

/// Reading filing parameters back out of query pairs: take each field in
/// declaration order, decode the numeric and status values, and accept
/// nothing left over.
pub open spec fn parse_filings_query(q: Seq<(Seq<char>, Seq<char>)>) -> Option<FilingsQueryView> {
    let st = strip(q, filings_keys());
    let vs = st.0;
    if st.1.len() == 0 {
        match (decode_num(vs[2]), decode_status(vs[3]), decode_num32(vs[7])) {
            (Some(cik), Some(status), Some(limit)) => Some(
                FilingsQueryView {
                    forms: vs[0],
                    ticker: vs[1],
                    cik,
                    status,
                    start_date: vs[4],
                    end_date: vs[5],
                    q: vs[6],
                    limit,
                    cursor: vs[8],
                },
            ),
            _ => None,
        }
    } else {
        None
    }
}

/// The filing query keys are pairwise distinct.
proof fn lemma_filings_keys_distinct()
    ensures
        distinct_keys(filings_keys()),
{
    reveal_strlit("forms");
    reveal_strlit("ticker");
    reveal_strlit("cik");
    reveal_strlit("status");
    reveal_strlit("startDate");
    reveal_strlit("endDate");
    reveal_strlit("q");
    reveal_strlit("limit");
    reveal_strlit("cursor");
    let ks = filings_keys();
    assert forall|i: int, j: int| 0 <= i < j < ks.len() implies ks[i] != ks[j] by {
        assert(ks[0].len() == 5);
        assert(ks[1].len() == 6);
        assert(ks[2].len() == 3);
        assert(ks[3].len() == 6);
        assert(ks[4].len() == 9);
        assert(ks[5].len() == 7);
        assert(ks[6].len() == 1);
        assert(ks[7].len() == 5);
        assert(ks[8].len() == 6);
        assert(ks[0][0] == 'f');
        assert(ks[7][0] == 'l');
        assert(ks[1][0] == 't');
        assert(ks[3][0] == 's');
        assert(ks[8][0] == 'c');
    }
}

/// Round trip: parsing the rendered query of any filing parameter object
/// recovers exactly its filter values, so serialization loses nothing.
pub proof fn lemma_filings_round_trip(p: ListFilingsParams)
    ensures
        parse_filings_query(filings_query(p)) == Some(filings_view(p)),
{
    let f = filings_fields(p);
    let ks = field_keys(f);
    assert(filings_keys() =~= ks);
    lemma_filings_keys_distinct();
    lemma_strip_render(f);
    let vs = field_values(f);
    assert(strip(render(f), ks).0 == vs);
    assert(vs[2] == opt_num(p.cik));
    assert(vs[3] == opt_status(p.status));
    assert(vs[7] == opt_num32(p.limit));
    if let Some(n) = p.cik {
        lemma_u64_round_trip(n);
    }
    if let Some(n) = p.limit {
        lemma_u64_round_trip(n as u64);
    }
    reveal_strlit("all");
    reveal_strlit("provisional");
    reveal_strlit("final");
    assert(status_text(FilingStatus::All).len() == 3);
    assert(status_text(FilingStatus::Provisional).len() == 11);
    assert(status_text(FilingStatus::Final).len() == 5);
    assert(decode_status(opt_status(p.status)) == Some(p.status));
}

/// The query keys of insider parameters, in declaration order.
pub open spec fn insider_keys() -> Seq<Seq<char>> {
    seq![
        "ticker"@,
        "cik"@,
        "personCik"@,
        "direction"@,
        "codes"@,
        "derivative"@,
        "minValue"@,
        "startDate"@,
        "endDate"@,
        "limit"@,
        "cursor"@,
    ]
}

/// The filter values of an insider parameter object, as the query
/// carries them.
pub struct InsiderQueryView {
    pub ticker: Option<Seq<char>>,
    pub cik: Option<u64>,
    pub person_cik: Option<u64>,
    pub direction: Option<TransactionDirection>,
    pub codes: Option<Seq<char>>,
    pub derivative: Option<bool>,
    pub min_value: Option<u64>,
    pub start_date: Option<Seq<char>>,
    pub end_date: Option<Seq<char>>,
    pub limit: Option<u32>,
    pub cursor: Option<Seq<char>>,
}

/// The filter values held by an insider parameter object.
pub open spec fn insider_view(p: ListInsiderParams) -> InsiderQueryView {
    InsiderQueryView {
        ticker: p.ticker.deep_view(),
        cik: p.cik,
        person_cik: p.person_cik,
        direction: p.direction,
        codes: p.codes.deep_view(),
        derivative: p.derivative,
        min_value: p.min_value,
        start_date: p.start_date.deep_view(),
        end_date: p.end_date.deep_view(),
        limit: p.limit,
        cursor: p.cursor.deep_view(),
    }
}

/// Reading insider parameters back out of query pairs.
pub open spec fn parse_insider_query(q: Seq<(Seq<char>, Seq<char>)>) -> Option<InsiderQueryView> {
    let st = strip(q, insider_keys());
    let vs = st.0;
    if st.1.len() == 0 {
        match (decode_num(vs[1]), decode_num(vs[2]), decode_direction(vs[3])) {
            (Some(cik), Some(person_cik), Some(direction)) => match (
                decode_bool(vs[5]),
                decode_num(vs[6]),
                decode_num32(vs[9]),
            ) {
                (Some(derivative), Some(min_value), Some(limit)) => Some(
                    InsiderQueryView {
                        ticker: vs[0],
                        cik,
                        person_cik,
                        direction,
                        codes: vs[4],
                        derivative,
                        min_value,
                        start_date: vs[7],
                        end_date: vs[8],
                        limit,
                        cursor: vs[10],
                    },
                ),
                _ => None,
            },
            _ => None,
        }
    } else {
        None
    }
}

/// The insider query keys are pairwise distinct.
proof fn lemma_insider_keys_distinct()
    ensures
        distinct_keys(insider_keys()),
{
    reveal_strlit("ticker");
    reveal_strlit("cik");
    reveal_strlit("personCik");
    reveal_strlit("direction");
    reveal_strlit("codes");
    reveal_strlit("derivative");
    reveal_strlit("minValue");
    reveal_strlit("startDate");
    reveal_strlit("endDate");
    reveal_strlit("limit");
    reveal_strlit("cursor");
    let ks = insider_keys();
    assert forall|i: int, j: int| 0 <= i < j < ks.len() implies ks[i] != ks[j] by {
        assert(ks[0].len() == 6);
        assert(ks[1].len() == 3);
        assert(ks[2].len() == 9);
        assert(ks[3].len() == 9);
        assert(ks[4].len() == 5);
        assert(ks[5].len() == 10);
        assert(ks[6].len() == 8);
        assert(ks[7].len() == 9);
        assert(ks[8].len() == 7);
        assert(ks[9].len() == 5);
        assert(ks[10].len() == 6);
        assert(ks[0][0] == 't');
        assert(ks[10][0] == 'c');
        assert(ks[2][0] == 'p');
        assert(ks[3][0] == 'd');
        assert(ks[7][0] == 's');
        assert(ks[4][0] == 'c');
        assert(ks[9][0] == 'l');
    }
}

/// Round trip: parsing the rendered query of any insider parameter
/// object recovers exactly its filter values.
pub proof fn lemma_insider_round_trip(p: ListInsiderParams)
    ensures
        parse_insider_query(insider_query(p)) == Some(insider_view(p)),
{
    let f = insider_fields(p);
    let ks = field_keys(f);
    assert(insider_keys() =~= ks);
    lemma_insider_keys_distinct();
    lemma_strip_render(f);
    let vs = field_values(f);
    assert(strip(render(f), ks).0 == vs);
    assert(vs[1] == opt_num(p.cik));
    assert(vs[2] == opt_num(p.person_cik));
    assert(vs[3] == opt_direction(p.direction));
    assert(vs[5] == opt_bool(p.derivative));
    assert(vs[6] == opt_num(p.min_value));
    assert(vs[9] == opt_num32(p.limit));
    if let Some(n) = p.cik {
        lemma_u64_round_trip(n);
    }
    if let Some(n) = p.person_cik {
        lemma_u64_round_trip(n);
    }
    if let Some(n) = p.min_value {
        lemma_u64_round_trip(n);
    }
    if let Some(n) = p.limit {
        lemma_u64_round_trip(n as u64);
    }
    reveal_strlit("buy");
    reveal_strlit("sell");
    reveal_strlit("true");
    reveal_strlit("false");
    assert(direction_text(TransactionDirection::Buy).len() == 3);
    assert(direction_text(TransactionDirection::Sell).len() == 4);
    assert(bool_text(true).len() == 4);
    assert(bool_text(false).len() == 5);
    assert(decode_direction(opt_direction(p.direction)) == Some(p.direction));
    assert(decode_bool(opt_bool(p.derivative)) == Some(p.derivative));
}

/// The query keys of institutional parameters, in declaration order.
pub open spec fn institutional_keys() -> Seq<Seq<char>> {
    seq![
        "cik"@,
        "ticker"@,
        "cusip"@,
        "managerCik"@,
        "minValue"@,
        "putCall"@,
        "reportPeriod"@,
        "limit"@,
        "cursor"@,
    ]
}

/// The filter values of an institutional parameter object, as the query
/// carries them.
pub struct InstitutionalQueryView {
    pub cik: Option<u64>,
    pub ticker: Option<Seq<char>>,
    pub cusip: Option<Seq<char>>,
    pub manager_cik: Option<u64>,
    pub min_value: Option<u64>,
    pub put_call: Option<PutCallFilter>,
    pub report_period: Option<Seq<char>>,
    pub limit: Option<u32>,
    pub cursor: Option<Seq<char>>,
}

/// The filter values held by an institutional parameter object.
pub open spec fn institutional_view(p: ListInstitutionalParams) -> InstitutionalQueryView {
    InstitutionalQueryView {
        cik: p.cik,
        ticker: p.ticker.deep_view(),
        cusip: p.cusip.deep_view(),
        manager_cik: p.manager_cik,
        min_value: p.min_value,
        put_call: p.put_call,
        report_period: p.report_period.deep_view(),
        limit: p.limit,
        cursor: p.cursor.deep_view(),
    }
}

/// Reading institutional parameters back out of query pairs.
pub open spec fn parse_institutional_query(q: Seq<(Seq<char>, Seq<char>)>) -> Option<
    InstitutionalQueryView,
> {
    let st = strip(q, institutional_keys());
    let vs = st.0;
    if st.1.len() == 0 {
        match (decode_num(vs[0]), decode_num(vs[3]), decode_num(vs[4])) {
            (Some(cik), Some(manager_cik), Some(min_value)) => match (
                decode_put_call(vs[5]),
                decode_num32(vs[7]),
            ) {
                (Some(put_call), Some(limit)) => Some(
                    InstitutionalQueryView {
                        cik,
                        ticker: vs[1],
                        cusip: vs[2],
                        manager_cik,
                        min_value,
                        put_call,
                        report_period: vs[6],
                        limit,
                        cursor: vs[8],
                    },
                ),
                _ => None,
            },
            _ => None,
        }
    } else {
        None
    }
}

/// The institutional query keys are pairwise distinct.
proof fn lemma_institutional_keys_distinct()
    ensures
        distinct_keys(institutional_keys()),
{
    reveal_strlit("cik");
    reveal_strlit("ticker");
    reveal_strlit("cusip");
    reveal_strlit("managerCik");
    reveal_strlit("minValue");
    reveal_strlit("putCall");
    reveal_strlit("reportPeriod");
    reveal_strlit("limit");
    reveal_strlit("cursor");
    let ks = institutional_keys();
    assert forall|i: int, j: int| 0 <= i < j < ks.len() implies ks[i] != ks[j] by {
        assert(ks[0].len() == 3);
        assert(ks[1].len() == 6);
        assert(ks[2].len() == 5);
        assert(ks[3].len() == 10);
        assert(ks[4].len() == 8);
        assert(ks[5].len() == 7);
        assert(ks[6].len() == 12);
        assert(ks[7].len() == 5);
        assert(ks[8].len() == 6);
        assert(ks[1][0] == 't');
        assert(ks[8][0] == 'c');
        assert(ks[2][0] == 'c');
        assert(ks[7][0] == 'l');
    }
}

/// Round trip: parsing the rendered query of any institutional parameter
/// object recovers exactly its filter values.
pub proof fn lemma_institutional_round_trip(p: ListInstitutionalParams)
    ensures
        parse_institutional_query(institutional_query(p)) == Some(institutional_view(p)),
{
    let f = institutional_fields(p);
    let ks = field_keys(f);
    assert(institutional_keys() =~= ks);
    lemma_institutional_keys_distinct();
    lemma_strip_render(f);
    let vs = field_values(f);
    assert(strip(render(f), ks).0 == vs);
    assert(vs[0] == opt_num(p.cik));
    assert(vs[3] == opt_num(p.manager_cik));
    assert(vs[4] == opt_num(p.min_value));
    assert(vs[5] == opt_put_call(p.put_call));
    assert(vs[7] == opt_num32(p.limit));
    if let Some(n) = p.cik {
        lemma_u64_round_trip(n);
    }
    if let Some(n) = p.manager_cik {
        lemma_u64_round_trip(n);
    }
    if let Some(n) = p.min_value {
        lemma_u64_round_trip(n);
    }
    if let Some(n) = p.limit {
        lemma_u64_round_trip(n as u64);
    }
    reveal_strlit("put");
    reveal_strlit("call");
    reveal_strlit("equity");
    assert(put_call_text(PutCallFilter::Put).len() == 3);
    assert(put_call_text(PutCallFilter::Call).len() == 4);
    assert(put_call_text(PutCallFilter::Equity).len() == 6);
    assert(decode_put_call(opt_put_call(p.put_call)) == Some(p.put_call));
}

/// The query keys of company-search parameters, in declaration order.
pub open spec fn search_keys() -> Seq<Seq<char>> {
    seq!["q"@, "ticker"@, "sicCode"@, "state"@, "limit"@, "cursor"@]
}

/// The filter values of a company-search parameter object, as the query
/// carries them.
pub struct SearchQueryView {
    pub q: Option<Seq<char>>,
    pub ticker: Option<Seq<char>>,
    pub sic_code: Option<u32>,
    pub state: Option<Seq<char>>,
    pub limit: Option<u32>,
    pub cursor: Option<Seq<char>>,
}

/// The filter values held by a company-search parameter object.
pub open spec fn search_view(p: SearchCompaniesParams) -> SearchQueryView {
    SearchQueryView {
        q: p.q.deep_view(),
        ticker: p.ticker.deep_view(),
        sic_code: p.sic_code,
        state: p.state.deep_view(),
        limit: p.limit,
        cursor: p.cursor.deep_view(),
    }
}

/// Reading company-search parameters back out of query pairs.
pub open spec fn parse_search_query(q: Seq<(Seq<char>, Seq<char>)>) -> Option<SearchQueryView> {
    let st = strip(q, search_keys());
    let vs = st.0;
    if st.1.len() == 0 {
        match (decode_num32(vs[2]), decode_num32(vs[4])) {
            (Some(sic_code), Some(limit)) => Some(
                SearchQueryView {
                    q: vs[0],
                    ticker: vs[1],
                    sic_code,
                    state: vs[3],
                    limit,
                    cursor: vs[5],
                },
            ),
            _ => None,
        }
    } else {
        None
    }
}

/// The company-search query keys are pairwise distinct.
proof fn lemma_search_keys_distinct()
    ensures
        distinct_keys(search_keys()),
{
    reveal_strlit("q");
    reveal_strlit("ticker");
    reveal_strlit("sicCode");
    reveal_strlit("state");
    reveal_strlit("limit");
    reveal_strlit("cursor");
    let ks = search_keys();
    assert forall|i: int, j: int| 0 <= i < j < ks.len() implies ks[i] != ks[j] by {
        assert(ks[0].len() == 1);
        assert(ks[1].len() == 6);
        assert(ks[2].len() == 7);
        assert(ks[3].len() == 5);
        assert(ks[4].len() == 5);
        assert(ks[5].len() == 6);
        assert(ks[1][0] == 't');
        assert(ks[5][0] == 'c');
        assert(ks[3][0] == 's');
        assert(ks[4][0] == 'l');
    }
}

/// Round trip: parsing the rendered query of any company-search
/// parameter object recovers exactly its filter values.
pub proof fn lemma_search_round_trip(p: SearchCompaniesParams)
    ensures
        parse_search_query(search_query(p)) == Some(search_view(p)),
{
    let f = search_fields(p);
    let ks = field_keys(f);
    assert(search_keys() =~= ks);
    lemma_search_keys_distinct();
    lemma_strip_render(f);
    let vs = field_values(f);
    assert(strip(render(f), ks).0 == vs);
    assert(vs[2] == opt_num32(p.sic_code));
    assert(vs[4] == opt_num32(p.limit));
    if let Some(n) = p.sic_code {
        lemma_u64_round_trip(n as u64);
    }
    if let Some(n) = p.limit {
        lemma_u64_round_trip(n as u64);
    }
}

/// Absent fields never appear: the query of filing parameters contains
/// no pair whose key is that of an unset field.
pub proof fn lemma_filings_absent_fields_omitted(p: ListFilingsParams, i: int)
    requires
        0 <= i < filings_fields(p).len(),
        filings_fields(p)[i].1 is None,
    ensures
        forall|j: int| 0 <= j < filings_query(p).len() ==> (#[trigger] filings_query(p)[j]).0
            != filings_fields(p)[i].0,
{
    let f = filings_fields(p);
    assert(filings_keys() =~= field_keys(f));
    lemma_filings_keys_distinct();
    lemma_absent_field_never_appears(f, i);
}

/// Absent fields never appear: the query of insider parameters contains
/// no pair whose key is that of an unset field.
pub proof fn lemma_insider_absent_fields_omitted(p: ListInsiderParams, i: int)
    requires
        0 <= i < insider_fields(p).len(),
        insider_fields(p)[i].1 is None,
    ensures
        forall|j: int| 0 <= j < insider_query(p).len() ==> (#[trigger] insider_query(p)[j]).0
            != insider_fields(p)[i].0,
{
    let f = insider_fields(p);
    assert(insider_keys() =~= field_keys(f));
    lemma_insider_keys_distinct();
    lemma_absent_field_never_appears(f, i);
}

/// Absent fields never appear: the query of institutional parameters
/// contains no pair whose key is that of an unset field.
pub proof fn lemma_institutional_absent_fields_omitted(p: ListInstitutionalParams, i: int)
    requires
        0 <= i < institutional_fields(p).len(),
        institutional_fields(p)[i].1 is None,
    ensures
        forall|j: int| 0 <= j < institutional_query(p).len() ==> (#[trigger] institutional_query(
            p,
        )[j]).0 != institutional_fields(p)[i].0,
{
    let f = institutional_fields(p);
    assert(institutional_keys() =~= field_keys(f));
    lemma_institutional_keys_distinct();
    lemma_absent_field_never_appears(f, i);
}

/// Absent fields never appear: the query of company-search parameters
/// contains no pair whose key is that of an unset field.
pub proof fn lemma_search_absent_fields_omitted(p: SearchCompaniesParams, i: int)
    requires
        0 <= i < search_fields(p).len(),
        search_fields(p)[i].1 is None,
    ensures
        forall|j: int| 0 <= j < search_query(p).len() ==> (#[trigger] search_query(p)[j]).0
            != search_fields(p)[i].0,
{
    let f = search_fields(p);
    assert(search_keys() =~= field_keys(f));
    lemma_search_keys_distinct();
    lemma_absent_field_never_appears(f, i);
}

} // verus!
