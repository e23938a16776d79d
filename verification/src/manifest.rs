//! Rendering the manifest: one CSV header line followed by one line per
//! entity, in input order. The CSV encoding of a single line is delegated
//! to the csv crate; everything around it — the field order, the decimal
//! formatting, the handling of absent fields, and the row-per-entity
//! structure of the whole manifest — is verified here.
use crate::monitor::{monitor_of, Entity, EntityModel, Monitor, MonitorModel};
use crate::strutil::{dec_str, u32_to_string};
use vstd::prelude::*;

verus! {

/// What encoding one CSV record from its fields yields: the bytes of one
/// line, a function of the fields alone.
pub uninterp spec fn csv_line_of(fields: Seq<Seq<char>>) -> Seq<u8>;

/// Relies on `csv::Writer::write_record`: encodes the fields as one CSV
/// record into an in-memory buffer, a pure function of the fields. Writing
/// to a byte buffer cannot fail, so the error arms are dead.
#[verifier::external_body]
fn csv_line(fields: &Vec<String>) -> (r: Vec<u8>)
    ensures
        r@ == csv_line_of(fields.deep_view()),
{
    let mut w = csv::Writer::from_writer(Vec::new());
    let _ = w.write_record(fields.iter().map(|f| f.as_bytes()));
    let _ = w.flush();
    w.into_inner().unwrap_or(Vec::new())
}

/// The manifest's column names, in their fixed order.
pub open spec fn header_fields() -> Seq<Seq<char>> {
    seq![
        "account"@,
        "account_id"@,
        "name"@,
        "monitor_type"@,
        "monitored_url"@,
        "period"@,
        "monitor_status"@,
        "guid"@,
    ]
}

/// An optional field's text: its content when present, empty when absent.
pub open spec fn opt_field(o: Option<Seq<char>>) -> Seq<char> {
    match o {
        Some(s) => s,
        None => Seq::empty(),
    }
}

/// The fields of one record, in column order, integers in decimal.
pub open spec fn record_fields(m: MonitorModel) -> Seq<Seq<char>> {
    seq![
        opt_field(m.account),
        dec_str(m.account_id as nat),
        m.name,
        m.monitor_type,
        opt_field(m.monitored_url),
        dec_str(m.period as nat),
        opt_field(m.monitor_status),
        m.guid,
    ]
}

/// The manifest line of one entity: its flattened record, CSV-encoded.
pub open spec fn row_line(e: EntityModel) -> Seq<u8> {
    csv_line_of(record_fields(monitor_of(e)))
}

/// The data lines of the manifest: each entity's line, in input order.
pub open spec fn rows_of(es: Seq<EntityModel>) -> Seq<u8>
    decreases es.len(),
{
    if es.len() == 0 {
        Seq::empty()
    } else {
        row_line(es[0]) + rows_of(es.drop_first())
    }
}

/// The whole manifest: the header line, then the data lines.
pub open spec fn manifest_of(es: Seq<EntityModel>) -> Seq<u8> {
    csv_line_of(header_fields()) + rows_of(es)
}

proof fn lemma_rows_snoc(es: Seq<EntityModel>, i: int)
    requires
        0 <= i < es.len(),
    ensures
        rows_of(es.take(i + 1)) == rows_of(es.take(i)) + row_line(es[i]),
    decreases i,
{
    if i == 0 {
        assert(es.take(1) =~= seq![es[0]]);
        assert(seq![es[0]].drop_first() =~= Seq::<EntityModel>::empty());
        assert(es.take(0) =~= Seq::<EntityModel>::empty());
        assert(rows_of(es.take(1)) =~= rows_of(es.take(0)) + row_line(es[0]));
    } else {
        lemma_rows_snoc(es.drop_first(), i - 1);
        assert(es.take(i + 1).drop_first() =~= es.drop_first().take(i));
        assert(es.take(i).drop_first() =~= es.drop_first().take(i - 1));
        assert(es.take(i + 1).len() > 0);
        assert(es.take(i + 1)[0] == es[0]);
        assert(es.take(i)[0] == es[0]);
        assert(es.drop_first()[i - 1] == es[i]);
        assert(rows_of(es.take(i + 1)) == row_line(es[0]) + (rows_of(es.drop_first().take(i - 1))
            + row_line(es[i])));
        assert(row_line(es[0]) + (rows_of(es.drop_first().take(i - 1)) + row_line(es[i])) =~= (
        row_line(es[0]) + rows_of(es.drop_first().take(i - 1))) + row_line(es[i]));
        assert(rows_of(es.take(i)) == row_line(es[0]) + rows_of(es.drop_first().take(i - 1)));
    }
}

/// The manifest's data lines, one per entity.
pub open spec fn manifest_rows(es: Seq<EntityModel>) -> Seq<Seq<u8>> {
    Seq::new(es.len(), |i: int| row_line(es[i]))
}

proof fn lemma_rows_flatten(es: Seq<EntityModel>)
    ensures
        rows_of(es) == manifest_rows(es).flatten(),
    decreases es.len(),
{
    if es.len() == 0 {
        assert(manifest_rows(es) =~= Seq::<Seq<u8>>::empty());
    } else {
        lemma_rows_flatten(es.drop_first());
        assert(manifest_rows(es).drop_first() =~= manifest_rows(es.drop_first()));
        assert(manifest_rows(es).first() == row_line(es[0]));
    }
}

/// Manifest completeness: for an entity list of any size, the manifest is
/// the header line followed by exactly one data line per entity, in input
/// order — each line the CSV encoding of that entity's flattened record.
/// The manifest is a function of the entity list alone, so it does not
/// depend on any script-fetch outcome.
pub proof fn lemma_manifest_complete(es: Seq<EntityModel>)
    ensures
        manifest_of(es) == csv_line_of(header_fields()) + manifest_rows(es).flatten(),
        manifest_rows(es).len() == es.len(),
        forall|i: int|
            0 <= i < es.len() ==> manifest_rows(es)[i] == csv_line_of(
                record_fields(monitor_of(es[i])),
            ),
{
    lemma_rows_flatten(es);
}

fn opt_string(o: &Option<String>) -> (r: String)
    ensures
        r@ == opt_field(o.deep_view()),
{
    match o {
        Some(s) => s.clone(),
        None => String::new(),
    }
}

fn record_to_fields(m: &Monitor) -> (r: Vec<String>)
    ensures
        r.deep_view() == record_fields(m@),
{
    let mut v: Vec<String> = Vec::new();
    v.push(opt_string(&m.account));
    v.push(u32_to_string(m.account_id));
    v.push(m.name.clone());
    v.push(m.monitor_type.clone());
    v.push(opt_string(&m.monitored_url));
    v.push(u32_to_string(m.period));
    v.push(opt_string(&m.monitor_status));
    v.push(m.guid.clone());
    proof {
        assert(v.deep_view() =~= record_fields(m@));
    }
    v
}

fn header_vec() -> (r: Vec<String>)
    ensures
        r.deep_view() == header_fields(),
{
    let mut v: Vec<String> = Vec::new();
    v.push(String::from_str("account"));
    v.push(String::from_str("account_id"));
    v.push(String::from_str("name"));
    v.push(String::from_str("monitor_type"));
    v.push(String::from_str("monitored_url"));
    v.push(String::from_str("period"));
    v.push(String::from_str("monitor_status"));
    v.push(String::from_str("guid"));
    proof {
        assert(v.deep_view() =~= header_fields());
    }
    v
}

/// Renders the whole manifest for an entity list: the header line, then
/// one line per entity in input order, each the CSV encoding of the
/// entity's flattened record.
pub fn render_manifest(entities: &Vec<Entity>) -> (r: Vec<u8>)
    ensures
        r@ == manifest_of(entities.deep_view()),
{
    let ghost es = entities.deep_view();
    let header = header_vec();
    let mut out: Vec<u8> = csv_line(&header);
    proof {
        assert(es.take(0) =~= Seq::<EntityModel>::empty());
        assert(out@ =~= csv_line_of(header_fields()) + rows_of(es.take(0)));
    }
    let n: usize = entities.len();
    let mut i: usize = 0;
    while i < n
        invariant
            n == entities@.len(),
            es == entities.deep_view(),
            es.len() == n,
            0 <= i <= n,
            out@ == csv_line_of(header_fields()) + rows_of(es.take(i as int)),
        decreases n - i,
    {
        let e = entities[i].clone();
        proof {
            assert(e@ == es[i as int]);
        }
        let m = Monitor::from(e);
        let fields = record_to_fields(&m);
        let mut line = csv_line(&fields);
        out.append(&mut line);
        proof {
            lemma_rows_snoc(es, i as int);
            assert(csv_line_of(header_fields()) + rows_of(es.take(i as int)) + row_line(
                es[i as int],
            ) =~= csv_line_of(header_fields()) + rows_of(es.take(i + 1)));
        }
        i = i + 1;
    }
    proof {
        assert(es.take(n as int) =~= es);
    }
    out
}

} // verus!
