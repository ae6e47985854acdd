//! The row parser: turns the raw pipe-delimited text produced by one remote
//! query into a sequence of records under an ordered column schema.
//!
//! Policy for degenerate input, applied consistently: raw text that is empty
//! or consists only of whitespace yields zero records.  Otherwise the text is
//! trimmed as a whole, split into lines, and every line (including an interior
//! empty one) yields one record.

use vstd::prelude::*;

use crate::text::{
    lemma_trim_all_ws_empty, split, split_spec, trim, trim_spec, views_of,
};

verus! {

/// One parsed row: an ordered mapping from column names to string values.
/// Field order follows the schema order, and only as many fields are present
/// as the row actually contained.
pub struct Record {
    pub fields: Vec<(String, String)>,
}

impl View for Record {
    type V = Seq<(Seq<char>, Seq<char>)>;

    open spec fn view(&self) -> Seq<(Seq<char>, Seq<char>)> {
        self.fields@.map_values(|p: (String, String)| (p.0@, p.1@))
    }
}

/// The views of a sequence of records, in order.
pub open spec fn records_of(v: Seq<Record>) -> Seq<Seq<(Seq<char>, Seq<char>)>> {
    v.map_values(|r: Record| r@)
}

/// The record built from one line under a schema: the line is split on the
/// pipe separator, each value is trimmed of surrounding whitespace, and
/// `schema[i]` is paired with value `i` for as many values as both exist.
pub open spec fn record_spec(schema: Seq<Seq<char>>, line: Seq<char>) -> Seq<
    (Seq<char>, Seq<char>),
> {
    let vals = split_spec(line, '|');
    let m = if schema.len() <= vals.len() {
        schema.len()
    } else {
        vals.len()
    };
    Seq::new(m, |i: int| (schema[i], trim_spec(vals[i])))
}

/// The records parsed from raw result text under a schema: the whole text is
/// trimmed, whereupon empty text yields no records and any other text yields
/// one record per line.
pub open spec fn parse_spec(raw: Seq<char>, schema: Seq<Seq<char>>) -> Seq<
    Seq<(Seq<char>, Seq<char>)>,
> {
    let t = trim_spec(raw);
    if t.len() == 0 {
        Seq::empty()
    } else {
        split_spec(t, '\n').map_values(|line: Seq<char>| record_spec(schema, line))
    }
}

/// Parses one line into a record under the given schema.
pub fn parse_line(line: &str, schema: &Vec<String>) -> (r: Record)
    ensures
        r@ == record_spec(views_of(schema@), line@),
{
    let vals = split(line, '|');
    let m: usize = if schema.len() <= vals.len() {
        schema.len()
    } else {
        vals.len()
    };
    let mut fields: Vec<(String, String)> = Vec::new();
    let mut i: usize = 0;
    while i < m
        invariant
            0 <= i <= m,
            m <= schema@.len(),
            m <= vals@.len(),
            views_of(vals@) == split_spec(line@, '|'),
            fields@.len() == i,
            forall|j: int|
                0 <= j < i ==> (#[trigger] fields@[j]).0@ == schema@[j]@
                    && fields@[j].1@ == trim_spec(views_of(vals@)[j]),
        decreases m - i,
    {
        let name = schema[i].clone();
        let value = trim(vals[i].as_str());
        fields.push((name, value));
        i = i + 1;
    }
    let r = Record { fields };
    proof {
        assert(r@ =~= record_spec(views_of(schema@), line@));
    }
    r
}

/// Parses raw result text into records under the given schema.
pub fn parse(raw: &str, schema: &Vec<String>) -> (r: Vec<Record>)
    ensures
        records_of(r@) == parse_spec(raw@, views_of(schema@)),
{
    let t = trim(raw);
    let mut out: Vec<Record> = Vec::new();
    if t.as_str().unicode_len() == 0 {
        proof {
            assert(records_of(out@) =~~= parse_spec(raw@, views_of(schema@)));
        }
        return out;
    }
    let lines = split(t.as_str(), '\n');
    let n: usize = lines.len();
    let mut i: usize = 0;
    while i < n
        invariant
            n == lines@.len(),
            0 <= i <= n,
            views_of(lines@) == split_spec(trim_spec(raw@), '\n'),
            trim_spec(raw@).len() > 0,
            out@.len() == i,
            forall|j: int|
                0 <= j < i ==> #[trigger] records_of(out@)[j] == record_spec(
                    views_of(schema@),
                    views_of(lines@)[j],
                ),
        decreases n - i,
    {
        let rec = parse_line(lines[i].as_str(), schema);
        let ghost grec = rec@;
        let ghost prev = out@;
        out.push(rec);
        proof {
            assert(forall|j: int|
                0 <= j < prev.len() ==> #[trigger] records_of(out@)[j] == records_of(
                    prev,
                )[j]);
            assert(views_of(lines@)[i as int] == lines@[i as int]@);
            assert(records_of(out@)[i as int] == grec);
        }
        i = i + 1;
    }
    proof {
        assert(records_of(out@) =~~= parse_spec(raw@, views_of(schema@)));
    }
    out
}

/// For a line whose split has `m` fields with `m` at most the schema length,
/// the record has exactly `m` fields: the first `m` schema names in schema
/// order, each mapped to the trimmed field value at the same position.
pub proof fn lemma_record_fields(schema: Seq<Seq<char>>, line: Seq<char>)
    requires
        split_spec(line, '|').len() <= schema.len(),
    ensures
        record_spec(schema, line).len() == split_spec(line, '|').len(),
        forall|i: int|
            0 <= i < split_spec(line, '|').len() ==> #[trigger] record_spec(
                schema,
                line,
            )[i] == (schema[i], trim_spec(split_spec(line, '|')[i])),
{
}

/// Raw text that is empty or all whitespace yields zero records, whatever the
/// schema.
pub proof fn lemma_whitespace_yields_no_records(raw: Seq<char>, schema: Seq<Seq<char>>)
    requires
        forall|j: int| 0 <= j < raw.len() ==> crate::text::is_ws(raw[j]),
    ensures
        parse_spec(raw, schema) == Seq::<Seq<(Seq<char>, Seq<char>)>>::empty(),
{
    lemma_trim_all_ws_empty(raw);
}

} // verus!
