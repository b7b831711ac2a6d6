//! Core dataset definitions and the dataset-facing services.
//!
//! Reading a file is the boundary layer's business; the core derives the
//! dataset identity and metadata from the lines it is handed.

use vstd::prelude::*;
use crate::error::DeltaResult;
use crate::fixed::dec_digits;
use crate::hash::{hash_bytes, hex8, SimpleHash, FNV_OFFSET_BASIS};
use crate::json::{escape_seq, push_escaped};
use crate::text::{chars_of, chars_to_string, push_str_chars};

verus! {

/// Opaque identifier for datasets.
#[derive(Debug)]
pub struct DatasetId {
    value: String,
}

impl View for DatasetId {
    type V = Seq<char>;

    closed spec fn view(&self) -> Seq<char> {
        self.value@
    }
}

impl Clone for DatasetId {
    /// An identical identifier.
    fn clone(&self) -> (r: Self)
        ensures
            r@ == self@,
    {
        DatasetId { value: self.value.clone() }
    }
}

impl DatasetId {
    /// Construct a dataset identifier from an owned string.
    pub fn new(value: String) -> (r: Self)
        ensures
            r@ == value@,
    {
        DatasetId { value }
    }

    /// Borrow the identifier as a string slice.
    pub fn as_str(&self) -> (r: &str)
        ensures
            r@ == self@,
    {
        self.value.as_str()
    }

    /// Consume the identifier and return the owned string.
    pub fn into_inner(self) -> (r: String)
        ensures
            r@ == self@,
    {
        self.value
    }
}

/// Simplistic representation of a dataset schema.
#[derive(Clone, Debug)]
pub struct Schema {
    /// The schema definition as JSON text.
    pub definition_json: String,
}

/// Dataset metadata stored alongside the raw data.
#[derive(Debug)]
pub struct Dataset {
    /// The dataset's identifier.
    pub id: DatasetId,
    /// The declared schema.
    pub schema: Schema,
    /// Creation time in milliseconds since the Unix epoch.
    pub created_ms: u128,
    /// Number of ingested rows.
    pub rows: u64,
}

impl Dataset {
    /// Convenience constructor.
    pub fn new(id: DatasetId, schema_json: String, created_ms: u128, rows: u64) -> (r: Self)
        ensures
            r.id@ == id@,
            r.schema.definition_json@ == schema_json@,
            r.created_ms == created_ms,
            r.rows == rows,
    {
        Dataset { id, schema: Schema { definition_json: schema_json }, created_ms, rows }
    }
}

/// Repository contract for dataset persistence.
pub trait DataRepo {
    /// Store a dataset's metadata.
    fn put_dataset(&self, dataset: &Dataset) -> DeltaResult<()>;

    /// Load a dataset's metadata by identifier.
    fn get_dataset(&self, id: DatasetId) -> DeltaResult<Dataset>;
}

/// The running hash over the UTF-8 bytes of the lines from index `i` on.
pub open spec fn lines_hash_from(lines: Seq<Seq<char>>, i: int, st: u32) -> u32
    decreases lines.len() - i,
{
    if i < 0 || i >= lines.len() {
        st
    } else {
        lines_hash_from(lines, i + 1, hash_bytes(st, vstd::utf8::encode_utf8(lines[i])))
    }
}

/// The digest over the UTF-8 bytes of all lines, in order.
pub open spec fn lines_hash(lines: Seq<Seq<char>>) -> u32 {
    lines_hash_from(lines, 0, FNV_OFFSET_BASIS)
}

/// The identifier text derived for a set of ingested lines.
pub open spec fn dataset_id_text(lines: Seq<Seq<char>>) -> Seq<char> {
    "ds-"@ + hex8(lines_hash(lines))
}

/// Derive a dataset from its ingested lines, as the ingestion service does:
/// the identifier digests every line in order, and the row count is the
/// number of lines.
pub fn ingest_lines(lines: &Vec<String>, schema_json: &str, created_ms: u128) -> (r: Dataset)
    requires
        lines@.len() <= u64::MAX,
    ensures
        r.id@ == dataset_id_text(lines.deep_view()),
        r.schema.definition_json@ == schema_json@,
        r.created_ms == created_ms,
        r.rows == lines@.len(),
{
    let ghost lv = lines.deep_view();
    let mut hasher = SimpleHash::new();
    let mut i: usize = 0;
    while i < lines.len()
        invariant
            lv == lines.deep_view(),
            lv.len() == lines@.len(),
            i <= lv.len(),
            lines_hash(lv) == lines_hash_from(lv, i as int, hasher@),
        decreases lv.len() - i,
    {
        proof {
            assert(lines@[i as int]@ == lv[i as int]);
        }
        hasher.update(lines[i].as_str().as_bytes());
        i = i + 1;
    }
    let mut idchars: Vec<char> = Vec::new();
    push_str_chars(&mut idchars, "ds-");
    crate::hash::push_hex8_chars(&mut idchars, hasher.finish32());
    let id = DatasetId::new(chars_to_string(&idchars));
    let rows: u64 = lines.len() as u64;
    Dataset::new(id, schema_json.to_owned(), created_ms, rows)
}

/// The datasheet text for a dataset identifier at a given time.
pub open spec fn datasheet_text(id: Seq<char>, now: int) -> Seq<char> {
    "{\"dataset_id\":\""@ + escape_seq(id)
        + "\",\"schema\":\"inline\",\"retention_days\":30,\"created_ms\":"@ + dec_digits(now)
        + "}"@
}

/// Render the datasheet for a dataset identifier at the given time.
pub fn datasheet_body(dataset_id: &DatasetId, now: u128) -> (r: String)
    ensures
        r@ == datasheet_text(dataset_id@, now as int),
{
    let mut out: Vec<char> = Vec::new();
    push_str_chars(&mut out, "{\"dataset_id\":\"");
    let idchars = chars_of(dataset_id.as_str());
    push_escaped(&mut out, &idchars);
    push_str_chars(&mut out, "\",\"schema\":\"inline\",\"retention_days\":30,\"created_ms\":");
    crate::fixed::push_dec_u128(&mut out, now);
    push_str_chars(&mut out, "}");
    proof {
        assert(out@ =~= datasheet_text(dataset_id@, now as int));
    }
    chars_to_string(&out)
}

/// Export a datasheet for the given dataset identifier, stamped with the
/// current wall-clock time.
pub fn export_datasheet(dataset_id: &DatasetId) -> (r: DeltaResult<String>)
    ensures
        r is Ok,
        exists|t: u128| r->Ok_0@ == datasheet_text(dataset_id@, t as int),
{
    let now = crate::time::now_ms();
    let sheet = datasheet_body(dataset_id, now);
    Ok(sheet)
}

} // verus!
