//! The benchmark's CSV log, byte for byte.
//!
//! The log is append-only: one row per record, a header only when the file
//! is new.  A field is quoted exactly when it holds a comma, a quote or a
//! line break, and a quote inside a quoted field is doubled.  The host
//! program formats the two floating-point columns into strings and writes
//! the finished bytes to disk; everything between is stated here.

use vstd::prelude::*;
use vstd::arithmetic::div_mod::lemma_div_decreases;
use vstd::string::StrSliceExecFns;
use vstd::string::StringSliceAdditionalSpecFns;
use vstd::utf8::encode_utf8;

verus! {

// ---------------------------------------------------------------------------
// Decimal formatting.
// ---------------------------------------------------------------------------

/// The decimal digits of a non-negative number, most significant first.
pub open spec fn spec_dec(n: int) -> Seq<u8>
    decreases n,
{
    if n < 0 {
        Seq::empty()
    } else if n < 10 {
        seq![(48 + n) as u8]
    } else {
        spec_dec(n / 10).push((48 + n % 10) as u8)
    }
}

/// Writes a number in decimal.
pub fn u64_to_dec(n: u64) -> (r: Vec<u8>)
    ensures
        r@ == spec_dec(n as int),
    decreases n,
{
    if n < 10 {
        let mut v: Vec<u8> = Vec::new();
        v.push(48 + n as u8);
        proof {
            assert(v@ =~= spec_dec(n as int));
        }
        v
    } else {
        proof {
            lemma_div_decreases(n as int, 10);
        }
        let mut v = u64_to_dec(n / 10);
        v.push(48 + (n % 10) as u8);
        v
    }
}

// ---------------------------------------------------------------------------
// CSV fields and rows.
// ---------------------------------------------------------------------------

/// A byte that forces a field into quotes: comma, quote, LF or CR.
pub open spec fn csv_special(b: u8) -> bool {
    b == 44 || b == 34 || b == 10 || b == 13
}

/// Whether a field must be quoted.
pub open spec fn csv_needs_quoting(f: Seq<u8>) -> bool {
    exists|i: int| 0 <= i < f.len() && csv_special(#[trigger] f[i])
}

/// The field's bytes with every quote doubled.
pub open spec fn spec_doubled(f: Seq<u8>) -> Seq<u8>
    decreases f.len(),
{
    if f.len() == 0 {
        Seq::empty()
    } else {
        spec_doubled(f.drop_last()) + (if f.last() == 34 {
            seq![34u8, 34u8]
        } else {
            seq![f.last()]
        })
    }
}

/// A field as it stands in the log: quoted and with doubled quotes exactly
/// when it holds a special byte, unchanged otherwise.
pub open spec fn spec_csv_field(f: Seq<u8>) -> Seq<u8> {
    if csv_needs_quoting(f) {
        seq![34u8] + spec_doubled(f) + seq![34u8]
    } else {
        f
    }
}

/// Writes one field of a row.
#[verifier::loop_isolation(false)]
pub fn csv_field(f: &Vec<u8>) -> (r: Vec<u8>)
    ensures
        r@ == spec_csv_field(f@),
{
    let n = f.len();
    let mut special = false;
    let mut i: usize = 0;
    while i < n
        invariant
            i <= n,
            special ==> csv_needs_quoting(f@),
            !special ==> forall|j: int| 0 <= j < i ==> !csv_special(#[trigger] f@[j]),
        decreases n - i,
    {
        let b = f[i];
        if b == 44 || b == 34 || b == 10 || b == 13 {
            special = true;
        }
        i = i + 1;
    }
    let mut out: Vec<u8> = Vec::new();
    if !special {
        let mut i: usize = 0;
        while i < n
            invariant
                i <= n,
                out@ == f@.subrange(0, i as int),
            decreases n - i,
        {
            out.push(f[i]);
            proof {
                assert(out@ =~= f@.subrange(0, i + 1));
            }
            i = i + 1;
        }
        proof {
            assert(f@.subrange(0, n as int) =~= f@);
        }
        return out;
    }
    out.push(34);
    let mut i: usize = 0;
    while i < n
        invariant
            i <= n,
            out@ == seq![34u8] + spec_doubled(f@.subrange(0, i as int)),
        decreases n - i,
    {
        proof {
            assert(f@.subrange(0, i + 1).drop_last() =~= f@.subrange(0, i as int));
            assert(f@.subrange(0, i + 1).last() == f@[i as int]);
        }
        let b = f[i];
        if b == 34 {
            out.push(34);
            out.push(34);
        } else {
            out.push(b);
        }
        proof {
            assert(out@ =~= seq![34u8] + spec_doubled(f@.subrange(0, i + 1)));
        }
        i = i + 1;
    }
    out.push(34);
    proof {
        assert(f@.subrange(0, n as int) =~= f@);
        assert(out@ =~= seq![34u8] + spec_doubled(f@) + seq![34u8]);
    }
    out
}

/// The cells of a row, escaped and joined with commas.
pub open spec fn spec_csv_cells(fields: Seq<Seq<u8>>) -> Seq<u8>
    decreases fields.len(),
{
    if fields.len() == 0 {
        Seq::empty()
    } else if fields.len() == 1 {
        spec_csv_field(fields[0])
    } else {
        spec_csv_cells(fields.drop_last()) + seq![44u8] + spec_csv_field(fields.last())
    }
}

/// A whole row: its cells and the terminating line feed.
pub open spec fn spec_csv_row(fields: Seq<Seq<u8>>) -> Seq<u8> {
    spec_csv_cells(fields) + seq![10u8]
}

fn push_bytes(out: &mut Vec<u8>, bytes: &Vec<u8>)
    ensures
        final(out)@ == old(out)@ + bytes@,
{
    let n = bytes.len();
    let mut i: usize = 0;
    while i < n
        invariant
            n == bytes@.len(),
            i <= n,
            out@ == old(out)@ + bytes@.subrange(0, i as int),
        decreases n - i,
    {
        out.push(bytes[i]);
        proof {
            assert(out@ =~= old(out)@ + bytes@.subrange(0, i + 1));
        }
        i = i + 1;
    }
    proof {
        assert(bytes@.subrange(0, n as int) =~= bytes@);
    }
}

/// Writes one row of the log.
#[verifier::loop_isolation(false)]
pub fn csv_row(fields: &Vec<Vec<u8>>) -> (r: Vec<u8>)
    ensures
        r@ == spec_csv_row(fields@.map_values(|f: Vec<u8>| f@)),
{
    let ghost views = fields@.map_values(|f: Vec<u8>| f@);
    let n = fields.len();
    let mut out: Vec<u8> = Vec::new();
    let mut i: usize = 0;
    while i < n
        invariant
            i <= n,
            out@ == spec_csv_cells(views.subrange(0, i as int)),
        decreases n - i,
    {
        if i > 0 {
            out.push(44);
        }
        let cell = csv_field(&fields[i]);
        push_bytes(&mut out, &cell);
        proof {
            assert(views.subrange(0, i + 1).drop_last() =~= views.subrange(0, i as int));
            assert(views.subrange(0, i + 1).last() == views[i as int]);
            if i == 0 {
                assert(out@ =~= spec_csv_cells(views.subrange(0, i + 1)));
            } else {
                assert(out@ =~= spec_csv_cells(views.subrange(0, i + 1)));
            }
        }
        i = i + 1;
    }
    out.push(10);
    proof {
        assert(views.subrange(0, n as int) =~= views);
        assert(out@ =~= spec_csv_row(views));
    }
    out
}

// ---------------------------------------------------------------------------
// The benchmark record and its row.
// ---------------------------------------------------------------------------

/// One benchmark record: a shader source, its mean and standard deviation
/// of draw time in milliseconds - formatted by the host, since they are
/// floating-point - and the sizes of what was drawn.
#[derive(Clone, Debug)]
pub struct Record {
    pub filename: String,
    pub average_drawtime: String,
    pub std: String,
    pub n_vertices: usize,
    pub n_indices: usize,
    pub n_fragments: usize,
}

impl Record {
    /// The record's cells, in column order.
    pub open spec fn spec_fields(self) -> Seq<Seq<u8>> {
        seq![
            encode_utf8(self.filename@),
            encode_utf8(self.average_drawtime@),
            encode_utf8(self.std@),
            spec_dec(self.n_vertices as int),
            spec_dec(self.n_indices as int),
            spec_dec(self.n_fragments as int),
        ]
    }
}

/// The header row of the log, written only when the log file is new.
pub fn csv_header() -> (r: Vec<u8>)
    ensures
        r@ == "filename,average_drawtime,std,n_vertices,n_indices,n_fragments\n".spec_bytes(),
{
    "filename,average_drawtime,std,n_vertices,n_indices,n_fragments\n".as_bytes_vec()
}

/// Writes one record as a row of the log.
pub fn record_row(rec: &Record) -> (r: Vec<u8>)
    ensures
        r@ == spec_csv_row(rec.spec_fields()),
{
    let mut fields: Vec<Vec<u8>> = Vec::new();
    fields.push(rec.filename.as_str().as_bytes_vec());
    fields.push(rec.average_drawtime.as_str().as_bytes_vec());
    fields.push(rec.std.as_str().as_bytes_vec());
    fields.push(u64_to_dec(rec.n_vertices as u64));
    fields.push(u64_to_dec(rec.n_indices as u64));
    fields.push(u64_to_dec(rec.n_fragments as u64));
    let r = csv_row(&fields);
    proof {
        assert(fields@.map_values(|f: Vec<u8>| f@) =~= rec.spec_fields());
    }
    r
}

} // verus!
