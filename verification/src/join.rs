//! The join phase: for each buffered street record, derive the lookup keys
//! of its administrative hierarchy, resolve them against the immutable
//! reference tables, and assemble one output document; the buffer is
//! drained from its tail in fixed-size chunks.

use vstd::prelude::*;
use vstd::arithmetic::div_mod::lemma_fundamental_div_mod_converse;
use crate::records::{
    MunicipalityRecordV, OutputDocument, OutputDocumentV, StreetRecord, StreetRecordV, opt_view,
};
use crate::scan::{Tables, TablesV, street_views};
use crate::text::{copy_chars, copy_range, push_all};

verus! {

/// Default number of street records per chunk handed to the sink.
pub const CHUNK_SIZE: usize = 5000;

/// `prefix` right-padded with `'0'` to eight characters.
pub open spec fn pad8(prefix: Seq<char>) -> Seq<char> {
    if prefix.len() >= 8 {
        prefix
    } else {
        prefix + Seq::new((8 - prefix.len()) as nat, |i: int| '0')
    }
}

/// The municipality-table key at one administrative level: the first `k`
/// characters of the admin chain, right-padded with `'0'` to eight, with
/// the one-letter granularity marker appended.
pub open spec fn admin_key(chain: Seq<char>, k: int, marker: char) -> Seq<char> {
    pad8(chain.take(k)).push(marker)
}

/// Derives the lookup key of one administrative level.
pub fn derive_admin_key(chain: &Vec<char>, k: usize, marker: char) -> (r: Vec<char>)
    requires
        k <= chain@.len(),
    ensures
        r@ == admin_key(chain@, k as int, marker),
{
    let ghost prefix = chain@.take(k as int);
    let mut r = copy_range(chain, 0, k);
    proof {
        assert(r@ =~= prefix + Seq::new(0, |i: int| '0'));
    }
    while r.len() < 8
        invariant
            prefix.len() <= r@.len(),
            r@.len() <= 8 || r@.len() == prefix.len(),
            r@ == prefix + Seq::new((r@.len() - prefix.len()) as nat, |i: int| '0'),
        decreases 8 - r@.len(),
    {
        r.push('0');
        proof {
            assert(Seq::new((r@.len() - prefix.len()) as nat, |i: int| '0') =~= Seq::new(
                (r@.len() - 1 - prefix.len()) as nat,
                |i: int| '0',
            ).push('0'));
            assert(r@ =~= prefix + Seq::new((r@.len() - prefix.len()) as nat, |i: int| '0'));
        }
    }
    proof {
        if prefix.len() >= 8 {
            assert(r@ =~= prefix);
        }
        assert(r@ =~= pad8(prefix));
    }
    r.push(marker);
    proof {
        assert(r@ =~= admin_key(chain@, k as int, marker));
    }
    r
}

/// The name under a municipality-table key, if the key resolves.
pub open spec fn muni_name(m: Map<Seq<char>, MunicipalityRecordV>, key: Seq<char>) -> Option<
    Seq<char>,
> {
    if m.contains_key(key) {
        Some(m[key].name)
    } else {
        None
    }
}

fn muni_lookup(tables: &Tables, chain: &Vec<char>, k: usize, marker: char) -> (r: Option<
    Vec<char>,
>)
    requires
        k <= chain@.len(),
    ensures
        opt_view(r) == muni_name(tables@.municipalities, admin_key(chain@, k as int, marker)),
{
    let key = derive_admin_key(chain, k, marker);
    match tables.municipalities.get(&key) {
        Some(rec) => Some(copy_chars(&rec.name)),
        None => None,
    }
}

/// The output document a street record joins to. The subdivision and
/// locality lookups apply only when the street has no subdivision code;
/// each administrative level resolves independently, a miss at one level
/// never suppresses the others.
pub open spec fn join_street_spec(t: TablesV, f: StreetRecordV) -> OutputDocumentV {
    let sub_key = f.code + f.subcode + f.postal + seq!['G'];
    let loc_key = f.code + seq!['G'];
    let sub_hit = f.subcode.len() == 0 && t.subdivisions.contains_key(sub_key);
    let loc_hit = f.subcode.len() == 0 && t.localities.contains_key(loc_key);
    OutputDocumentV {
        street: f.name,
        postal_code: f.postal,
        city: if loc_hit {
            Some(t.localities[loc_key].name)
        } else {
            None
        },
        city_addition: if loc_hit {
            Some(t.localities[loc_key].addition)
        } else {
            None
        },
        region: if sub_hit {
            Some(t.subdivisions[sub_key].name)
        } else {
            None
        },
        community: muni_name(t.municipalities, admin_key(f.admin_chain, 8, 'G')),
        country: muni_name(t.municipalities, admin_key(f.admin_chain, 5, 'K')),
        district: muni_name(t.municipalities, admin_key(f.admin_chain, 3, 'R')),
        state: muni_name(t.municipalities, admin_key(f.admin_chain, 2, 'L')),
    }
}

/// Joins one street record against the reference tables.
pub fn join_street(tables: &Tables, f: &StreetRecord) -> (d: OutputDocument)
    requires
        f.admin_chain@.len() == 8,
    ensures
        d@ == join_street_spec(tables@, f@),
{
    let mut region: Option<Vec<char>> = None;
    let mut city: Option<Vec<char>> = None;
    let mut city_addition: Option<Vec<char>> = None;
    if f.subcode.len() == 0 {
        let mut sub_key: Vec<char> = Vec::new();
        push_all(&mut sub_key, &f.code);
        push_all(&mut sub_key, &f.subcode);
        push_all(&mut sub_key, &f.postal);
        sub_key.push('G');
        proof {
            assert(sub_key@ =~= f@.code + f@.subcode + f@.postal + seq!['G']);
        }
        region = match tables.subdivisions.get(&sub_key) {
            Some(rec) => Some(copy_chars(&rec.name)),
            None => None,
        };
        let mut loc_key: Vec<char> = Vec::new();
        push_all(&mut loc_key, &f.code);
        loc_key.push('G');
        proof {
            assert(loc_key@ =~= f@.code + seq!['G']);
        }
        match tables.localities.get(&loc_key) {
            Some(rec) => {
                city = Some(copy_chars(&rec.name));
                city_addition = Some(copy_chars(&rec.addition));
            },
            None => {},
        }
    }
    OutputDocument {
        street: copy_chars(&f.name),
        postal_code: copy_chars(&f.postal),
        city,
        city_addition,
        region,
        community: muni_lookup(tables, &f.admin_chain, 8, 'G'),
        country: muni_lookup(tables, &f.admin_chain, 5, 'K'),
        district: muni_lookup(tables, &f.admin_chain, 3, 'R'),
        state: muni_lookup(tables, &f.admin_chain, 2, 'L'),
    }
}

/// The join of a whole buffer, record by record, in order.
pub open spec fn join_seq(t: TablesV, fs: Seq<StreetRecordV>) -> Seq<OutputDocumentV> {
    fs.map_values(|f: StreetRecordV| join_street_spec(t, f))
}

pub open spec fn doc_views(ds: Seq<OutputDocument>) -> Seq<OutputDocumentV> {
    ds.map_values(|d: OutputDocument| d@)
}

/// Joins one chunk of street records; the tables are read, never changed.
pub fn join_chunk(tables: &Tables, chunk: &Vec<StreetRecord>) -> (docs: Vec<OutputDocument>)
    requires
        forall|i: int| 0 <= i < chunk@.len() ==> chunk@[i].admin_chain@.len() == 8,
    ensures
        doc_views(docs@) == join_seq(tables@, street_views(chunk@)),
{
    let mut docs: Vec<OutputDocument> = Vec::new();
    proof {
        assert(doc_views(docs@) =~= join_seq(tables@, street_views(chunk@.take(0))));
    }
    let mut i: usize = 0;
    while i < chunk.len()
        invariant
            i <= chunk@.len(),
            forall|j: int| 0 <= j < chunk@.len() ==> chunk@[j].admin_chain@.len() == 8,
            doc_views(docs@) == join_seq(tables@, street_views(chunk@.take(i as int))),
        decreases chunk@.len() - i,
    {
        let ghost docs_before = docs@;
        let d = join_street(tables, &chunk[i]);
        docs.push(d);
        proof {
            let pre = street_views(chunk@.take(i as int));
            let post = street_views(chunk@.take(i as int + 1));
            assert(post =~= pre.push(chunk@[i as int]@));
            assert(join_seq(tables@, post) =~= join_seq(tables@, pre).push(
                join_street_spec(tables@, chunk@[i as int]@),
            ));
            assert(doc_views(docs@) =~= doc_views(docs_before).push(
                join_street_spec(tables@, chunk@[i as int]@),
            ));
        }
        i += 1;
    }
    proof {
        assert(chunk@.take(chunk@.len() as int) =~= chunk@);
    }
    docs
}

/// Removes the tail chunk of the buffer: the last `size` records, or all
/// of them when fewer remain; their order is kept.
pub fn take_chunk(streets: &mut Vec<StreetRecord>, size: usize) -> (chunk: Vec<StreetRecord>)
    requires
        size >= 1,
    ensures
        old(streets)@ == final(streets)@ + chunk@,
        chunk@.len() == if old(streets)@.len() < size {
            old(streets)@.len() as int
        } else {
            size as int
        },
{
    let at = if streets.len() > size {
        streets.len() - size
    } else {
        0
    };
    let chunk = streets.split_off(at);
    proof {
        assert(old(streets)@ =~= streets@ + chunk@);
    }
    chunk
}

/// The chunks laid back together, newest-taken first: since chunks are
/// taken from the tail, this restores the buffer's own order.
pub open spec fn concat_rev<T>(chunks: Seq<Seq<T>>) -> Seq<T>
    decreases chunks.len(),
{
    if chunks.len() == 0 {
        Seq::empty()
    } else {
        chunks.last() + concat_rev(chunks.drop_last())
    }
}

pub open spec fn chunk_views(cs: Seq<Vec<StreetRecord>>) -> Seq<Seq<StreetRecordV>> {
    cs.map_values(|c: Vec<StreetRecord>| street_views(c@))
}

/// Drains the whole buffer from the tail into chunks of at most `size`
/// records: exactly the ceiling of `len / size` chunks, none empty, whose
/// concatenation is the buffer, with nothing duplicated or lost.
pub fn chunk_streets(streets: Vec<StreetRecord>, size: usize) -> (chunks: Vec<Vec<StreetRecord>>)
    requires
        size >= 1,
    ensures
        concat_rev(chunk_views(chunks@)) == street_views(streets@),
        chunks@.len() == (streets@.len() + size - 1) as int / (size as int),
        forall|i: int|
            0 <= i < chunks@.len() ==> 1 <= #[trigger] chunk_views(chunks@)[i].len() <= size,
{
    let ghost orig = street_views(streets@);
    let ghost n = orig.len() as int;
    let mut rest = streets;
    let mut chunks: Vec<Vec<StreetRecord>> = Vec::new();
    proof {
        assert(orig =~= street_views(rest@) + concat_rev(chunk_views(chunks@)));
    }
    while rest.len() > 0
        invariant
            size >= 1,
            n == orig.len(),
            orig == street_views(rest@) + concat_rev(chunk_views(chunks@)),
            forall|i: int|
                0 <= i < chunks@.len() ==> 1 <= #[trigger] chunk_views(chunks@)[i].len() <= size,
            rest@.len() > 0 ==> n == rest@.len() + chunks@.len() * size,
            rest@.len() == 0 && chunks@.len() == 0 ==> n == 0,
            rest@.len() == 0 && chunks@.len() > 0 ==> n == (chunks@.len() - 1) * size
                + chunk_views(chunks@).last().len(),
        decreases rest@.len(),
    {
        let ghost rest_before = rest@;
        let ghost chunks_before = chunks@;
        let c = take_chunk(&mut rest, size);
        let ghost cv = street_views(c@);
        chunks.push(c);
        proof {
            assert(chunk_views(chunks@).drop_last() =~= chunk_views(chunks_before));
            assert(chunk_views(chunks@).last() =~= cv);
            assert(forall|i: int|
                0 <= i < chunks_before.len() ==> chunk_views(chunks@)[i] == chunk_views(
                    chunks_before,
                )[i]);
            assert(street_views(rest_before) =~= street_views(rest@) + cv);
            assert(orig =~= street_views(rest@) + concat_rev(chunk_views(chunks@)));
            assert((chunks_before.len() + 1) * size == chunks_before.len() * size + size)
                by (nonlinear_arith);
            if rest_before.len() > size {
                assert(cv.len() == size);
                assert(rest@.len() == rest_before.len() - size);
            } else {
                assert(cv.len() == rest_before.len());
                assert(rest@.len() == 0);
            }
            assert(chunk_views(chunks@)[chunks@.len() - 1] == cv);
            assert(1 <= cv.len() <= size);
            assert(chunks@.len() == chunks_before.len() + 1);
            assert forall|i: int|
                0 <= i < chunks@.len() implies 1 <= #[trigger] chunk_views(chunks@)[i].len()
                <= size by {
                if i < chunks_before.len() {
                    assert(chunk_views(chunks@)[i] == chunk_views(chunks_before)[i]);
                    assert(1 <= chunk_views(chunks_before)[i].len() <= size);
                } else {
                    assert(chunk_views(chunks@)[i] == cv);
                }
            };
        }
    }
    proof {
        assert(street_views(rest@) =~= Seq::<StreetRecordV>::empty());
        assert(orig =~= Seq::<StreetRecordV>::empty() + concat_rev(chunk_views(chunks@)));
        assert(concat_rev(chunk_views(chunks@)) =~= orig);
        let c = chunks@.len() as int;
        let sz = size as int;
        if c == 0 {
            assert((n + sz - 1) / sz == 0) by (nonlinear_arith)
                requires
                    n == 0,
                    sz >= 1,
            ;
        } else {
            let last_len = chunk_views(chunks@).last().len() as int;
            assert(n + sz - 1 == c * sz + (last_len - 1)) by (nonlinear_arith)
                requires
                    n == (c - 1) * sz + last_len,
            ;
            lemma_fundamental_div_mod_converse(n + sz - 1, sz, c, last_len - 1);
        }
    }
    chunks
}

/// Joining distributes over concatenation of buffers.
pub proof fn lemma_join_concat(t: TablesV, a: Seq<StreetRecordV>, b: Seq<StreetRecordV>)
    ensures
        join_seq(t, a + b) == join_seq(t, a) + join_seq(t, b),
{
    assert(join_seq(t, a + b) =~= join_seq(t, a) + join_seq(t, b));
}

/// Chunking is sound: joining every chunk separately and laying the
/// results back together yields exactly the join of the whole buffer —
/// nothing duplicated, nothing lost.
pub proof fn lemma_chunked_join(t: TablesV, chunks: Seq<Seq<StreetRecordV>>)
    ensures
        join_seq(t, concat_rev(chunks)) == concat_rev(
            chunks.map_values(|c: Seq<StreetRecordV>| join_seq(t, c)),
        ),
    decreases chunks.len(),
{
    let joined = chunks.map_values(|c: Seq<StreetRecordV>| join_seq(t, c));
    if chunks.len() == 0 {
        assert(join_seq(t, concat_rev(chunks)) =~= concat_rev(joined));
    } else {
        lemma_chunked_join(t, chunks.drop_last());
        lemma_join_concat(t, chunks.last(), concat_rev(chunks.drop_last()));
        assert(joined.drop_last() =~= chunks.drop_last().map_values(
            |c: Seq<StreetRecordV>| join_seq(t, c),
        ));
        assert(joined.last() == join_seq(t, chunks.last()));
        assert(join_seq(t, concat_rev(chunks)) =~= concat_rev(joined));
    }
}

/// Re-running the join over the same immutable tables and buffer yields
/// identical documents: the output is a function of those inputs alone.
pub proof fn lemma_join_rerun(
    t1: TablesV,
    t2: TablesV,
    fs1: Seq<StreetRecordV>,
    fs2: Seq<StreetRecordV>,
)
    requires
        t1 == t2,
        fs1 == fs2,
    ensures
        join_seq(t1, fs1) == join_seq(t2, fs2),
{
}

} // verus!
