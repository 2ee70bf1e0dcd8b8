//! The two pipeline stages in one verified run: a single scan over the raw
//! bytes builds the tables and the street buffer; then the buffer is
//! drained from the tail into fixed-size chunks and each chunk is joined
//! against the now-immutable tables.

use vstd::prelude::*;
use crate::join::{
    chunk_streets, chunk_views, concat_rev, doc_views, join_chunk, join_seq,
};
use crate::records::{OutputDocument, OutputDocumentV, StreetRecordV};
use crate::scan::{line_count, scan, scan_streets, scan_tables, street_views};

verus! {

/// Every buffered street carries the eight-character admin chain that the
/// format promises.
pub open spec fn chains_ok(fs: Seq<StreetRecordV>) -> bool {
    forall|i: int| 0 <= i < fs.len() ==> #[trigger] fs[i].admin_chain.len() == 8
}

proof fn lemma_chains_ok_concat(a: Seq<StreetRecordV>, b: Seq<StreetRecordV>)
    requires
        chains_ok(a + b),
    ensures
        chains_ok(a),
        chains_ok(b),
{
    assert forall|i: int| 0 <= i < a.len() implies #[trigger] a[i].admin_chain.len() == 8 by {
        assert((a + b)[i] == a[i]);
    }
    assert forall|i: int| 0 <= i < b.len() implies #[trigger] b[i].admin_chain.len() == 8 by {
        assert((a + b)[a.len() + i] == b[i]);
    }
}

proof fn lemma_chains_ok_chunks(cs: Seq<Seq<StreetRecordV>>)
    requires
        chains_ok(concat_rev(cs)),
    ensures
        forall|i: int| 0 <= i < cs.len() ==> chains_ok(#[trigger] cs[i]),
    decreases cs.len(),
{
    if cs.len() > 0 {
        lemma_chains_ok_concat(cs.last(), concat_rev(cs.drop_last()));
        lemma_chains_ok_chunks(cs.drop_last());
        assert forall|i: int| 0 <= i < cs.len() implies chains_ok(#[trigger] cs[i]) by {
            if i < cs.len() - 1 {
                assert(cs.drop_last()[i] == cs[i]);
            } else {
                assert(cs[i] == cs.last());
            }
        }
    }
}

pub open spec fn doc_chunk_views(cs: Seq<Vec<OutputDocument>>) -> Seq<Seq<OutputDocumentV>> {
    cs.map_values(|c: Vec<OutputDocument>| doc_views(c@))
}

/// One full run of the core: scan the byte stream, then join the street
/// buffer in tail-first chunks of at most `size` records. Succeeds exactly
/// when every scanned street has the eight-character admin chain the
/// format promises; the chunks' outputs, laid back together, are the join
/// of the whole buffer.
pub fn index_extract(data: &Vec<u8>, size: usize) -> (r: Option<Vec<Vec<OutputDocument>>>)
    requires
        size >= 1,
    ensures
        ({
            let t = scan_tables(data@, line_count(data@));
            let fs = scan_streets(data@, line_count(data@));
            &&& (r is Some <==> chains_ok(fs))
            &&& (r matches Some(out) ==> {
                &&& concat_rev(doc_chunk_views(out@)) == join_seq(t, fs)
                &&& out@.len() == (fs.len() + size - 1) as int / (size as int)
                &&& forall|i: int|
                    0 <= i < out@.len() ==> 1 <= #[trigger] doc_chunk_views(out@)[i].len() <= size
            })
        }),
{
    let ghost t = scan_tables(data@, line_count(data@));
    let ghost fs = scan_streets(data@, line_count(data@));
    let (tables, streets) = scan(data);
    let mut k: usize = 0;
    while k < streets.len()
        invariant
            k <= streets@.len(),
            fs == scan_streets(data@, line_count(data@)),
            street_views(streets@) == fs,
            forall|j: int| 0 <= j < k ==> #[trigger] fs[j].admin_chain.len() == 8,
        decreases streets@.len() - k,
    {
        if streets[k].admin_chain.len() != 8 {
            proof {
                assert(fs[k as int] == streets@[k as int]@);
                assert(!chains_ok(fs)) by {
                    assert(fs[k as int].admin_chain.len() != 8);
                }
            }
            return None;
        }
        proof {
            assert(fs[k as int] == streets@[k as int]@);
        }
        k += 1;
    }
    proof {
        assert(chains_ok(fs));
    }
    let chunks = chunk_streets(streets, size);
    let ghost cvs = chunk_views(chunks@);
    proof {
        lemma_chains_ok_chunks(cvs);
    }
    let mut out: Vec<Vec<OutputDocument>> = Vec::new();
    let mut i: usize = 0;
    while i < chunks.len()
        invariant
            i <= chunks@.len(),
            cvs == chunk_views(chunks@),
            tables@ == t,
            forall|j: int| 0 <= j < cvs.len() ==> chains_ok(#[trigger] cvs[j]),
            out@.len() == i,
            forall|j: int|
                0 <= j < i ==> #[trigger] doc_chunk_views(out@)[j] == join_seq(t, cvs[j]),
        decreases chunks@.len() - i,
    {
        proof {
            assert(chains_ok(cvs[i as int]));
            assert(cvs[i as int] == street_views(chunks@[i as int]@));
            assert forall|x: int|
                0 <= x < chunks@[i as int]@.len() implies #[trigger] chunks@[i as int]@[x].admin_chain@.len()
                == 8 by {
                assert(street_views(chunks@[i as int]@)[x] == chunks@[i as int]@[x]@);
                assert(cvs[i as int][x].admin_chain.len() == 8);
            }
        }
        let ghost out_before = out@;
        let docs = join_chunk(&tables, &chunks[i]);
        out.push(docs);
        proof {
            assert(doc_chunk_views(out@).drop_last() =~= doc_chunk_views(out_before));
            assert forall|j: int|
                0 <= j < i as int + 1 implies #[trigger] doc_chunk_views(out@)[j] == join_seq(
                t,
                cvs[j],
            ) by {
                if j < i as int {
                    assert(doc_chunk_views(out@)[j] == doc_chunk_views(out_before)[j]);
                }
            }
        }
        i += 1;
    }
    proof {
        assert(doc_chunk_views(out@) =~= cvs.map_values(|c: Seq<StreetRecordV>| join_seq(t, c)));
        crate::join::lemma_chunked_join(t, cvs);
        assert(fs.len() == streets@.len());
    }
    Some(out)
}

} // verus!
