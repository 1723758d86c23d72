//! The location record stored in the cache, and its byte encoding.
//!
//! Layout: model id, version id, file id and the number of locations, each as
//! eight little-endian bytes, then each location as its UTF-8 byte length
//! (eight little-endian bytes) followed by those bytes.
use vstd::prelude::*;
use vstd::slice::slice_subrange;
use vstd::utf8::{decode_utf8, encode_utf8, valid_utf8};

verus! {

broadcast use {
    vstd::utf8::encode_utf8_valid_utf8,
    vstd::utf8::encode_utf8_decode_utf8,
    vstd::utf8::decode_utf8_encode_utf8,
};

/// Mathematical form of a location record.
pub struct RecordModel {
    pub model_id: u64,
    pub version_id: u64,
    pub file_id: u64,
    pub locations: Seq<Seq<char>>,
}

/// Known filesystem locations of one content hash, with the catalog ids of
/// the file that first brought it.
#[derive(Debug)]
pub struct LocationRecord {
    pub model_id: u64,
    pub version_id: u64,
    pub file_id: u64,
    pub locations: Vec<String>,
}

impl View for LocationRecord {
    type V = RecordModel;

    open spec fn view(&self) -> RecordModel {
        RecordModel {
            model_id: self.model_id,
            version_id: self.version_id,
            file_id: self.file_id,
            locations: self.locations@.map_values(|s: String| s@),
        }
    }
}

/// Relies on std::str::from_utf8: it accepts exactly the valid UTF-8 byte
/// sequences, and the text it gives holds the characters they encode.
#[verifier::external_body]
fn utf8_text(bytes: &[u8]) -> (r: Option<String>)
    ensures
        r is Some <==> valid_utf8(bytes@),
        r is Some ==> r->Some_0@ == decode_utf8(bytes@),
{
    match std::str::from_utf8(bytes) {
        Ok(s) => Some(s.to_string()),
        Err(_) => None,
    }
}

pub open spec fn u64_le(x: u64) -> Seq<u8> {
    seq![
        x as u8,
        (x >> 8) as u8,
        (x >> 16) as u8,
        (x >> 24) as u8,
        (x >> 32) as u8,
        (x >> 40) as u8,
        (x >> 48) as u8,
        (x >> 56) as u8,
    ]
}

/// The integer held in the first eight bytes, little-endian.
pub open spec fn u64_from_le(b: Seq<u8>) -> u64
    recommends
        b.len() >= 8,
{
    (b[0] as u64) | ((b[1] as u64) << 8) | ((b[2] as u64) << 16) | ((b[3] as u64) << 24) | ((
    b[4] as u64) << 32) | ((b[5] as u64) << 40) | ((b[6] as u64) << 48) | ((b[7] as u64) << 56)
}

pub open spec fn encode_text(s: Seq<char>) -> Seq<u8> {
    u64_le(encode_utf8(s).len() as u64) + encode_utf8(s)
}

pub open spec fn encode_texts(ts: Seq<Seq<char>>) -> Seq<u8>
    decreases ts.len(),
{
    if ts.len() == 0 {
        Seq::empty()
    } else {
        encode_texts(ts.drop_last()) + encode_text(ts.last())
    }
}

pub open spec fn encode_record(r: RecordModel) -> Seq<u8> {
    u64_le(r.model_id) + u64_le(r.version_id) + u64_le(r.file_id) + u64_le(
        r.locations.len() as u64,
    ) + encode_texts(r.locations)
}

/// A record model that an encoding can represent: every length fits in 64 bits.
pub open spec fn encodable(r: RecordModel) -> bool {
    &&& r.locations.len() <= u64::MAX
    &&& forall|i: int| 0 <= i < r.locations.len() ==> encode_utf8(r.locations[i]).len() <= u64::MAX
}

/// Reads `n` length-prefixed texts that take up the whole of `b`.
pub open spec fn parse_texts(b: Seq<u8>, n: nat) -> Option<Seq<Seq<char>>>
    decreases n,
{
    if n == 0 {
        if b.len() == 0 {
            Some(Seq::empty())
        } else {
            None
        }
    } else if b.len() < 8 {
        None
    } else {
        let len = u64_from_le(b) as int;
        if b.len() - 8 < len {
            None
        } else if !valid_utf8(b.subrange(8, 8 + len)) {
            None
        } else {
            match parse_texts(b.skip(8 + len), (n - 1) as nat) {
                Some(rest) => Some(seq![decode_utf8(b.subrange(8, 8 + len))] + rest),
                None => None,
            }
        }
    }
}

/// The record that a byte sequence encodes, if it encodes one.
pub open spec fn parse_record(b: Seq<u8>) -> Option<RecordModel> {
    if b.len() < 32 {
        None
    } else {
        match parse_texts(b.skip(32), u64_from_le(b.skip(24)) as nat) {
            Some(locations) => Some(
                RecordModel {
                    model_id: u64_from_le(b),
                    version_id: u64_from_le(b.skip(8)),
                    file_id: u64_from_le(b.skip(16)),
                    locations,
                },
            ),
            None => None,
        }
    }
}

proof fn lemma_u64_le_round_trip(x: u64)
    ensures
        u64_from_le(u64_le(x)) == x,
{
    let b = u64_le(x);
    assert(((x as u8) as u64) | ((((x >> 8) as u8) as u64) << 8) | ((((x >> 16) as u8) as u64)
        << 16) | ((((x >> 24) as u8) as u64) << 24) | ((((x >> 32) as u8) as u64) << 32) | ((((x
        >> 40) as u8) as u64) << 40) | ((((x >> 48) as u8) as u64) << 48) | ((((x >> 56) as u8)
        as u64) << 56) == x) by (bit_vector);
}

proof fn lemma_encode_texts_front(ts: Seq<Seq<char>>)
    requires
        ts.len() > 0,
    ensures
        encode_texts(ts) == encode_text(ts[0]) + encode_texts(ts.drop_first()),
    decreases ts.len(),
{
    if ts.len() == 1 {
        assert(ts.drop_last().len() == 0);
        assert(ts.drop_first().len() == 0);
        assert(ts.last() == ts[0]);
        assert(encode_texts(ts.drop_last()) == Seq::<u8>::empty());
        assert(encode_texts(ts.drop_first()) == Seq::<u8>::empty());
        assert(encode_texts(ts) =~= encode_text(ts[0]) + encode_texts(ts.drop_first()));
    } else {
        lemma_encode_texts_front(ts.drop_last());
        assert(ts.drop_last()[0] == ts[0]);
        assert(ts.drop_last().drop_first() == ts.drop_first().drop_last());
        assert(ts.drop_first().last() == ts.last());
        let a = encode_text(ts[0]);
        let m = encode_texts(ts.drop_first().drop_last());
        let z = encode_text(ts.last());
        assert(encode_texts(ts) == encode_texts(ts.drop_last()) + z);
        assert(encode_texts(ts.drop_last()) == a + m);
        assert(encode_texts(ts.drop_first()) == m + z);
        assert(a + m + z =~= a + (m + z));
    }
}

proof fn lemma_parse_texts_round_trip(ts: Seq<Seq<char>>)
    requires
        forall|i: int| 0 <= i < ts.len() ==> encode_utf8(ts[i]).len() <= u64::MAX,
    ensures
        parse_texts(encode_texts(ts), ts.len()) == Some(ts),
    decreases ts.len(),
{
    if ts.len() == 0 {
    } else {
        lemma_encode_texts_front(ts);
        let e = encode_utf8(ts[0]);
        let b = encode_texts(ts);
        let rest = encode_texts(ts.drop_first());
        lemma_u64_le_round_trip(e.len() as u64);
        assert(b.subrange(0, 8) == u64_le(e.len() as u64));
        assert(u64_from_le(b) == u64_from_le(u64_le(e.len() as u64)));
        assert(b.subrange(8, 8 + e.len() as int) == e);
        assert(b.skip(8 + e.len() as int) == rest);
        assert forall|i: int| 0 <= i < ts.drop_first().len() implies encode_utf8(
            ts.drop_first()[i],
        ).len() <= u64::MAX by {
            assert(ts.drop_first()[i] == ts[i + 1]);
        }
        lemma_parse_texts_round_trip(ts.drop_first());
        assert(seq![ts[0]] + ts.drop_first() == ts);
    }
}

/// Decoding the encoding of a record gives the record back.
pub proof fn record_encoding_round_trip(r: RecordModel)
    requires
        encodable(r),
    ensures
        parse_record(encode_record(r)) == Some(r),
{
    let b = encode_record(r);
    lemma_u64_le_round_trip(r.model_id);
    lemma_u64_le_round_trip(r.version_id);
    lemma_u64_le_round_trip(r.file_id);
    lemma_u64_le_round_trip(r.locations.len() as u64);
    assert(b.subrange(0, 8) == u64_le(r.model_id));
    assert(b.skip(8).subrange(0, 8) == u64_le(r.version_id));
    assert(b.skip(16).subrange(0, 8) == u64_le(r.file_id));
    assert(b.skip(24).subrange(0, 8) == u64_le(r.locations.len() as u64));
    assert(u64_from_le(b) == u64_from_le(u64_le(r.model_id)));
    assert(u64_from_le(b.skip(8)) == u64_from_le(u64_le(r.version_id)));
    assert(u64_from_le(b.skip(16)) == u64_from_le(u64_le(r.file_id)));
    assert(u64_from_le(b.skip(24)) == u64_from_le(u64_le(r.locations.len() as u64)));
    assert(b.skip(32) == encode_texts(r.locations));
    lemma_parse_texts_round_trip(r.locations);
}

fn push_u64_le(out: &mut Vec<u8>, x: u64)
    ensures
        final(out)@ == old(out)@ + u64_le(x),
{
    out.push(x as u8);
    out.push((x >> 8) as u8);
    out.push((x >> 16) as u8);
    out.push((x >> 24) as u8);
    out.push((x >> 32) as u8);
    out.push((x >> 40) as u8);
    out.push((x >> 48) as u8);
    out.push((x >> 56) as u8);
    assert(final(out)@ =~= old(out)@ + u64_le(x));
}

fn read_u64_le(b: &[u8], pos: usize) -> (r: u64)
    requires
        pos + 8 <= b@.len(),
    ensures
        r == u64_from_le(b@.skip(pos as int)),
{
    (b[pos] as u64) | ((b[pos + 1] as u64) << 8) | ((b[pos + 2] as u64) << 16) | ((b[pos
        + 3] as u64) << 24) | ((b[pos + 4] as u64) << 32) | ((b[pos + 5] as u64) << 40) | ((b[pos
        + 6] as u64) << 48) | ((b[pos + 7] as u64) << 56)
}

impl LocationRecord {
    /// The byte encoding of this record.
    pub fn to_bytes(&self) -> (r: Vec<u8>)
        ensures
            r@ == encode_record(self@),
            encodable(self@),
    {
        let mut out: Vec<u8> = Vec::new();
        push_u64_le(&mut out, self.model_id);
        push_u64_le(&mut out, self.version_id);
        push_u64_le(&mut out, self.file_id);
        push_u64_le(&mut out, self.locations.len() as u64);
        let ghost header = out@;
        let ghost locs = self@.locations;
        let mut i: usize = 0;
        while i < self.locations.len()
            invariant
                i <= self.locations.len(),
                locs == self@.locations,
                out@ == header + encode_texts(locs.take(i as int)),
                forall|j: int| 0 <= j < i ==> encode_utf8(locs[j]).len() <= u64::MAX,
            decreases self.locations.len() - i,
        {
            let bytes = self.locations[i].as_str().as_bytes();
            assert(bytes@ == encode_utf8(locs[i as int]));
            push_u64_le(&mut out, bytes.len() as u64);
            out.extend_from_slice(bytes);
            assert(locs.take(i + 1).drop_last() == locs.take(i as int));
            assert(locs.take(i + 1).last() == locs[i as int]);
            assert(out@ =~= header + encode_texts(locs.take(i + 1)));
            i = i + 1;
        }
        assert(locs.take(i as int) == locs);
        out
    }

    /// The record that `bytes` encode, or `None` where they encode none.
    pub fn from_bytes(bytes: &[u8]) -> (r: Option<LocationRecord>)
        ensures
            match parse_record(bytes@) {
                Some(m) => r is Some && r->Some_0@ == m,
                None => r is None,
            },
    {
        if bytes.len() < 32 {
            return None;
        }
        let model_id = read_u64_le(bytes, 0);
        let version_id = read_u64_le(bytes, 8);
        let file_id = read_u64_le(bytes, 16);
        let count = read_u64_le(bytes, 24);
        assert(bytes@.skip(0) == bytes@);
        let ghost all = bytes@.skip(32);
        assert(count as nat == u64_from_le(bytes@.skip(24)) as nat);
        let ghost whole = match parse_texts(all, count as nat) {
            Some(l) => Some(RecordModel { model_id, version_id, file_id, locations: l }),
            None => None,
        };
        assert(parse_record(bytes@) == whole);
        let mut locations: Vec<String> = Vec::new();
        let mut pos: usize = 32;
        let mut i: u64 = 0;
        while i < count
            invariant
                32 <= pos <= bytes@.len(),
                i <= count,
                all == bytes@.skip(32),
                parse_record(bytes@) == whole,
                whole == match parse_texts(all, count as nat) {
                    Some(l) => Some(RecordModel { model_id, version_id, file_id, locations: l }),
                    None => None,
                },
                parse_texts(all, count as nat) == match parse_texts(
                    bytes@.skip(pos as int),
                    (count - i) as nat,
                ) {
                    Some(rest) => Some(locations@.map_values(|s: String| s@) + rest),
                    None => None,
                },
            decreases count - i,
        {
            let ghost cur = bytes@.skip(pos as int);
            let ghost done = locations@.map_values(|s: String| s@);
            assert(cur.len() == bytes.len() - pos);
            assert((count - i) as nat != 0);
            if bytes.len() - pos < 8 {
                assert(parse_texts(cur, (count - i) as nat) is None);
                return None;
            }
            let len = read_u64_le(bytes, pos);
            if ((bytes.len() - pos - 8) as u64) < len {
                assert(parse_texts(cur, (count - i) as nat) is None);
                return None;
            }
            let start = pos + 8;
            let end = start + len as usize;
            let body = slice_subrange(bytes, start, end);
            assert(body@ == cur.subrange(8, 8 + len as int));
            let text = utf8_text(body);
            match text {
                None => {
                    assert(parse_texts(cur, (count - i) as nat) is None);
                    return None;
                },
                Some(t) => {
                    assert(cur.skip(8 + len as int) == bytes@.skip(end as int));
                    locations.push(t);
                    pos = end;
                    i = i + 1;
                    proof {
                        let now = locations@.map_values(|s: String| s@);
                        assert(now == done.push(decode_utf8(body@)));
                        match parse_texts(bytes@.skip(pos as int), (count - i) as nat) {
                            Some(rest) => {
                                assert(now + rest =~= done + (seq![decode_utf8(body@)] + rest));
                            },
                            None => {},
                        }
                    }
                },
            }
        }
        if pos != bytes.len() {
            return None;
        }
        assert(locations@.map_values(|s: String| s@) + Seq::<Seq<char>>::empty()
            =~= locations@.map_values(|s: String| s@));
        Some(LocationRecord { model_id, version_id, file_id, locations })
    }
}

} // verus!
