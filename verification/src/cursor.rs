use vstd::prelude::*;
use crate::query::{Comparison, Order, PaginatePk};
use vstd::bytes::{
    lemma_auto_spec_u32_to_from_le_bytes, spec_u32_from_le_bytes, spec_u32_to_le_bytes,
};
use vstd::bytes::{u32_from_le_bytes, u32_to_le_bytes};
use vstd::string::StringSliceAdditionalSpecFns;
use vstd::utf8::{decode_utf8, encode_utf8, encode_utf8_decode_utf8, encode_utf8_valid_utf8, valid_utf8};

verus! {

/// What a list pager searches by: a text, a sort key with its direction and
/// the sort value of the last row served, or the parent whose children it
/// lists.
#[derive(Clone, Debug, PartialEq, Eq)]
pub enum SearchDep {
    Text(String),
    Column(i32, bool, String),
    Parent(i32),
}

/// A list pager between two requests.
#[derive(Clone, Debug, PartialEq, Eq)]
pub struct Pager {
    pub sort: SearchDep,
    pub last_pk: Option<i32>,
    pub last_rev: bool,
}

pub enum SearchDepView {
    Text(Seq<char>),
    Column(i32, bool, Seq<char>),
    Parent(i32),
}

pub struct PagerView {
    pub sort: SearchDepView,
    pub last_pk: Option<i32>,
    pub last_rev: bool,
}

impl View for SearchDep {
    type V = SearchDepView;

    open spec fn view(&self) -> SearchDepView {
        match self {
            SearchDep::Text(s) => SearchDepView::Text(s@),
            SearchDep::Column(k, r, s) => SearchDepView::Column(*k, *r, s@),
            SearchDep::Parent(p) => SearchDepView::Parent(*p),
        }
    }
}

impl View for Pager {
    type V = PagerView;

    open spec fn view(&self) -> PagerView {
        PagerView { sort: self.sort@, last_pk: self.last_pk, last_rev: self.last_rev }
    }
}

// ---- encoding ----

pub open spec fn enc_u32(x: u32) -> Seq<u8> {
    spec_u32_to_le_bytes(x)
}

pub open spec fn enc_i32(x: i32) -> Seq<u8> {
    enc_u32(x as u32)
}

pub open spec fn enc_bool(b: bool) -> Seq<u8> {
    seq![if b { 1u8 } else { 0u8 }]
}

/// A text: the length of its UTF-8 bytes, then the bytes.
pub open spec fn enc_text(s: Seq<char>) -> Seq<u8> {
    enc_u32(encode_utf8(s).len() as u32) + encode_utf8(s)
}

pub open spec fn enc_sort(d: SearchDepView) -> Seq<u8> {
    match d {
        SearchDepView::Text(s) => seq![0u8] + enc_text(s),
        SearchDepView::Column(k, r, s) => seq![1u8] + enc_i32(k) + enc_bool(r) + enc_text(s),
        SearchDepView::Parent(p) => seq![2u8] + enc_i32(p),
    }
}

pub open spec fn enc_opt(o: Option<i32>) -> Seq<u8> {
    match o {
        None => seq![0u8],
        Some(x) => seq![1u8] + enc_i32(x),
    }
}

/// The bytes of a pager with the type number of the list it pages.
pub open spec fn spec_encode_pager(type_number: i32, p: PagerView) -> Seq<u8> {
    enc_i32(type_number) + enc_sort(p.sort) + enc_bool(p.last_rev) + enc_opt(p.last_pk)
}

/// A text whose UTF-8 length fits the length field.
pub open spec fn text_fits(s: Seq<char>) -> bool {
    encode_utf8(s).len() <= u32::MAX
}

/// Whether every text in a pager fits the length field.
pub open spec fn pager_fits(p: PagerView) -> bool {
    match p.sort {
        SearchDepView::Text(s) => text_fits(s),
        SearchDepView::Column(_, _, s) => text_fits(s),
        SearchDepView::Parent(_) => true,
    }
}

// ---- decoding ----

pub open spec fn rd_u32(b: Seq<u8>) -> Option<(u32, Seq<u8>)> {
    if b.len() >= 4 {
        Some((spec_u32_from_le_bytes(b.take(4)), b.skip(4)))
    } else {
        None
    }
}

pub open spec fn rd_i32(b: Seq<u8>) -> Option<(i32, Seq<u8>)> {
    match rd_u32(b) {
        Some((v, r)) => Some((v as i32, r)),
        None => None,
    }
}

pub open spec fn rd_bool(b: Seq<u8>) -> Option<(bool, Seq<u8>)> {
    if b.len() >= 1 && b[0] <= 1 {
        Some((b[0] == 1, b.skip(1)))
    } else {
        None
    }
}

pub open spec fn rd_text(b: Seq<u8>) -> Option<(Seq<char>, Seq<u8>)> {
    match rd_u32(b) {
        Some((n, r)) => if r.len() >= n && valid_utf8(r.take(n as int)) {
            Some((decode_utf8(r.take(n as int)), r.skip(n as int)))
        } else {
            None
        },
        None => None,
    }
}

pub open spec fn rd_sort(b: Seq<u8>) -> Option<(SearchDepView, Seq<u8>)> {
    if b.len() >= 1 {
        let r = b.skip(1);
        if b[0] == 0 {
            match rd_text(r) {
                Some((s, r2)) => Some((SearchDepView::Text(s), r2)),
                None => None,
            }
        } else if b[0] == 1 {
            match rd_i32(r) {
                Some((k, r2)) => match rd_bool(r2) {
                    Some((rev, r3)) => match rd_text(r3) {
                        Some((s, r4)) => Some((SearchDepView::Column(k, rev, s), r4)),
                        None => None,
                    },
                    None => None,
                },
                None => None,
            }
        } else if b[0] == 2 {
            match rd_i32(r) {
                Some((p, r2)) => Some((SearchDepView::Parent(p), r2)),
                None => None,
            }
        } else {
            None
        }
    } else {
        None
    }
}

pub open spec fn rd_opt(b: Seq<u8>) -> Option<(Option<i32>, Seq<u8>)> {
    if b.len() >= 1 {
        if b[0] == 0 {
            Some((None, b.skip(1)))
        } else if b[0] == 1 {
            match rd_i32(b.skip(1)) {
                Some((x, r)) => Some((Some(x), r)),
                None => None,
            }
        } else {
            None
        }
    } else {
        None
    }
}

/// The type number and pager that some bytes hold, when they hold exactly
/// one.
pub open spec fn spec_decode_pager(b: Seq<u8>) -> Option<(i32, PagerView)> {
    match rd_i32(b) {
        Some((tn, r1)) => match rd_sort(r1) {
            Some((sort, r2)) => match rd_bool(r2) {
                Some((last_rev, r3)) => match rd_opt(r3) {
                    Some((last_pk, r4)) => if r4.len() == 0 {
                        Some((tn, PagerView { sort, last_pk, last_rev }))
                    } else {
                        None
                    },
                    None => None,
                },
                None => None,
            },
            None => None,
        },
        None => None,
    }
}

// ---- the reads undo the writes ----

proof fn lemma_rd_u32(x: u32, rest: Seq<u8>)
    ensures
        rd_u32(enc_u32(x) + rest) == Some((x, rest)),
{
    lemma_auto_spec_u32_to_from_le_bytes();
    let b = enc_u32(x) + rest;
    assert(b.take(4) == enc_u32(x));
    assert(b.skip(4) == rest);
}

proof fn lemma_rd_i32(x: i32, rest: Seq<u8>)
    ensures
        rd_i32(enc_i32(x) + rest) == Some((x, rest)),
{
    lemma_rd_u32(x as u32, rest);
    assert((x as u32) as i32 == x) by (bit_vector);
}

proof fn lemma_rd_bool(x: bool, rest: Seq<u8>)
    ensures
        rd_bool(enc_bool(x) + rest) == Some((x, rest)),
{
    let b = enc_bool(x) + rest;
    assert(b.skip(1) == rest);
}

proof fn lemma_rd_text(s: Seq<char>, rest: Seq<u8>)
    requires
        text_fits(s),
    ensures
        rd_text(enc_text(s) + rest) == Some((s, rest)),
{
    let bytes = encode_utf8(s);
    let n = bytes.len() as u32;
    assert(enc_text(s) + rest == enc_u32(n) + (bytes + rest));
    lemma_rd_u32(n, bytes + rest);
    let r = bytes + rest;
    assert(r.take(n as int) == bytes);
    assert(r.skip(n as int) == rest);
    encode_utf8_valid_utf8(s);
    encode_utf8_decode_utf8(s);
}

proof fn lemma_rd_sort(d: SearchDepView, rest: Seq<u8>)
    requires
        match d {
            SearchDepView::Text(s) => text_fits(s),
            SearchDepView::Column(_, _, s) => text_fits(s),
            SearchDepView::Parent(_) => true,
        },
    ensures
        rd_sort(enc_sort(d) + rest) == Some((d, rest)),
{
    let b = enc_sort(d) + rest;
    match d {
        SearchDepView::Text(s) => {
            assert(b.skip(1) == enc_text(s) + rest);
            lemma_rd_text(s, rest);
        },
        SearchDepView::Column(k, r, s) => {
            assert(b.skip(1) == enc_i32(k) + (enc_bool(r) + (enc_text(s) + rest)));
            lemma_rd_i32(k, enc_bool(r) + (enc_text(s) + rest));
            lemma_rd_bool(r, enc_text(s) + rest);
            lemma_rd_text(s, rest);
        },
        SearchDepView::Parent(p) => {
            assert(b.skip(1) == enc_i32(p) + rest);
            lemma_rd_i32(p, rest);
        },
    }
}

proof fn lemma_rd_opt(o: Option<i32>, rest: Seq<u8>)
    ensures
        rd_opt(enc_opt(o) + rest) == Some((o, rest)),
{
    let b = enc_opt(o) + rest;
    match o {
        None => {
            assert(b.skip(1) == rest);
        },
        Some(x) => {
            assert(b.skip(1) == enc_i32(x) + rest);
            lemma_rd_i32(x, rest);
        },
    }
}

/// Decoding the bytes of a pager gives back the type number and the pager.
pub proof fn lemma_pager_bytes_round_trip(type_number: i32, p: PagerView)
    requires
        pager_fits(p),
    ensures
        spec_decode_pager(spec_encode_pager(type_number, p)) == Some((type_number, p)),
{
    let e = Seq::<u8>::empty();
    let tail = enc_opt(p.last_pk);
    let b = spec_encode_pager(type_number, p);
    assert(b == enc_i32(type_number) + (enc_sort(p.sort) + (enc_bool(p.last_rev) + (tail + e))));
    lemma_rd_i32(type_number, enc_sort(p.sort) + (enc_bool(p.last_rev) + (tail + e)));
    lemma_rd_sort(p.sort, enc_bool(p.last_rev) + (tail + e));
    lemma_rd_bool(p.last_rev, tail + e);
    lemma_rd_opt(p.last_pk, e);
}

// ---- executable encoding ----

fn push_bytes(out: &mut Vec<u8>, b: &[u8])
    ensures
        final(out)@ == old(out)@ + b@,
{
    let mut i: usize = 0;
    while i < b.len()
        invariant
            i <= b@.len(),
            out@ == old(out)@ + b@.take(i as int),
        decreases b@.len() - i,
    {
        out.push(b[i]);
        i = i + 1;
        assert(b@.take(i as int) == b@.take(i - 1).push(b@[i - 1]));
    }
    assert(b@.take(b@.len() as int) == b@);
}

fn push_u32(out: &mut Vec<u8>, x: u32)
    ensures
        final(out)@ == old(out)@ + enc_u32(x),
{
    let bytes = u32_to_le_bytes(x);
    push_bytes(out, bytes.as_slice());
}

fn push_i32(out: &mut Vec<u8>, x: i32)
    ensures
        final(out)@ == old(out)@ + enc_i32(x),
{
    #[verifier::truncate]
    let u: u32 = x as u32;
    push_u32(out, u);
}

fn push_bool(out: &mut Vec<u8>, b: bool)
    ensures
        final(out)@ == old(out)@ + enc_bool(b),
{
    if b {
        out.push(1);
    } else {
        out.push(0);
    }
}

fn push_text(out: &mut Vec<u8>, s: &String)
    requires
        text_fits(s@),
    ensures
        final(out)@ == old(out)@ + enc_text(s@),
{
    let bytes = s.as_str().as_bytes();
    let n: u32 = bytes.len() as u32;
    push_u32(out, n);
    push_bytes(out, bytes);
    assert(old(out)@ + enc_u32(n) + encode_utf8(s@) == old(out)@ + enc_text(s@));
}

/// The bytes of a pager with the type number of the list it pages.
pub fn encode_pager(type_number: i32, p: &Pager) -> (res: Vec<u8>)
    requires
        pager_fits(p@),
    ensures
        res@ == spec_encode_pager(type_number, p@),
{
    let mut out: Vec<u8> = Vec::new();
    push_i32(&mut out, type_number);
    match &p.sort {
        SearchDep::Text(t) => {
            out.push(0);
            push_text(&mut out, t);
        },
        SearchDep::Column(k, r, t) => {
            out.push(1);
            push_i32(&mut out, *k);
            push_bool(&mut out, *r);
            push_text(&mut out, t);
        },
        SearchDep::Parent(x) => {
            out.push(2);
            push_i32(&mut out, *x);
        },
    }
    push_bool(&mut out, p.last_rev);
    match p.last_pk {
        None => {
            out.push(0);
        },
        Some(x) => {
            out.push(1);
            push_i32(&mut out, x);
        },
    }
    proof {
        let pv = p@;
        assert(out@ == enc_i32(type_number) + enc_sort(pv.sort) + enc_bool(pv.last_rev) + enc_opt(
            pv.last_pk,
        ));
    }
    out
}

// ---- executable decoding ----

/// Calls `std::str::from_utf8` and copies the text out. Claimed, from std's
/// documentation: it succeeds exactly when the bytes are valid UTF-8, and the
/// text it gives has those bytes as its UTF-8 encoding.
#[verifier::external_body]
fn utf8_to_string(bytes: &[u8]) -> (res: Option<String>)
    ensures
        res is Some <==> valid_utf8(bytes@),
        res matches Some(s) ==> encode_utf8(s@) == bytes@,
{
    match std::str::from_utf8(bytes) {
        Ok(s) => Some(s.to_string()),
        Err(_) => None,
    }
}

fn copy_range(b: &[u8], start: usize, len: usize) -> (res: Vec<u8>)
    requires
        start + len <= b@.len(),
    ensures
        res@ == b@.skip(start as int).take(len as int),
{
    let mut v: Vec<u8> = Vec::new();
    let mut i: usize = 0;
    let total: usize = b.len();
    while i < len
        invariant
            i <= len,
            start + len <= b@.len(),
            total == b@.len(),
            v@ == b@.skip(start as int).take(i as int),
        decreases len - i,
    {
        v.push(b[start + i]);
        i = i + 1;
        assert(b@.skip(start as int).take(i as int) == b@.skip(start as int).take(i - 1).push(
            b@[start + i - 1],
        ));
    }
    v
}

fn read_u32(b: &[u8], pos: usize) -> (res: Option<(u32, usize)>)
    requires
        pos <= b@.len(),
    ensures
        match res {
            Some((v, p2)) => p2 <= b@.len() && rd_u32(b@.skip(pos as int)) == Some(
                (v, b@.skip(p2 as int)),
            ),
            None => rd_u32(b@.skip(pos as int)) is None,
        },
{
    if b.len() - pos < 4 {
        return None;
    }
    let v = copy_range(b, pos, 4);
    let x = u32_from_le_bytes(v.as_slice());
    assert(b@.skip(pos as int).skip(4) == b@.skip(pos + 4));
    Some((x, pos + 4))
}

fn read_i32(b: &[u8], pos: usize) -> (res: Option<(i32, usize)>)
    requires
        pos <= b@.len(),
    ensures
        match res {
            Some((v, p2)) => p2 <= b@.len() && rd_i32(b@.skip(pos as int)) == Some(
                (v, b@.skip(p2 as int)),
            ),
            None => rd_i32(b@.skip(pos as int)) is None,
        },
{
    match read_u32(b, pos) {
        Some((x, p2)) => {
            #[verifier::truncate]
            let v: i32 = x as i32;
            Some((v, p2))
        },
        None => None,
    }
}

fn read_bool(b: &[u8], pos: usize) -> (res: Option<(bool, usize)>)
    requires
        pos <= b@.len(),
    ensures
        match res {
            Some((v, p2)) => p2 <= b@.len() && rd_bool(b@.skip(pos as int)) == Some(
                (v, b@.skip(p2 as int)),
            ),
            None => rd_bool(b@.skip(pos as int)) is None,
        },
{
    if pos < b.len() && b[pos] <= 1 {
        assert(b@.skip(pos as int).skip(1) == b@.skip(pos + 1));
        Some((b[pos] == 1, pos + 1))
    } else {
        None
    }
}

fn read_text(b: &[u8], pos: usize) -> (res: Option<(String, usize)>)
    requires
        pos <= b@.len(),
    ensures
        match res {
            Some((v, p2)) => p2 <= b@.len() && rd_text(b@.skip(pos as int)) == Some(
                (v@, b@.skip(p2 as int)),
            ),
            None => rd_text(b@.skip(pos as int)) is None,
        },
{
    let (n, p1) = match read_u32(b, pos) {
        Some(r) => r,
        None => return None,
    };
    let len: usize = n as usize;
    if b.len() - p1 < len {
        return None;
    }
    let chunk = copy_range(b, p1, len);
    match utf8_to_string(chunk.as_slice()) {
        Some(s) => {
            proof {
                encode_utf8_decode_utf8(s@);
                assert(b@.skip(p1 as int).skip(len as int) == b@.skip(p1 + len));
            }
            Some((s, p1 + len))
        },
        None => None,
    }
}

fn read_sort(b: &[u8], pos: usize) -> (res: Option<(SearchDep, usize)>)
    requires
        pos <= b@.len(),
    ensures
        match res {
            Some((v, p2)) => p2 <= b@.len() && rd_sort(b@.skip(pos as int)) == Some(
                (v@, b@.skip(p2 as int)),
            ),
            None => rd_sort(b@.skip(pos as int)) is None,
        },
{
    if pos >= b.len() {
        return None;
    }
    let tag = b[pos];
    let p1 = pos + 1;
    assert(b@.skip(pos as int).skip(1) == b@.skip(p1 as int));
    if tag == 0 {
        match read_text(b, p1) {
            Some((s, p2)) => Some((SearchDep::Text(s), p2)),
            None => None,
        }
    } else if tag == 1 {
        let (k, p2) = match read_i32(b, p1) {
            Some(r) => r,
            None => return None,
        };
        let (r, p3) = match read_bool(b, p2) {
            Some(x) => x,
            None => return None,
        };
        match read_text(b, p3) {
            Some((s, p4)) => Some((SearchDep::Column(k, r, s), p4)),
            None => None,
        }
    } else if tag == 2 {
        match read_i32(b, p1) {
            Some((x, p2)) => Some((SearchDep::Parent(x), p2)),
            None => None,
        }
    } else {
        None
    }
}

fn read_opt(b: &[u8], pos: usize) -> (res: Option<(Option<i32>, usize)>)
    requires
        pos <= b@.len(),
    ensures
        match res {
            Some((v, p2)) => p2 <= b@.len() && rd_opt(b@.skip(pos as int)) == Some(
                (v, b@.skip(p2 as int)),
            ),
            None => rd_opt(b@.skip(pos as int)) is None,
        },
{
    if pos >= b.len() {
        return None;
    }
    let tag = b[pos];
    let p1 = pos + 1;
    assert(b@.skip(pos as int).skip(1) == b@.skip(p1 as int));
    if tag == 0 {
        Some((None, p1))
    } else if tag == 1 {
        match read_i32(b, p1) {
            Some((x, p2)) => Some((Some(x), p2)),
            None => None,
        }
    } else {
        None
    }
}

/// The type number and pager that some bytes hold.
pub fn decode_pager(b: &[u8]) -> (res: Option<(i32, Pager)>)
    ensures
        match spec_decode_pager(b@) {
            Some((tn, pv)) => res matches Some((t2, p2)) && t2 == tn && p2@ == pv,
            None => res is None,
        },
{
    assert(b@.skip(0) == b@);
    let (tn, p1) = match read_i32(b, 0) {
        Some(r) => r,
        None => return None,
    };
    let (sort, p2) = match read_sort(b, p1) {
        Some(r) => r,
        None => return None,
    };
    let (last_rev, p3) = match read_bool(b, p2) {
        Some(r) => r,
        None => return None,
    };
    let (last_pk, p4) = match read_opt(b, p3) {
        Some(r) => r,
        None => return None,
    };
    if p4 != b.len() {
        return None;
    }
    Some((tn, Pager { sort, last_pk, last_rev }))
}

// ---- the text form of a pager ----

/// The unpadded standard Base64 text of some bytes.
pub uninterp spec fn base64_encode(bytes: Seq<u8>) -> Seq<char>;

/// The bytes that an unpadded standard Base64 text stands for, if any.
pub uninterp spec fn base64_decode(text: Seq<char>) -> Option<Seq<u8>>;

/// Calls `Engine::encode` of `base64::engine::general_purpose::STANDARD_NO_PAD`.
/// Claimed: the text depends on the bytes alone, and decoding it with the
/// same engine gives the bytes back (the round trip that the crate's tests
/// and fuzz targets check). What the text is, is not stated.
#[verifier::external_body]
pub(crate) fn b64_encode(bytes: &[u8]) -> (res: String)
    ensures
        res@ == base64_encode(bytes@),
        base64_decode(res@) == Some(bytes@),
{
    base64::Engine::encode(&base64::engine::general_purpose::STANDARD_NO_PAD, bytes)
}

/// Calls `Engine::decode` of `base64::engine::general_purpose::STANDARD_NO_PAD`
/// and keeps the bytes, dropping the error. Claimed: the outcome depends on
/// the text alone. Which texts decode is not stated here; `b64_encode`
/// states that its own texts decode.
#[verifier::external_body]
fn b64_decode(text: &str) -> (res: Option<Vec<u8>>)
    ensures
        res is Some <==> base64_decode(text@) is Some,
        res matches Some(v) ==> base64_decode(text@) == Some(v@),
{
    match base64::Engine::decode(&base64::engine::general_purpose::STANDARD_NO_PAD, text) {
        Ok(v) => Some(v),
        Err(_) => None,
    }
}

/// The cursor text that the client receives for a pager.
pub open spec fn spec_into_raw(type_number: i32, p: PagerView) -> Seq<char> {
    base64_encode(spec_encode_pager(type_number, p))
}

/// Whether a decoded pager is one that this list accepts: its sort key is
/// one the list knows, and it lists by parent only where the list has one.
pub open spec fn sort_accepted(p: PagerView, valid_sort: Seq<i32>, allow_parent: bool) -> bool {
    match p.sort {
        SearchDepView::Column(k, _, _) => valid_sort.contains(k),
        SearchDepView::Parent(_) => allow_parent,
        SearchDepView::Text(_) => true,
    }
}

/// The pager that a cursor text stands for, or why it is refused.
pub open spec fn spec_from_raw(
    text: Seq<char>,
    type_number: i32,
    valid_sort: Seq<i32>,
    allow_parent: bool,
) -> Result<PagerView, crate::error::Error> {
    match base64_decode(text) {
        None => Err(crate::error::Error::PaginationError("Not base64")),
        Some(b) => match spec_decode_pager(b) {
            None => Err(crate::error::Error::PaginationError("Malformated pager")),
            Some((t, p)) => if t != type_number {
                Err(crate::error::Error::PaginationError("Pager type number mismatch"))
            } else if !sort_accepted(p, valid_sort, allow_parent) {
                Err(crate::error::Error::PaginationError("Pager reconstruction failed"))
            } else {
                Ok(p)
            },
        },
    }
}

fn contains_i32(v: &Vec<i32>, x: i32) -> (res: bool)
    ensures
        res == v@.contains(x),
{
    let mut i: usize = 0;
    while i < v.len()
        invariant
            i <= v@.len(),
            forall|j: int| 0 <= j < i ==> v@[j] != x,
        decreases v@.len() - i,
    {
        if v[i] == x {
            assert(v@[i as int] == x);
            return true;
        }
        i = i + 1;
    }
    false
}

impl Pager {
    /// A pager that searches by text.
    pub fn text_search(text: String) -> (res: Pager)
        ensures
            res@ == (PagerView { sort: SearchDepView::Text(text@), last_pk: None, last_rev: false }),
    {
        Pager { sort: SearchDep::Text(text), last_pk: None, last_rev: false }
    }

    /// A pager that orders by a sort key, reversed when `rev`.
    pub fn sort_search(sort: i32, rev: bool) -> (res: Pager)
        ensures
            res@ == (PagerView {
                sort: SearchDepView::Column(sort, rev, Seq::empty()),
                last_pk: None,
                last_rev: false,
            }),
    {
        Pager { sort: SearchDep::Column(sort, rev, String::new()), last_pk: None, last_rev: false }
    }

    /// A pager over the children of a parent.
    pub fn parent_search(ppk: i32) -> (res: Pager)
        ensures
            res@ == (PagerView { sort: SearchDepView::Parent(ppk), last_pk: None, last_rev: false }),
    {
        Pager { sort: SearchDep::Parent(ppk), last_pk: None, last_rev: false }
    }

    /// The cursor text handed to the client. A list that accepts this
    /// pager's sort takes the text back as this same pager. The text is the
    /// Base64 of the pager's plain bytes: it is neither encrypted nor
    /// signed, so a client can read it, and can make up a cursor that
    /// `from_raw` accepts, which checks only its form, its type number and
    /// its sort key.
    pub fn into_raw(self, type_number: i32) -> (res: String)
        requires
            pager_fits(self@),
        ensures
            res@ == spec_into_raw(type_number, self@),
            forall|valid_sort: Seq<i32>, allow_parent: bool|
                sort_accepted(self@, valid_sort, allow_parent) ==> #[trigger] spec_from_raw(
                    res@,
                    type_number,
                    valid_sort,
                    allow_parent,
                ) == Ok::<PagerView, crate::error::Error>(self@),
    {
        let bytes = encode_pager(type_number, &self);
        proof {
            lemma_pager_bytes_round_trip(type_number, self@);
        }
        b64_encode(bytes.as_slice())
    }

    /// The pager that a cursor text stands for, or why it is refused.
    pub fn from_raw(text: &str, type_number: i32, valid_sort: &Vec<i32>, allow_parent: bool) -> (res: Result<Pager, crate::error::Error>)
        ensures
            match spec_from_raw(text@, type_number, valid_sort@, allow_parent) {
                Ok(pv) => res matches Ok(p) && p@ == pv,
                Err(e) => res == Err::<Pager, crate::error::Error>(e),
            },
    {
        let bytes = match b64_decode(text) {
            Some(b) => b,
            None => return Err(crate::error::Error::PaginationError("Not base64")),
        };
        let (t, p) = match decode_pager(bytes.as_slice()) {
            Some(r) => r,
            None => return Err(crate::error::Error::PaginationError("Malformated pager")),
        };
        if t != type_number {
            return Err(crate::error::Error::PaginationError("Pager type number mismatch"));
        }
        let accepted = match &p.sort {
            SearchDep::Column(k, _, _) => contains_i32(valid_sort, *k),
            SearchDep::Parent(_) => allow_parent,
            SearchDep::Text(_) => true,
        };
        if !accepted {
            return Err(crate::error::Error::PaginationError("Pager reconstruction failed"));
        }
        Ok(p)
    }
}

/// What a pager's next page is drawn from.
#[derive(Clone, Debug, PartialEq, Eq)]
pub enum PagerSource {
    /// Rows whose text columns match the text.
    Text(String),
    /// All readable rows, with the sort column of the key.
    Column(i32),
    /// The readable children of the parent, when the caller may read the
    /// parent itself; when it may not, the page holds no rows at all (an
    /// empty page, not an error).
    Parent(i32),
}

/// The query of a pager's next page: the rows of `source`, past `keyset`
/// when it is set, ordered (for a sort, by the sort column and then by key;
/// otherwise by key) descending when `order` is `Some(true)`, ascending when
/// it is `Some(false)`, unordered when it is `None`, `limit` rows after
/// skipping `offset`.
#[derive(Clone, Debug, PartialEq, Eq)]
pub struct PagerPlan {
    pub source: PagerSource,
    pub keyset: Option<PaginatePk>,
    pub order: Option<bool>,
    pub limit: u64,
    pub offset: u64,
}

/// The key bound of a pager's next page, read backward when `rev`: a text
/// or parent search continues past the last key served, keeping it when the
/// direction turned; a sort search has none.
pub open spec fn spec_pager_keyset(p: PagerView, rev: bool) -> Option<PaginatePk> {
    match p.sort {
        SearchDepView::Column(_, _, _) => None,
        _ => match p.last_pk {
            Some(last) => Some(PaginatePk { inclusive: p.last_rev != rev, rev, last_pk: last }),
            None => None,
        },
    }
}

/// A pager after a page with the keys `ids` was served, `last_key` being
/// the sort value of its last row: an empty page changes nothing.
pub open spec fn spec_pager_after(p: PagerView, ids: Seq<i32>, last_key: Seq<char>) -> PagerView {
    if ids.len() == 0 {
        p
    } else {
        PagerView {
            sort: match p.sort {
                SearchDepView::Column(k, r, _) => SearchDepView::Column(k, r, last_key),
                other => other,
            },
            last_pk: Some(ids.last()),
            last_rev: p.last_rev,
        }
    }
}

/// Serving pages never turns a pager's recorded direction: it stays what
/// the pager was made or read back with.
pub proof fn lemma_pager_keeps_direction(p: PagerView, ids: Seq<i32>, last_key: Seq<char>)
    ensures
        spec_pager_after(p, ids, last_key).last_rev == p.last_rev,
{
}

/// A text or parent search that was made fresh and has served a page reads
/// on past its last row: forward, the next page starts strictly after it;
/// backward, it starts at that row itself.
pub proof fn lemma_search_reads_past_last_row(p: PagerView, ids: Seq<i32>, last_key: Seq<char>, rev: bool)
    requires
        !(p.sort is Column),
        !p.last_rev,
        ids.len() > 0,
    ensures
        spec_pager_keyset(spec_pager_after(p, ids, last_key), rev) == Some(
            PaginatePk { inclusive: rev, rev, last_pk: ids.last() },
        ),
{
}

impl Pager {
    /// The query for the next page, read backward when `rev`. A text or
    /// parent search continues past the last key served; a sort adds the
    /// sort's own direction, and once a page has been served its query is
    /// left unordered and unbounded by key.
    pub fn plan(&self, limit: u64, offset: u64, rev: bool) -> (res: PagerPlan)
        ensures
            res.limit == limit,
            res.offset == offset,
            res.keyset == spec_pager_keyset(self@, rev),
            match self.sort {
                SearchDep::Text(t) => {
                    &&& res.source == PagerSource::Text(t)
                    &&& res.order == Some(rev)
                },
                SearchDep::Parent(ppk) => {
                    &&& res.source == PagerSource::Parent(ppk)
                    &&& res.order == Some(rev)
                },
                SearchDep::Column(sort, inner_rev, _) => {
                    &&& res.source == PagerSource::Column(sort)
                    &&& res.order == match self.last_pk {
                        Some(_) => None,
                        None => Some(rev != inner_rev),
                    }
                },
            },
    {
        let keyset = match self.last_pk {
            Some(last) => Some(PaginatePk { inclusive: self.last_rev ^ rev, rev, last_pk: last }),
            None => None,
        };
        match &self.sort {
            SearchDep::Text(t) => PagerPlan {
                source: PagerSource::Text(t.clone()),
                keyset,
                order: Some(rev),
                limit,
                offset,
            },
            SearchDep::Parent(ppk) => PagerPlan {
                source: PagerSource::Parent(*ppk),
                keyset,
                order: Some(rev),
                limit,
                offset,
            },
            SearchDep::Column(sort, inner_rev, _) => {
                let order = match self.last_pk {
                    Some(_) => None,
                    None => Some(rev ^ *inner_rev),
                };
                PagerPlan { source: PagerSource::Column(*sort), keyset: None, order, limit, offset }
            },
        }
    }

    /// Takes in the keys of the rows a page returned, in order, and for a
    /// sort the sort value of the last row. An empty page changes nothing;
    /// otherwise the pager continues after the last row.
    pub fn record(&mut self, ids: &Vec<i32>, last_key: String)
        ensures
            final(self)@ == spec_pager_after(old(self)@, ids@, last_key@),
    {
        if ids.len() == 0 {
            return;
        }
        let last = ids[ids.len() - 1];
        let mut sort = SearchDep::Parent(0);
        std::mem::swap(&mut sort, &mut self.sort);
        self.sort = match sort {
            SearchDep::Column(k, r, _) => SearchDep::Column(k, r, last_key),
            other => other,
        };
        self.last_pk = Some(last);
    }
}


/// The most rows that one page of a list bounded by key may ask for.
pub const PAGE_MAX_SIZE: u64 = 64;

/// Keys kept past the last one served: those with `key op last_pk`.
#[derive(Clone, Copy, Debug, PartialEq, Eq, Structural)]
pub struct KeyBound {
    pub op: Comparison,
    pub last_pk: i32,
}

/// A page of a list bounded by key: rows sorted by key in `order`, past
/// `bound` when there is one, `limit` rows after skipping `offset`.
#[derive(Clone, Copy, Debug, PartialEq, Eq, Structural)]
pub struct KeyBoundPage {
    pub order: Order,
    pub bound: Option<KeyBound>,
    pub limit: u64,
    pub offset: u64,
}

/// A page of a list bounded by key, read backward when `reverse`: a page
/// larger than `PAGE_MAX_SIZE` rows is refused. Read forward, keys come
/// descending and below the last key served; read backward, ascending and
/// above it.
pub fn key_bound_page(limit: u64, offset: u64, reverse: bool, last_pk: Option<i32>) -> (res: Result<KeyBoundPage, crate::error::Error>)
    ensures
        limit > PAGE_MAX_SIZE ==> res == Err::<KeyBoundPage, crate::error::Error>(
            crate::error::Error::NumberTooLarge,
        ),
        limit <= PAGE_MAX_SIZE ==> res == Ok::<KeyBoundPage, crate::error::Error>(
            KeyBoundPage {
                order: if reverse {
                    Order::Asc
                } else {
                    Order::Desc
                },
                bound: match last_pk {
                    Some(x) => Some(
                        KeyBound {
                            op: if reverse {
                                Comparison::Gt
                            } else {
                                Comparison::Lt
                            },
                            last_pk: x,
                        },
                    ),
                    None => None,
                },
                limit,
                offset,
            },
        ),
{
    if limit > PAGE_MAX_SIZE {
        return Err(crate::error::Error::NumberTooLarge);
    }
    let (order, op) = if reverse {
        (Order::Asc, Comparison::Gt)
    } else {
        (Order::Desc, Comparison::Lt)
    };
    let bound = match last_pk {
        Some(x) => Some(KeyBound { op, last_pk: x }),
        None => None,
    };
    Ok(KeyBoundPage { order, bound, limit, offset })
}


/// A page that comes back empty leaves the pager as it was, so the list
/// goes on from the same row; a page with rows moves the pager to its last
/// key. Either way the search itself (its text, sort key and direction, or
/// parent) is kept.
pub proof fn lemma_record_keeps_or_advances(p: PagerView, ids: Seq<i32>, last_key: Seq<char>, rev: bool)
    ensures
        ids.len() == 0 ==> spec_pager_after(p, ids, last_key) == p,
        ids.len() == 0 ==> spec_pager_keyset(spec_pager_after(p, ids, last_key), rev)
            == spec_pager_keyset(p, rev),
        ids.len() > 0 ==> spec_pager_after(p, ids, last_key).last_pk == Some(ids.last()),
        spec_pager_after(p, ids, last_key).last_pk is None ==> p.last_pk is None,
        match (p.sort, spec_pager_after(p, ids, last_key).sort) {
            (SearchDepView::Text(a), SearchDepView::Text(b)) => a == b,
            (SearchDepView::Parent(a), SearchDepView::Parent(b)) => a == b,
            (SearchDepView::Column(k1, r1, _), SearchDepView::Column(k2, r2, _)) => k1 == k2 && r1
                == r2,
            _ => false,
        },
{
}

} // verus!
