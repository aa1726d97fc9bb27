//! Stable identity of one prompt delivery, so that a restarted worker
//! recognizes a request it has already posted.

use sha2::{Digest, Sha256};
use vstd::prelude::*;
use vstd::utf8::encode_utf8;

use crate::text::{all_digits, is_digit, lacks, lemma_decimal_digits};
use crate::text_lines::{lemma_pos_of_concat, pos_of};

use crate::text::{chars_of, push_all, push_decimal, decimal, string_of};

verus! {

/// Domain under which prompt deliveries are recorded.
pub const SERVER_REQUEST_PROMPT_DOMAIN: &'static str = "server-request/prompt/v1";

/// Context bytes that open every identity digest.
pub const SEMANTIC_CONTEXT: &'static str = "cdr-runtime/server-request-prompt/v2";

/// SHA-256 of `data`.
pub uninterp spec fn sha256_of(data: Seq<u8>) -> Seq<u8>;

/// SHA-256 of `data`, through the `sha2` crate.
///
/// Claims that the digest is 32 bytes and is the same for the same bytes,
/// as `Sha256::digest` documents; what the bytes are is not stated.
#[verifier::external_body]
pub(crate) fn sha256(data: &[u8]) -> (r: Vec<u8>)
    ensures
        r@ == sha256_of(data@),
        r@.len() == 32,
{
    Sha256::digest(data).to_vec()
}

/// The lowercase hexadecimal digit for `v`.
pub open spec fn hex_digit(v: u8) -> char {
    if v < 10 {
        ('0' as u8 + v) as char
    } else {
        ('a' as u8 + (v - 10)) as char
    }
}

/// The lowercase hexadecimal text of `bytes`, two digits per byte, high
/// nibble first.
pub open spec fn hex_lower(bytes: Seq<u8>) -> Seq<char>
    decreases bytes.len(),
{
    if bytes.len() == 0 {
        seq![]
    } else {
        hex_lower(bytes.drop_last()) + seq![hex_digit(bytes.last() / 16), hex_digit(bytes.last() % 16)]
    }
}

/// Two hexadecimal digits stand for each byte.
pub proof fn lemma_hex_len(bytes: Seq<u8>)
    ensures
        hex_lower(bytes).len() == 2 * bytes.len(),
    decreases bytes.len(),
{
    if bytes.len() > 0 {
        lemma_hex_len(bytes.drop_last());
    }
}

/// `hex::encode`: lowercase hexadecimal text of `data`.
///
/// Claims what the crate's source shows: each byte becomes its high and
/// then its low nibble, from the table `0123456789abcdef`.
#[verifier::external_body]
pub(crate) fn hex_encode(data: &[u8]) -> (r: String)
    ensures
        r@ == hex_lower(data@),
{
    hex::encode(data)
}

/// The eight big-endian bytes of `n`.
pub open spec fn be_bytes(n: u64) -> Seq<u8> {
    seq![
        (n / 0x100000000000000) as u8,
        ((n / 0x1000000000000) % 256) as u8,
        ((n / 0x10000000000) % 256) as u8,
        ((n / 0x100000000) % 256) as u8,
        ((n / 0x1000000) % 256) as u8,
        ((n / 0x10000) % 256) as u8,
        ((n / 0x100) % 256) as u8,
        (n % 256) as u8,
    ]
}

/// `value` preceded by its length as eight big-endian bytes.
pub open spec fn length_prefixed(value: Seq<u8>) -> Seq<u8> {
    be_bytes(value.len() as u64) + value
}

/// What a prompt's delivery identity is derived from. The request id and
/// components are given as the JSON the app-server and Discord exchange.
pub struct PromptIdentityMaterial {
    pub generation: u64,
    pub occurrence: Vec<u8>,
    pub request_id_json: String,
    pub method: String,
    pub thread_id: String,
    pub text: String,
    pub components_json: Vec<u8>,
}

/// The bytes that are digested for `m`.
pub open spec fn identity_bytes(m: PromptIdentityMaterial) -> Seq<u8> {
    encode_utf8(SEMANTIC_CONTEXT@) + length_prefixed(m.occurrence@) + length_prefixed(
        encode_utf8(m.request_id_json@),
    ) + length_prefixed(encode_utf8(m.method@)) + length_prefixed(encode_utf8(m.thread_id@))
        + length_prefixed(encode_utf8(m.text@)) + length_prefixed(m.components_json@)
}

/// A logical key: generation, request id and digest text, joined by `:`.
pub open spec fn key_text(generation: u64, request_id: Seq<char>, digest_hex: Seq<char>) -> Seq<char> {
    decimal(generation as nat) + seq![':'] + request_id + seq![':'] + digest_hex
}

/// The digest text of `m`: the SHA-256 of its bytes in lowercase hex.
pub open spec fn digest_text(m: PromptIdentityMaterial) -> Seq<char> {
    hex_lower(sha256_of(identity_bytes(m)))
}

/// The logical key of `m`.
pub open spec fn logical_key_of(m: PromptIdentityMaterial) -> Seq<char> {
    key_text(m.generation, m.request_id_json@, digest_text(m))
}

/// A lowercase hexadecimal digit.
pub open spec fn is_lower_hex(c: char) -> bool {
    ('0' <= c && c <= '9') || ('a' <= c && c <= 'f')
}

/// Every character of a lowercase hex text is a lowercase hex digit.
pub proof fn lemma_hex_digits(bytes: Seq<u8>)
    ensures
        forall|i: int| 0 <= i < hex_lower(bytes).len() ==> is_lower_hex(#[trigger] hex_lower(bytes)[i]),
    decreases bytes.len(),
{
    if bytes.len() > 0 {
        lemma_hex_digits(bytes.drop_last());
        let hi = bytes.last() / 16;
        let lo = bytes.last() % 16;
        assert(is_lower_hex(hex_digit(hi)));
        assert(is_lower_hex(hex_digit(lo)));
        let prev = hex_lower(bytes.drop_last());
        assert forall|i: int| 0 <= i < hex_lower(bytes).len() implies is_lower_hex(#[trigger] hex_lower(bytes)[i]) by {
            if i < prev.len() {
                assert(hex_lower(bytes)[i] == prev[i]);
            }
        }
    }
}

/// The identity of one prompt delivery.
#[derive(Debug, Clone, PartialEq, Eq)]
pub struct PromptDeliveryIdentity {
    generation: u64,
    logical_key: String,
}

/// How one chunk of a prompt is delivered.
#[derive(Debug, Clone, PartialEq, Eq)]
pub struct PromptChunkDelivery {
    pub domain: &'static str,
    pub logical_key: String,
    pub chunk_index: usize,
    /// Only the last chunk carries the buttons.
    pub attach_components: bool,
}

fn push_bytes(out: &mut Vec<u8>, data: &[u8])
    ensures
        final(out)@ == old(out)@ + data@,
{
    let mut i: usize = 0;
    while i < data.len()
        invariant
            i <= data.len(),
            out@ == old(out)@ + data@.subrange(0, i as int),
        decreases data.len() - i,
    {
        out.push(data[i]);
        i = i + 1;
        assert(out@ =~= old(out)@ + data@.subrange(0, i as int));
    }
    assert(data@.subrange(0, data.len() as int) =~= data@);
}

fn push_length_prefixed(out: &mut Vec<u8>, value: &[u8])
    ensures
        final(out)@ == old(out)@ + length_prefixed(value@),
{
    let n: u64 = value.len() as u64;
    let prefix: [u8; 8] = [
        (n / 0x100000000000000) as u8,
        ((n / 0x1000000000000) % 256) as u8,
        ((n / 0x10000000000) % 256) as u8,
        ((n / 0x100000000) % 256) as u8,
        ((n / 0x1000000) % 256) as u8,
        ((n / 0x10000) % 256) as u8,
        ((n / 0x100) % 256) as u8,
        (n % 256) as u8,
    ];
    push_bytes(out, &prefix);
    assert(prefix@ =~= be_bytes(n));
    push_bytes(out, value);
    assert(final(out)@ =~= old(out)@ + length_prefixed(value@));
}

impl PromptDeliveryIdentity {
    /// Derives the identity of a prompt delivery from its material.
    pub fn new(material: &PromptIdentityMaterial) -> (r: Self)
        ensures
            r@ == (material.generation, logical_key_of(*material)),
            digest_text(*material).len() == 64,
            forall|i: int| 0 <= i < 64 ==> is_lower_hex(#[trigger] digest_text(*material)[i]),
    {
        let mut data: Vec<u8> = Vec::new();
        push_bytes(&mut data, SEMANTIC_CONTEXT.as_bytes());
        push_length_prefixed(&mut data, material.occurrence.as_slice());
        push_length_prefixed(&mut data, material.request_id_json.as_str().as_bytes());
        push_length_prefixed(&mut data, material.method.as_str().as_bytes());
        push_length_prefixed(&mut data, material.thread_id.as_str().as_bytes());
        push_length_prefixed(&mut data, material.text.as_str().as_bytes());
        push_length_prefixed(&mut data, material.components_json.as_slice());
        assert(data@ =~= identity_bytes(*material));
        let digest = sha256(&data);
        let hex = hex_encode(&digest);
        proof {
            lemma_hex_len(digest@);
            lemma_hex_digits(digest@);
        }
        let mut key: Vec<char> = Vec::new();
        push_decimal(&mut key, material.generation as u128);
        key.push(':');
        push_all(&mut key, &chars_of(material.request_id_json.as_str()));
        key.push(':');
        push_all(&mut key, &chars_of(hex.as_str()));
        assert(key@ =~= logical_key_of(*material));
        PromptDeliveryIdentity { generation: material.generation, logical_key: string_of(&key) }
    }

    /// The key under which the delivery is recorded.
    pub fn logical_key(&self) -> (r: &str)
        ensures
            r@ == self@.1,
    {
        self.logical_key.as_str()
    }

    /// The app-server generation of the request.
    pub fn generation(&self) -> (r: u64)
        ensures
            r == self@.0,
    {
        self.generation
    }

    /// How chunk `chunk_index` of `total_chunks` is delivered.
    pub fn chunk(&self, chunk_index: usize, total_chunks: usize) -> (r: PromptChunkDelivery)
        ensures
            r.domain@ == SERVER_REQUEST_PROMPT_DOMAIN@,
            r.logical_key@ == self@.1,
            r.chunk_index == chunk_index,
            r.attach_components == (chunk_index + 1 == total_chunks),
    {
        PromptChunkDelivery {
            domain: SERVER_REQUEST_PROMPT_DOMAIN,
            logical_key: self.logical_key.clone(),
            chunk_index,
            attach_components: chunk_index < usize::MAX && chunk_index + 1 == total_chunks,
        }
    }
}

impl View for PromptDeliveryIdentity {
    type V = (u64, Seq<char>);

    closed spec fn view(&self) -> (u64, Seq<char>) {
        (self.generation, self.logical_key@)
    }
}

/// How chunk `chunk_index` of `total_chunks` of the prompt for `material`
/// is delivered.
pub fn prompt_chunk_delivery(material: &PromptIdentityMaterial, chunk_index: usize, total_chunks: usize) -> (r: PromptChunkDelivery)
    ensures
        r.domain@ == SERVER_REQUEST_PROMPT_DOMAIN@,
        r.logical_key@ == logical_key_of(*material),
        r.chunk_index == chunk_index,
        r.attach_components == (chunk_index + 1 == total_chunks),
        digest_text(*material).len() == 64,
        forall|i: int| 0 <= i < 64 ==> is_lower_hex(#[trigger] digest_text(*material)[i]),
{
    PromptDeliveryIdentity::new(material).chunk(chunk_index, total_chunks)
}

/// Two deliveries of the same material share one logical key, so a
/// restarted worker finds the receipt of the first.
pub proof fn law_identity_is_deterministic(a: PromptIdentityMaterial, b: PromptIdentityMaterial)
    requires
        a.generation == b.generation,
        a.occurrence@ == b.occurrence@,
        a.request_id_json@ == b.request_id_json@,
        a.method@ == b.method@,
        a.thread_id@ == b.thread_id@,
        a.text@ == b.text@,
        a.components_json@ == b.components_json@,
    ensures
        logical_key_of(a) == logical_key_of(b),
{
    assert(identity_bytes(a) == identity_bytes(b));
}

proof fn lemma_digit_prefix(d: Seq<char>, r: Seq<char>)
    requires
        all_digits(d),
        r.len() > 0,
        r[0] == ':',
    ensures
        (d + r).subrange(0, pos_of(d + r, ':') as int) == d,
{
    assert(lacks(d, ':')) by {
        assert forall|j: int| 0 <= j < d.len() implies d[j] != ':' by {
            assert(is_digit(d[j]));
        }
    }
    lemma_pos_of_concat(d, r, ':');
    assert(pos_of(r, ':') == 0);
    assert((d + r).subrange(0, d.len() as int) =~= d);
}

proof fn lemma_decimal_injective(a: nat, b: nat)
    requires
        decimal(a) == decimal(b),
    ensures
        a == b,
{
    lemma_decimal_digits(a);
    lemma_decimal_digits(b);
}

proof fn lemma_keys_differ(da: Seq<char>, db: Seq<char>, xa: Seq<char>, xb: Seq<char>)
    requires
        all_digits(da),
        all_digits(db),
        da != db,
    ensures
        da + (seq![':'] + xa) != db + (seq![':'] + xb),
{
    lemma_digit_prefix(da, seq![':'] + xa);
    lemma_digit_prefix(db, seq![':'] + xb);
}

proof fn lemma_key_text_separates(g1: u64, g2: u64, r1: Seq<char>, r2: Seq<char>, h1: Seq<char>, h2: Seq<char>)
    requires
        g1 != g2,
    ensures
        key_text(g1, r1, h1) != key_text(g2, r2, h2),
{
    let da = decimal(g1 as nat);
    let db = decimal(g2 as nat);
    let xa = r1 + seq![':'] + h1;
    let xb = r2 + seq![':'] + h2;
    assert(key_text(g1, r1, h1) =~= da + (seq![':'] + xa));
    assert(key_text(g2, r2, h2) =~= db + (seq![':'] + xb));
    lemma_decimal_digits(g1 as nat);
    lemma_decimal_digits(g2 as nat);
    if da == db {
        lemma_decimal_injective(g1 as nat, g2 as nat);
    }
    lemma_keys_differ(da, db, xa, xb);
}

/// Deliveries in different app-server generations never share a key.
pub proof fn law_generation_separates_keys(a: PromptIdentityMaterial, b: PromptIdentityMaterial)
    requires
        a.generation != b.generation,
    ensures
        logical_key_of(a) != logical_key_of(b),
{
    lemma_key_text_separates(
        a.generation,
        b.generation,
        a.request_id_json@,
        b.request_id_json@,
        hex_lower(sha256_of(identity_bytes(a))),
        hex_lower(sha256_of(identity_bytes(b))),
    );
}

} // verus!
