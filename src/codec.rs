use vstd::prelude::*;

use crate::error::{other_io_error, Error};

verus! {

/// The `n` low-order bytes of `v`, least significant first.
pub open spec fn le_bytes(v: nat, n: nat) -> Seq<u8>
    decreases n,
{
    if n == 0 {
        Seq::empty()
    } else {
        seq![(v % 256) as u8] + le_bytes(v / 256, (n - 1) as nat)
    }
}

/// The number whose bytes, least significant first, are `s`.
pub open spec fn le_value(s: Seq<u8>) -> nat
    decreases s.len(),
{
    if s.len() == 0 {
        0
    } else {
        s[0] as nat + 256 * le_value(s.drop_first())
    }
}

/// One more than the largest number that `n` bytes hold.
pub open spec fn le_bound(n: nat) -> nat
    decreases n,
{
    if n == 0 {
        1
    } else {
        256 * le_bound((n - 1) as nat)
    }
}

/// The bit pattern of `v` in two's complement, as an unsigned number.
pub open spec fn i32_bits(v: i32) -> nat {
    if v < 0 {
        (v + 0x1_0000_0000) as nat
    } else {
        v as nat
    }
}

/// The wire form of an `i32`: four bytes, little-endian.
pub open spec fn i32_bytes(v: i32) -> Seq<u8> {
    le_bytes(i32_bits(v), 4)
}

/// The `i32` whose wire form starts `s` (which holds at least four bytes).
pub open spec fn i32_of(s: Seq<u8>) -> i32 {
    let u = le_value(s.take(4));
    if u >= 0x8000_0000 {
        (u - 0x1_0000_0000) as i32
    } else {
        u as i32
    }
}

/// The wire form of a `u64`: eight bytes, little-endian.
pub open spec fn u64_bytes(v: u64) -> Seq<u8> {
    le_bytes(v as nat, 8)
}

/// The `u64` whose wire form starts `s` (which holds at least eight bytes).
pub open spec fn u64_of(s: Seq<u8>) -> u64 {
    le_value(s.take(8)) as u64
}

/// The wire form of a `bool`: one byte, 1 for true and 0 for false.
pub open spec fn bool_bytes(v: bool) -> Seq<u8> {
    seq![if v { 1u8 } else { 0u8 }]
}

/// The `bool` whose wire form starts `s`, if its first byte is 0 or 1.
pub open spec fn bool_of(s: Seq<u8>) -> Option<bool> {
    if s.len() >= 1 && s[0] <= 1 {
        Some(s[0] == 1)
    } else {
        None
    }
}

/// `le_bytes(v, n)` holds `n` bytes.
pub proof fn lemma_le_bytes_len(v: nat, n: nat)
    ensures
        le_bytes(v, n).len() == n,
    decreases n,
{
    if n > 0 {
        lemma_le_bytes_len(v / 256, (n - 1) as nat);
    }
}

/// Reading back the `n` low-order bytes of a number that fits in `n` bytes
/// gives the number.
pub proof fn lemma_le_value_bytes(v: nat, n: nat)
    requires
        v < le_bound(n),
    ensures
        le_value(le_bytes(v, n)) == v,
    decreases n,
{
    if n > 0 {
        let b = le_bound((n - 1) as nat);
        assert(v / 256 < b) by (nonlinear_arith)
            requires
                v < 256 * b,
        ;
        lemma_le_value_bytes(v / 256, (n - 1) as nat);
        let s = le_bytes(v, n);
        assert(s.drop_first() =~= le_bytes(v / 256, (n - 1) as nat));
        assert(v == v % 256 + 256 * (v / 256)) by (nonlinear_arith);
    }
}

/// A capability that turns one frame's bytes into a value of type `T`.
pub trait Decoder<T>: Sized {
    /// The value that `bytes` decode to, or `None` where they do not hold one.
    spec fn decoded(bytes: Seq<u8>) -> Option<T>;

    fn decode(&mut self, src: &[u8]) -> (r: Result<T, Error>)
        ensures
            match Self::decoded(src@) {
                Some(v) => r == Ok::<T, Error>(v),
                None => r matches Err(Error::Serde(_)),
            },
    ;
}

/// A capability that turns a value of type `T` into the bytes of one frame.
pub trait Encoder<T>: Sized {
    /// The bytes that `v` encodes to, or `None` where it cannot be encoded.
    spec fn encoded(v: T) -> Option<Seq<u8>>;

    fn encode(&mut self, item: &T) -> (r: Result<Vec<u8>, std::io::Error>)
        ensures
            match Self::encoded(*item) {
                Some(b) => r is Ok && r->Ok_0@ == b,
                None => r is Err,
            },
    ;
}

/// Decoding what was encoded gives the value back.
pub open spec fn round_trips<C: Encoder<T> + Decoder<T>, T>(v: T) -> bool {
    match C::encoded(v) {
        Some(b) => C::decoded(b) == Some(v),
        None => true,
    }
}

/// A wire format for values of type `T`, under which decoding what was
/// encoded gives the value back.
pub trait Format<T>: Encoder<T> + Decoder<T> {
    proof fn lemma_round_trip(v: T)
        ensures
            round_trips::<Self, T>(v),
    ;
}

/// The bincode format, for values of type `T`; it holds no state.
pub struct Bincode<T> {
    marker: std::marker::PhantomData<T>,
}

impl<T> Bincode<T> {
    pub fn new() -> (r: Self) {
        Bincode { marker: std::marker::PhantomData }
    }
}

/// Relies on bincode::deserialize_from: an `i32` is read as four
/// little-endian bytes; fewer bytes give an error, later bytes are not read.
#[verifier::external_body]
fn deserialize_i32(src: &[u8]) -> (r: Result<i32, bincode::Error>)
    ensures
        r is Ok <==> src@.len() >= 4,
        r is Ok ==> r->Ok_0 == i32_of(src@),
{
    let mut reader: &[u8] = src;
    bincode::deserialize_from(&mut reader, bincode::Infinite)
}

/// Relies on bincode::serialize: with no size limit an `i32` is written as
/// four little-endian bytes, and writing into a vector does not fail.
#[verifier::external_body]
fn serialize_i32(v: &i32) -> (r: Result<Vec<u8>, bincode::Error>)
    ensures
        r is Ok,
        r->Ok_0@ == i32_bytes(*v),
{
    bincode::serialize(v, bincode::Infinite)
}

/// Relies on bincode::deserialize_from: a `u64` is read as eight
/// little-endian bytes; fewer bytes give an error, later bytes are not read.
#[verifier::external_body]
fn deserialize_u64(src: &[u8]) -> (r: Result<u64, bincode::Error>)
    ensures
        r is Ok <==> src@.len() >= 8,
        r is Ok ==> r->Ok_0 == u64_of(src@),
{
    let mut reader: &[u8] = src;
    bincode::deserialize_from(&mut reader, bincode::Infinite)
}

/// Relies on bincode::serialize: with no size limit a `u64` is written as
/// eight little-endian bytes, and writing into a vector does not fail.
#[verifier::external_body]
fn serialize_u64(v: &u64) -> (r: Result<Vec<u8>, bincode::Error>)
    ensures
        r is Ok,
        r->Ok_0@ == u64_bytes(*v),
{
    bincode::serialize(v, bincode::Infinite)
}

/// Relies on bincode::deserialize_from: a `bool` is read as one byte, 1
/// for true and 0 for false; no byte, or any other byte, gives an error;
/// later bytes are not read.
#[verifier::external_body]
fn deserialize_bool(src: &[u8]) -> (r: Result<bool, bincode::Error>)
    ensures
        r is Ok <==> bool_of(src@) is Some,
        r is Ok ==> bool_of(src@) == Some(r->Ok_0),
{
    let mut reader: &[u8] = src;
    bincode::deserialize_from(&mut reader, bincode::Infinite)
}

/// Relies on bincode::serialize: with no size limit a `bool` is written as
/// one byte, 1 for true and 0 for false, and writing into a vector does not
/// fail.
#[verifier::external_body]
fn serialize_bool(v: &bool) -> (r: Result<Vec<u8>, bincode::Error>)
    ensures
        r is Ok,
        r->Ok_0@ == bool_bytes(*v),
{
    bincode::serialize(v, bincode::Infinite)
}

impl Decoder<i32> for Bincode<i32> {
    open spec fn decoded(bytes: Seq<u8>) -> Option<i32> {
        if bytes.len() >= 4 {
            Some(i32_of(bytes))
        } else {
            None
        }
    }

    fn decode(&mut self, src: &[u8]) -> (r: Result<i32, Error>) {
        match deserialize_i32(src) {
            Ok(v) => Ok(v),
            Err(e) => Err(Error::Serde(e)),
        }
    }
}

impl Encoder<i32> for Bincode<i32> {
    open spec fn encoded(v: i32) -> Option<Seq<u8>> {
        Some(i32_bytes(v))
    }

    fn encode(&mut self, item: &i32) -> (r: Result<Vec<u8>, std::io::Error>) {
        match serialize_i32(item) {
            Ok(b) => Ok(b),
            Err(e) => Err(other_io_error(e)),
        }
    }
}

impl Decoder<u64> for Bincode<u64> {
    open spec fn decoded(bytes: Seq<u8>) -> Option<u64> {
        if bytes.len() >= 8 {
            Some(u64_of(bytes))
        } else {
            None
        }
    }

    fn decode(&mut self, src: &[u8]) -> (r: Result<u64, Error>) {
        match deserialize_u64(src) {
            Ok(v) => Ok(v),
            Err(e) => Err(Error::Serde(e)),
        }
    }
}

impl Encoder<u64> for Bincode<u64> {
    open spec fn encoded(v: u64) -> Option<Seq<u8>> {
        Some(u64_bytes(v))
    }

    fn encode(&mut self, item: &u64) -> (r: Result<Vec<u8>, std::io::Error>) {
        match serialize_u64(item) {
            Ok(b) => Ok(b),
            Err(e) => Err(other_io_error(e)),
        }
    }
}

impl Decoder<bool> for Bincode<bool> {
    open spec fn decoded(bytes: Seq<u8>) -> Option<bool> {
        bool_of(bytes)
    }

    fn decode(&mut self, src: &[u8]) -> (r: Result<bool, Error>) {
        match deserialize_bool(src) {
            Ok(v) => Ok(v),
            Err(e) => Err(Error::Serde(e)),
        }
    }
}

impl Encoder<bool> for Bincode<bool> {
    open spec fn encoded(v: bool) -> Option<Seq<u8>> {
        Some(bool_bytes(v))
    }

    fn encode(&mut self, item: &bool) -> (r: Result<Vec<u8>, std::io::Error>) {
        match serialize_bool(item) {
            Ok(b) => Ok(b),
            Err(e) => Err(other_io_error(e)),
        }
    }
}

impl Format<bool> for Bincode<bool> {
    proof fn lemma_round_trip(v: bool) {
    }
}

impl Format<i32> for Bincode<i32> {
    proof fn lemma_round_trip(v: i32) {
        lemma_round_trip_i32(v);
    }
}

impl Format<u64> for Bincode<u64> {
    proof fn lemma_round_trip(v: u64) {
        lemma_round_trip_u64(v);
    }
}

/// Every `i32` decodes back from its four-byte encoding.
pub proof fn lemma_round_trip_i32(v: i32)
    ensures
        <Bincode<i32> as Encoder<i32>>::encoded(v) is Some,
        <Bincode<i32> as Encoder<i32>>::encoded(v)->0.len() == 4,
        round_trips::<Bincode<i32>, i32>(v),
{
    let b = i32_bits(v);
    lemma_le_bytes_len(b, 4);
    reveal_with_fuel(le_bound, 5);
    assert(le_bound(4) == 0x1_0000_0000);
    lemma_le_value_bytes(b, 4);
    assert(i32_bytes(v).take(4) =~= i32_bytes(v));
}

/// Every `u64` decodes back from its eight-byte encoding.
pub proof fn lemma_round_trip_u64(v: u64)
    ensures
        <Bincode<u64> as Encoder<u64>>::encoded(v) is Some,
        <Bincode<u64> as Encoder<u64>>::encoded(v)->0.len() == 8,
        round_trips::<Bincode<u64>, u64>(v),
{
    lemma_le_bytes_len(v as nat, 8);
    reveal_with_fuel(le_bound, 9);
    assert(le_bound(8) == 0x1_0000_0000_0000_0000);
    lemma_le_value_bytes(v as nat, 8);
    assert(u64_bytes(v).take(8) =~= u64_bytes(v));
}

} // verus!
