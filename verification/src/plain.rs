//! Values that are nothing but their bytes.
//!
//! A value crosses the line between a caller and a device as a run of bytes.
//! [`Plain`] describes the types that can make the crossing: each has a fixed
//! size, every value has exactly one byte form of that size, and every run of
//! bytes of that size is the byte form of exactly one value. Integers are laid
//! out with the least significant byte first.

use vstd::prelude::*;
use vstd::bytes::{
    lemma_auto_spec_u16_to_from_le_bytes, lemma_auto_spec_u32_to_from_le_bytes,
    lemma_auto_spec_u64_to_from_le_bytes, spec_u16_from_le_bytes, spec_u16_to_le_bytes,
    spec_u32_from_le_bytes, spec_u32_to_le_bytes, spec_u64_from_le_bytes, spec_u64_to_le_bytes,
    u16_from_le_bytes, u16_to_le_bytes, u32_from_le_bytes, u32_to_le_bytes, u64_from_le_bytes,
    u64_to_le_bytes,
};

verus! {

/// A type whose values are in one-to-one correspondence with the byte strings
/// of one fixed length.
pub trait Plain: Copy {
    /// The number of bytes that a value of this type occupies.
    spec fn size() -> nat;

    /// The bytes that a value occupies.
    spec fn bytes(self) -> Seq<u8>;

    /// The value that occupies the given bytes.
    spec fn of_bytes(bytes: Seq<u8>) -> Self;

    /// A value occupies `size()` bytes, and is the value of its own bytes.
    proof fn lemma_bytes(value: Self)
        ensures
            value.bytes().len() == Self::size(),
            Self::of_bytes(value.bytes()) == value,
    ;

    /// Bytes of the right number are the bytes of the value they make.
    proof fn lemma_of_bytes(bytes: Seq<u8>)
        requires
            bytes.len() == Self::size(),
        ensures
            Self::of_bytes(bytes).bytes() == bytes,
    ;

    /// The number of bytes that a value of this type occupies.
    fn size_of() -> (n: usize)
        ensures
            n == Self::size(),
    ;

    /// The bytes of the value, in a vector of their own.
    fn to_bytes(&self) -> (bytes: Vec<u8>)
        ensures
            bytes@ == self.bytes(),
    ;

    /// The value made of the given bytes.
    fn from_bytes(bytes: &[u8]) -> (value: Self)
        requires
            bytes@.len() == Self::size(),
        ensures
            value == Self::of_bytes(bytes@),
    ;
}

impl Plain for u8 {
    open spec fn size() -> nat {
        1
    }

    open spec fn bytes(self) -> Seq<u8> {
        seq![self]
    }

    open spec fn of_bytes(bytes: Seq<u8>) -> u8 {
        bytes[0]
    }

    proof fn lemma_bytes(value: u8) {
    }

    proof fn lemma_of_bytes(bytes: Seq<u8>) {
        assert(seq![bytes[0]] =~= bytes);
    }

    fn size_of() -> (n: usize) {
        1
    }

    fn to_bytes(&self) -> (bytes: Vec<u8>) {
        let mut bytes: Vec<u8> = Vec::new();
        bytes.push(*self);
        assert(bytes@ =~= seq![*self]);
        bytes
    }

    fn from_bytes(bytes: &[u8]) -> (value: u8) {
        bytes[0]
    }
}

impl Plain for u16 {
    open spec fn size() -> nat {
        2
    }

    open spec fn bytes(self) -> Seq<u8> {
        spec_u16_to_le_bytes(self)
    }

    open spec fn of_bytes(bytes: Seq<u8>) -> u16 {
        spec_u16_from_le_bytes(bytes)
    }

    proof fn lemma_bytes(value: u16) {
        lemma_auto_spec_u16_to_from_le_bytes();
        assert(spec_u16_to_le_bytes(value).len() == 2);
    }

    proof fn lemma_of_bytes(bytes: Seq<u8>) {
        lemma_auto_spec_u16_to_from_le_bytes();
    }

    fn size_of() -> (n: usize) {
        2
    }

    fn to_bytes(&self) -> (bytes: Vec<u8>) {
        u16_to_le_bytes(*self)
    }

    fn from_bytes(bytes: &[u8]) -> (value: u16) {
        u16_from_le_bytes(bytes)
    }
}

impl Plain for u32 {
    open spec fn size() -> nat {
        4
    }

    open spec fn bytes(self) -> Seq<u8> {
        spec_u32_to_le_bytes(self)
    }

    open spec fn of_bytes(bytes: Seq<u8>) -> u32 {
        spec_u32_from_le_bytes(bytes)
    }

    proof fn lemma_bytes(value: u32) {
        lemma_auto_spec_u32_to_from_le_bytes();
        assert(spec_u32_to_le_bytes(value).len() == 4);
    }

    proof fn lemma_of_bytes(bytes: Seq<u8>) {
        lemma_auto_spec_u32_to_from_le_bytes();
    }

    fn size_of() -> (n: usize) {
        4
    }

    fn to_bytes(&self) -> (bytes: Vec<u8>) {
        u32_to_le_bytes(*self)
    }

    fn from_bytes(bytes: &[u8]) -> (value: u32) {
        u32_from_le_bytes(bytes)
    }
}

impl Plain for u64 {
    open spec fn size() -> nat {
        8
    }

    open spec fn bytes(self) -> Seq<u8> {
        spec_u64_to_le_bytes(self)
    }

    open spec fn of_bytes(bytes: Seq<u8>) -> u64 {
        spec_u64_from_le_bytes(bytes)
    }

    proof fn lemma_bytes(value: u64) {
        lemma_auto_spec_u64_to_from_le_bytes();
        assert(spec_u64_to_le_bytes(value).len() == 8);
    }

    proof fn lemma_of_bytes(bytes: Seq<u8>) {
        lemma_auto_spec_u64_to_from_le_bytes();
    }

    fn size_of() -> (n: usize) {
        8
    }

    fn to_bytes(&self) -> (bytes: Vec<u8>) {
        u64_to_le_bytes(*self)
    }

    fn from_bytes(bytes: &[u8]) -> (value: u64) {
        u64_from_le_bytes(bytes)
    }
}

impl Plain for i32 {
    open spec fn size() -> nat {
        4
    }

    open spec fn bytes(self) -> Seq<u8> {
        spec_u32_to_le_bytes(self as u32)
    }

    open spec fn of_bytes(bytes: Seq<u8>) -> i32 {
        spec_u32_from_le_bytes(bytes) as i32
    }

    proof fn lemma_bytes(value: i32) {
        lemma_auto_spec_u32_to_from_le_bytes();
        assert(spec_u32_to_le_bytes(value as u32).len() == 4);
        assert((value as u32) as i32 == value) by (bit_vector);
    }

    proof fn lemma_of_bytes(bytes: Seq<u8>) {
        lemma_auto_spec_u32_to_from_le_bytes();
        let word = spec_u32_from_le_bytes(bytes);
        assert((word as i32) as u32 == word) by (bit_vector);
    }

    fn size_of() -> (n: usize) {
        4
    }

    fn to_bytes(&self) -> (bytes: Vec<u8>) {
        u32_to_le_bytes(#[verifier::truncate] (*self as u32))
    }

    fn from_bytes(bytes: &[u8]) -> (value: i32) {
        #[verifier::truncate]
        (u32_from_le_bytes(bytes) as i32)
    }
}

} // verus!
