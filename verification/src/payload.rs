//! Decoded payload values.
//!
//! Wire (de)serialization codecs are an external collaborator's concern; the
//! core works on already-decoded values.  A `Payload` is the input of an
//! invocation, the value of a state key, and the result of a side effect or a
//! call.

use vstd::prelude::*;

verus! {

/// A decoded value carried by invocations, state keys and durable results.
#[derive(Debug, Clone, PartialEq, Eq)]
pub enum Payload {
    /// No value (a handler without input, or a unit result).
    Empty,
    /// A text value.
    Text(String),
    /// A signed integer value.
    Int(i64),
    /// An uninterpreted byte string.
    Bytes(Vec<u8>),
}

/// The mathematical value of a [`Payload`].
#[verifier::ext_equal]
pub enum PayloadVal {
    Empty,
    Text(Seq<char>),
    Int(int),
    Bytes(Seq<u8>),
}

impl View for Payload {
    type V = PayloadVal;

    open spec fn view(&self) -> PayloadVal {
        match self {
            Payload::Empty => PayloadVal::Empty,
            Payload::Text(s) => PayloadVal::Text(s@),
            Payload::Int(n) => PayloadVal::Int(*n as int),
            Payload::Bytes(b) => PayloadVal::Bytes(b@),
        }
    }
}

/// The value of an optional payload, used for state reads that may find
/// the key absent.
pub open spec fn opt_payload_val(o: Option<Payload>) -> Option<PayloadVal> {
    match o {
        Option::None => Option::None,
        Option::Some(p) => Option::Some(p@),
    }
}

/// Copies a byte string.
pub fn clone_bytes(b: &Vec<u8>) -> (r: Vec<u8>)
    ensures
        r@ == b@,
{
    let mut r: Vec<u8> = Vec::new();
    let mut i: usize = 0;
    while i < b.len()
        invariant
            i <= b.len(),
            r@ == b@.take(i as int),
        decreases b.len() - i,
    {
        r.push(b[i]);
        proof {
            assert(b@.take(i + 1 as int) =~= b@.take(i as int).push(b@[i as int]));
        }
        i = i + 1;
    }
    proof {
        assert(b@.take(b@.len() as int) =~= b@);
    }
    r
}

/// Compares two byte strings.
pub fn bytes_eq(a: &Vec<u8>, b: &Vec<u8>) -> (r: bool)
    ensures
        r == (a@ == b@),
{
    if a.len() != b.len() {
        return false;
    }
    let mut i: usize = 0;
    while i < a.len()
        invariant
            i <= a.len(),
            a@.len() == b@.len(),
            forall|j: int| 0 <= j < i ==> a@[j] == b@[j],
        decreases a.len() - i,
    {
        if a[i] != b[i] {
            return false;
        }
        i = i + 1;
    }
    proof {
        assert(a@ =~= b@);
    }
    true
}

impl Payload {
    /// Compares two values.
    pub fn same_val(&self, other: &Payload) -> (r: bool)
        ensures
            r == (self@ == other@),
    {
        match (self, other) {
            (Payload::Empty, Payload::Empty) => true,
            (Payload::Text(a), Payload::Text(b)) => *a == *b,
            (Payload::Int(a), Payload::Int(b)) => *a == *b,
            (Payload::Bytes(a), Payload::Bytes(b)) => bytes_eq(a, b),
            _ => false,
        }
    }

    /// Copies the value.
    pub fn dup(&self) -> (r: Payload)
        ensures
            r@ == self@,
    {
        match self {
            Payload::Empty => Payload::Empty,
            Payload::Text(s) => Payload::Text(s.clone()),
            Payload::Int(n) => Payload::Int(*n),
            Payload::Bytes(b) => Payload::Bytes(clone_bytes(b)),
        }
    }
}

} // verus!
