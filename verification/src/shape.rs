//! The shape codec: a fixed four-slot axis-extent descriptor, carried on the
//! wire as an ordered run of four unsigned 64-bit integers.
//!
//! A tensor's logical rank may be smaller than four; the unused trailing
//! axes hold 1 by convention. Decoding checks the arity and nothing else:
//! arbitrarily large extents are accepted here and only collide with reality
//! when the element count they imply disagrees with an actual element
//! buffer.

use vstd::prelude::*;

use crate::error::CodecError;

verus! {

/// An ordered, fixed-length descriptor of four non-negative axis extents.
#[derive(Clone, Copy, Debug, PartialEq)]
pub struct Shape {
    dims: [u64; 4],
}

/// The number of elements a shape calls for: the product of its four
/// extents, as an unbounded natural number.
pub open spec fn shape_element_count(dims: Seq<u64>) -> nat
    recommends
        dims.len() == 4,
{
    (((dims[0] as nat) * (dims[1] as nat)) * (dims[2] as nat)) * (dims[3] as nat)
}

/// What decoding a wire record of extents yields: the record itself when it
/// has exactly four slots, and a `FormatError` otherwise.
pub open spec fn spec_decode_shape(rec: Seq<u64>) -> Result<Seq<u64>, CodecError> {
    if rec.len() == 4 {
        Ok(rec)
    } else {
        Err(CodecError::FormatError)
    }
}

impl View for Shape {
    type V = Seq<u64>;

    closed spec fn view(&self) -> Seq<u64> {
        self.dims@
    }
}

impl Shape {
    /// Builds a shape from four axis extents, in axis order.
    pub fn new(dims: [u64; 4]) -> (s: Shape)
        ensures
            s@ == dims@,
    {
        Shape { dims }
    }

    /// Every shape has exactly four slots, whatever the tensor's logical
    /// rank.
    pub proof fn lemma_four_slots(&self)
        ensures
            self@.len() == 4,
    {
    }

    /// The four extents, in axis order.
    pub fn get(&self) -> (r: &[u64; 4])
        ensures
            r@ == self@,
    {
        &self.dims
    }

    /// The element count this shape calls for.
    pub open spec fn spec_element_count(&self) -> nat {
        shape_element_count(self@)
    }

    /// Computes the element count, or `None` when the product of the four
    /// extents does not fit in 64 bits (such a shape can never agree with an
    /// actual element buffer).
    pub fn checked_element_count(&self) -> (r: Option<u64>)
        ensures
            match r {
                Some(c) => c == self.spec_element_count(),
                None => self.spec_element_count() > u64::MAX,
            },
    {
        if self.dims[0] == 0 || self.dims[1] == 0 || self.dims[2] == 0 || self.dims[3] == 0 {
            proof {
                let d0 = self@[0] as nat;
                let d1 = self@[1] as nat;
                let d2 = self@[2] as nat;
                let d3 = self@[3] as nat;
                assert(d0 == 0 || d1 == 0 || d2 == 0 || d3 == 0 ==> ((d0 * d1) * d2) * d3 == 0)
                    by (nonlinear_arith);
            }
            return Some(0);
        }
        let d0 = self.dims[0] as u128;
        let d1 = self.dims[1] as u128;
        let d2 = self.dims[2] as u128;
        let d3 = self.dims[3] as u128;
        assert(d0 * d1 <= (u64::MAX as u128) * (u64::MAX as u128)) by (nonlinear_arith)
            requires
                d0 <= u64::MAX,
                d1 <= u64::MAX,
        ;
        let p01 = d0 * d1;
        if p01 > u64::MAX as u128 {
            proof {
                lemma_product_monotone(
                    self.dims[0] as nat,
                    self.dims[1] as nat,
                    self.dims[2] as nat,
                    self.dims[3] as nat,
                );
            }
            return None;
        }
        assert(p01 * d2 <= (u64::MAX as u128) * (u64::MAX as u128)) by (nonlinear_arith)
            requires
                p01 <= u64::MAX,
                d2 <= u64::MAX,
        ;
        let p012 = p01 * d2;
        if p012 > u64::MAX as u128 {
            proof {
                lemma_product_monotone(
                    self.dims[0] as nat,
                    self.dims[1] as nat,
                    self.dims[2] as nat,
                    self.dims[3] as nat,
                );
            }
            return None;
        }
        assert(p012 * d3 <= (u64::MAX as u128) * (u64::MAX as u128)) by (nonlinear_arith)
            requires
                p012 <= u64::MAX,
                d3 <= u64::MAX,
        ;
        let p = p012 * d3;
        if p > u64::MAX as u128 {
            return None;
        }
        Some(p as u64)
    }

    /// Encodes this shape as the ordered run of its four extents. Encoding
    /// a shape never fails.
    pub fn encode(&self) -> (r: Vec<u64>)
        ensures
            r@ == self@,
    {
        let mut out: Vec<u64> = Vec::new();
        out.push(self.dims[0]);
        out.push(self.dims[1]);
        out.push(self.dims[2]);
        out.push(self.dims[3]);
        proof {
            assert(out@ =~= self@);
        }
        out
    }

    /// Decodes an ordered run of extents, reading them positionally.
    ///
    /// Fails with `FormatError` unless exactly four extents are present; no
    /// upper bound is placed on any extent.
    pub fn decode(rec: &[u64]) -> (r: Result<Shape, CodecError>)
        ensures
            match r {
                Ok(s) => spec_decode_shape(rec@) == Ok::<Seq<u64>, CodecError>(s@),
                Err(e) => spec_decode_shape(rec@) == Err::<Seq<u64>, CodecError>(e),
            },
    {
        if rec.len() != 4 {
            return Err(CodecError::FormatError);
        }
        let s = Shape { dims: [rec[0], rec[1], rec[2], rec[3]] };
        proof {
            assert(s@ =~= rec@);
        }
        Ok(s)
    }
}

/// When all four extents are at least 1, the full product is at least any
/// partial product of them.
proof fn lemma_product_monotone(d0: nat, d1: nat, d2: nat, d3: nat)
    requires
        d0 >= 1,
        d1 >= 1,
        d2 >= 1,
        d3 >= 1,
    ensures
        ((d0 * d1) * d2) * d3 >= d0 * d1,
        ((d0 * d1) * d2) * d3 >= (d0 * d1) * d2,
{
    assert(((d0 * d1) * d2) * d3 >= d0 * d1) by (nonlinear_arith)
        requires
            d0 >= 1,
            d1 >= 1,
            d2 >= 1,
            d3 >= 1,
    ;
    assert(((d0 * d1) * d2) * d3 >= (d0 * d1) * d2) by (nonlinear_arith)
        requires
            d0 >= 1,
            d1 >= 1,
            d2 >= 1,
            d3 >= 1,
    ;
}

/// The shape codec is a bijection between shapes and four-slot wire
/// records: decoding inverts encoding on every shape, and encoding inverts
/// decoding on every record of exactly four extents, while any other arity
/// is rejected.
pub proof fn lemma_shape_codec_bijective(s: Seq<u64>, rec: Seq<u64>)
    requires
        s.len() == 4,
    ensures
        spec_decode_shape(s) == Ok::<Seq<u64>, CodecError>(s),
        rec.len() == 4 ==> spec_decode_shape(rec) == Ok::<Seq<u64>, CodecError>(rec),
        rec.len() != 4 ==> spec_decode_shape(rec) == Err::<Seq<u64>, CodecError>(
            CodecError::FormatError,
        ),
{
}

} // verus!
