use vstd::prelude::*;

use crate::error::TensorError;
use crate::shape::Dimensions;

verus! {

/// What the data model reads of a producer's backing array: one length
/// per axis, in axis order.
///
/// The array itself is a shared, immutable, reference-counted buffer that
/// stays with the producer and the inference engine; the model never
/// touches its elements, so a variant carries only this layout. Its view
/// is the sequence of axis lengths.
#[derive(Debug, PartialEq)]
pub struct ArrayLayout {
    pub dims: Vec<usize>,
}

impl View for ArrayLayout {
    type V = Seq<usize>;

    open spec fn view(&self) -> Seq<usize> {
        self.dims@
    }
}

impl Clone for ArrayLayout {
    fn clone(&self) -> (r: Self)
        ensures
            r@ == self@,
    {
        let dims = self.dims.clone();
        proof {
            assert forall|i: int| 0 <= i < self.dims@.len() implies dims@[i]
                == self.dims@[i] by {
                assert(cloned::<usize>(self.dims[i], dims[i]));
            }
            assert(dims@ =~= self.dims@);
        }
        ArrayLayout { dims }
    }
}

impl ArrayLayout {
    pub fn new(dims: Vec<usize>) -> (r: Self)
        ensures
            r@ == dims@,
    {
        ArrayLayout { dims }
    }

    /// The number of axes of the backing array.
    pub fn rank(&self) -> (r: usize)
        ensures
            r == self@.len(),
    {
        self.dims.len()
    }
}

/// The dimension derivation rule shared by every image-like encoding
/// family, whose arrays are read with axis order
/// {batch, channel, width, height, ...}: channels come from axis 1, width
/// from axis 2 and height from axis 3. The rule needs at least four axes;
/// on a lower rank it reports a rank violation instead of reading past
/// the end.
pub fn derive_dimensions(layout: &ArrayLayout) -> (r: Result<Dimensions, TensorError>)
    ensures
        match r {
            Ok(d) => layout@.len() >= 4 && d == (Dimensions::Image {
                channels: layout@[1],
                width: Some(layout@[2]),
                height: Some(layout@[3]),
            }),
            Err(e) => {
                &&& layout@.len() < 4
                &&& e matches TensorError::RankViolation { rank } && rank == layout@.len()
            },
        },
{
    if layout.dims.len() < 4 {
        Err(TensorError::RankViolation { rank: layout.dims.len() })
    } else {
        Ok(
            Dimensions::Image {
                channels: layout.dims[1],
                width: Some(layout.dims[2]),
                height: Some(layout.dims[3]),
            },
        )
    }
}

} // verus!
