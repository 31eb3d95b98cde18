use vstd::prelude::*;

use crate::array::{derive_dimensions, ArrayLayout};
use crate::error::TensorError;
use crate::shape::{Dimensions, TensorType};
use crate::tensor::{DataModel, Family};

verus! {

/// The byte-image encoding family: images laid out as arrays of 8-bit
/// unsigned samples.
#[derive(Debug, PartialEq)]
pub enum ImageTensorData {
    U8(ArrayLayout),
}

impl ImageTensorData {
    pub open spec fn spec_ty(self) -> TensorType {
        match self {
            ImageTensorData::U8(_) => TensorType::U8,
        }
    }

    pub open spec fn layout(self) -> Seq<usize> {
        match self {
            ImageTensorData::U8(a) => a@,
        }
    }
}

impl View for ImageTensorData {
    type V = DataModel;

    open spec fn view(&self) -> DataModel {
        DataModel { family: Family::Image, ty: self.spec_ty(), dims: self.layout() }
    }
}

impl Clone for ImageTensorData {
    fn clone(&self) -> (r: Self)
        ensures
            r@ == self@,
    {
        match self {
            ImageTensorData::U8(a) => ImageTensorData::U8(a.clone()),
        }
    }
}

impl ImageTensorData {
    /// The element kind, computed from the active representation.
    pub(crate) fn ty(&self) -> (r: TensorType)
        ensures
            r == self@.ty,
    {
        match self {
            ImageTensorData::U8(_) => TensorType::U8,
        }
    }

    /// The derived dimensions of the backing array.
    pub(crate) fn dimensions(&self) -> (r: Result<Dimensions, TensorError>)
        ensures
            match r {
                Ok(d) => self@.rank_ok() && d == self@.dimensions(),
                Err(e) => {
                    &&& !self@.rank_ok()
                    &&& e matches TensorError::RankViolation { rank } && rank == self@.rank()
                },
            },
    {
        match self {
            ImageTensorData::U8(a) => derive_dimensions(a),
        }
    }
}

} // verus!
