use vstd::prelude::*;

use crate::array::{derive_dimensions, ArrayLayout};
use crate::error::TensorError;
use crate::shape::{Dimensions, TensorType};
use crate::tensor::{DataModel, Family};

verus! {

/// The class-index encoding family: arrays of class identifiers,
/// represented as 64-bit signed elements.
#[derive(Debug, PartialEq)]
pub enum ClassTensorData {
    I64(ArrayLayout),
}

impl ClassTensorData {
    pub open spec fn spec_ty(self) -> TensorType {
        match self {
            ClassTensorData::I64(_) => TensorType::I64,
        }
    }

    pub open spec fn layout(self) -> Seq<usize> {
        match self {
            ClassTensorData::I64(a) => a@,
        }
    }
}

impl View for ClassTensorData {
    type V = DataModel;

    open spec fn view(&self) -> DataModel {
        DataModel { family: Family::Class, ty: self.spec_ty(), dims: self.layout() }
    }
}

impl Clone for ClassTensorData {
    fn clone(&self) -> (r: Self)
        ensures
            r@ == self@,
    {
        match self {
            ClassTensorData::I64(a) => ClassTensorData::I64(a.clone()),
        }
    }
}

impl ClassTensorData {
    /// The element kind, computed from the active representation.
    pub(crate) fn ty(&self) -> (r: TensorType)
        ensures
            r == self@.ty,
    {
        match self {
            ClassTensorData::I64(_) => TensorType::I64,
        }
    }

    /// The derived dimensions of the backing array.
    pub(crate) fn dimensions(&self) -> (r: Result<Dimensions, TensorError>)
        ensures
            match r {
                Ok(d) => self@.rank_ok() && d == self@.dimensions(),
                Err(e) => {
                    &&& !self@.rank_ok()
                    &&& e matches TensorError::RankViolation { rank } && rank == self@.rank()
                },
            },
    {
        match self {
            ClassTensorData::I64(a) => derive_dimensions(a),
        }
    }
}

} // verus!
