use vstd::prelude::*;

use crate::array::{derive_dimensions, ArrayLayout};
use crate::error::TensorError;
use crate::shape::{Dimensions, TensorType};
use crate::tensor::{DataModel, Family};

verus! {

/// The raw dynamic-array encoding family: arbitrarily ranked numeric
/// arrays, represented either as 8-bit unsigned or as 32-bit float
/// elements. The representation set is closed.
#[derive(Debug, PartialEq)]
pub enum DynamicTensorData {
    U8(ArrayLayout),
    F32(ArrayLayout),
}

impl DynamicTensorData {
    pub open spec fn spec_ty(self) -> TensorType {
        match self {
            DynamicTensorData::U8(_) => TensorType::U8,
            DynamicTensorData::F32(_) => TensorType::F32,
        }
    }

    pub open spec fn layout(self) -> Seq<usize> {
        match self {
            DynamicTensorData::U8(a) => a@,
            DynamicTensorData::F32(a) => a@,
        }
    }
}

impl View for DynamicTensorData {
    type V = DataModel;

    open spec fn view(&self) -> DataModel {
        DataModel { family: Family::Dynamic, ty: self.spec_ty(), dims: self.layout() }
    }
}

impl Clone for DynamicTensorData {
    fn clone(&self) -> (r: Self)
        ensures
            r@ == self@,
    {
        match self {
            DynamicTensorData::U8(a) => DynamicTensorData::U8(a.clone()),
            DynamicTensorData::F32(a) => DynamicTensorData::F32(a.clone()),
        }
    }
}

impl DynamicTensorData {
    /// Wraps a backing array of the given element type into this family;
    /// an element type with no representation here is rejected at
    /// construction.
    pub fn new(ty: TensorType, layout: ArrayLayout) -> (r: Result<Self, TensorError>)
        ensures
            match r {
                Ok(d) => {
                    &&& ty == TensorType::U8 || ty == TensorType::F32
                    &&& d@ == (DataModel { family: Family::Dynamic, ty, dims: layout@ })
                },
                Err(e) => {
                    &&& ty == TensorType::I64
                    &&& e == (TensorError::UnsupportedElementType { ty })
                },
            },
    {
        match ty {
            TensorType::U8 => Ok(DynamicTensorData::U8(layout)),
            TensorType::F32 => Ok(DynamicTensorData::F32(layout)),
            TensorType::I64 => Err(TensorError::UnsupportedElementType { ty }),
        }
    }

    /// The element kind, computed from the active representation.
    pub(crate) fn ty(&self) -> (r: TensorType)
        ensures
            r == self@.ty,
    {
        match self {
            DynamicTensorData::U8(_) => TensorType::U8,
            DynamicTensorData::F32(_) => TensorType::F32,
        }
    }

    /// The derived dimensions of the backing array.
    pub(crate) fn dimensions(&self) -> (r: Result<Dimensions, TensorError>)
        ensures
            match r {
                Ok(d) => self@.rank_ok() && d == self@.dimensions(),
                Err(e) => {
                    &&& !self@.rank_ok()
                    &&& e matches TensorError::RankViolation { rank } && rank == self@.rank()
                },
            },
    {
        match self {
            DynamicTensorData::U8(a) => derive_dimensions(a),
            DynamicTensorData::F32(a) => derive_dimensions(a),
        }
    }
}

} // verus!
