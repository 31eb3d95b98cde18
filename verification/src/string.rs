use vstd::prelude::*;

use crate::array::{derive_dimensions, ArrayLayout};
use crate::error::TensorError;
use crate::shape::{Dimensions, TensorType};
use crate::tensor::{AsTensorData, DataModel, Family};

verus! {

/// The text-encoded numeric matrix family: matrices produced from string
/// input, represented either as 64-bit signed or as 32-bit float
/// elements. The backing arrays may carry any rank; as everywhere in the
/// model, dimension derivation demands rank at least four and reports a
/// rank violation below that.
#[derive(Debug, PartialEq)]
pub enum StringTensorData {
    I64(ArrayLayout),
    F32(ArrayLayout),
}

impl StringTensorData {
    pub open spec fn spec_ty(self) -> TensorType {
        match self {
            StringTensorData::I64(_) => TensorType::I64,
            StringTensorData::F32(_) => TensorType::F32,
        }
    }

    pub open spec fn layout(self) -> Seq<usize> {
        match self {
            StringTensorData::I64(a) => a@,
            StringTensorData::F32(a) => a@,
        }
    }
}

impl View for StringTensorData {
    type V = DataModel;

    open spec fn view(&self) -> DataModel {
        DataModel { family: Family::String, ty: self.spec_ty(), dims: self.layout() }
    }
}

impl Clone for StringTensorData {
    fn clone(&self) -> (r: Self)
        ensures
            r@ == self@,
    {
        match self {
            StringTensorData::I64(a) => StringTensorData::I64(a.clone()),
            StringTensorData::F32(a) => StringTensorData::F32(a.clone()),
        }
    }
}

impl StringTensorData {
    /// Wraps a backing array of the given element type into this family;
    /// an element type with no representation here is rejected at
    /// construction.
    pub fn new(ty: TensorType, layout: ArrayLayout) -> (r: Result<Self, TensorError>)
        ensures
            match r {
                Ok(d) => {
                    &&& ty == TensorType::I64 || ty == TensorType::F32
                    &&& d@ == (DataModel { family: Family::String, ty, dims: layout@ })
                },
                Err(e) => {
                    &&& ty == TensorType::U8
                    &&& e == (TensorError::UnsupportedElementType { ty })
                },
            },
    {
        match ty {
            TensorType::I64 => Ok(StringTensorData::I64(layout)),
            TensorType::F32 => Ok(StringTensorData::F32(layout)),
            TensorType::U8 => Err(TensorError::UnsupportedElementType { ty }),
        }
    }
}

impl AsTensorData for StringTensorData {
    open spec fn model(&self) -> DataModel {
        self@
    }

    fn ty(&self) -> (r: TensorType) {
        match self {
            StringTensorData::I64(_) => TensorType::I64,
            StringTensorData::F32(_) => TensorType::F32,
        }
    }

    fn dimensions(&self) -> (r: Result<Dimensions, TensorError>) {
        match self {
            StringTensorData::I64(a) => derive_dimensions(a),
            StringTensorData::F32(a) => derive_dimensions(a),
        }
    }
}

} // verus!
