//! The producer boundary: real shared arrays, as `ndarray` builds them,
//! described to the model by their axis lengths.

use ndarray::{ArcArray, Ix2, IxDyn};

use tensor_model::array::ArrayLayout;
use tensor_model::dynamic::DynamicTensorData;
use tensor_model::error::TensorError;
use tensor_model::shape::{Dimensions, TensorType};
use tensor_model::string::StringTensorData;
use tensor_model::tensor::{AsTensorData, TensorData};

#[test]
fn dynamic_u8_array_round_trip() {
    let arr: ArcArray<u8, IxDyn> =
        ArcArray::from_shape_vec(IxDyn(&[1, 3, 224, 224]), vec![0u8; 3 * 224 * 224]).unwrap();
    let data = TensorData::Dynamic(DynamicTensorData::U8(ArrayLayout::new(
        arr.shape().to_vec(),
    )));
    assert_eq!(data.ty(), TensorType::U8);
    assert_eq!(
        data.dimensions(),
        Ok(Dimensions::Image {
            channels: 3,
            width: Some(224),
            height: Some(224),
        })
    );
}

#[test]
fn shared_clone_of_backing_array_changes_nothing() {
    let arr: ArcArray<f32, IxDyn> =
        ArcArray::from_shape_vec(IxDyn(&[2, 7, 5, 9]), vec![0.0f32; 2 * 7 * 5 * 9]).unwrap();
    let shared = arr.clone();
    let original = DynamicTensorData::F32(ArrayLayout::new(arr.shape().to_vec()));
    let from_shared = DynamicTensorData::F32(ArrayLayout::new(shared.shape().to_vec()));
    assert_eq!(original, from_shared);
}

#[test]
fn rank_two_matrix_is_a_rank_violation() {
    let arr: ArcArray<i64, Ix2> =
        ArcArray::from_shape_vec((4, 6), vec![0i64; 24]).unwrap();
    let data = TensorData::String(StringTensorData::I64(ArrayLayout::new(
        arr.shape().to_vec(),
    )));
    assert_eq!(data.ty(), TensorType::I64);
    assert_eq!(data.dimensions(), Err(TensorError::RankViolation { rank: 2 }));
}
