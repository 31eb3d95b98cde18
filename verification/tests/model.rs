use tensor_model::array::ArrayLayout;
use tensor_model::class::ClassTensorData;
use tensor_model::config::{ClientConfig, LoggingLevel, OptimizationLevel};
use tensor_model::dynamic::DynamicTensorData;
use tensor_model::error::TensorError;
use tensor_model::image::ImageTensorData;
use tensor_model::shape::{Dimensions, Shape, TensorType};
use tensor_model::string::StringTensorData;
use tensor_model::tensor::{AsTensorData, Tensor, TensorData, ToTensor};

fn layout(dims: &[usize]) -> ArrayLayout {
    ArrayLayout::new(dims.to_vec())
}

#[test]
fn ty_matches_element_representation() {
    let dims = [1usize, 3, 4, 4];
    assert_eq!(
        TensorData::Dynamic(DynamicTensorData::U8(layout(&dims))).ty(),
        TensorType::U8
    );
    assert_eq!(
        TensorData::Dynamic(DynamicTensorData::F32(layout(&dims))).ty(),
        TensorType::F32
    );
    assert_eq!(
        TensorData::Class(ClassTensorData::I64(layout(&dims))).ty(),
        TensorType::I64
    );
    assert_eq!(
        TensorData::Image(ImageTensorData::U8(layout(&dims))).ty(),
        TensorType::U8
    );
    assert_eq!(
        TensorData::String(StringTensorData::I64(layout(&dims))).ty(),
        TensorType::I64
    );
    assert_eq!(StringTensorData::F32(layout(&dims)).ty(), TensorType::F32);
}

#[test]
fn dimensions_derive_from_axes() {
    let data = TensorData::Image(ImageTensorData::U8(layout(&[1, 3, 224, 224])));
    assert_eq!(
        data.dimensions(),
        Ok(Dimensions::Image {
            channels: 3,
            width: Some(224),
            height: Some(224),
        })
    );
}

#[test]
fn dimensions_keep_extra_axes_out() {
    let data = TensorData::Dynamic(DynamicTensorData::F32(layout(&[2, 7, 5, 9, 11])));
    assert_eq!(
        data.dimensions(),
        Ok(Dimensions::Image {
            channels: 7,
            width: Some(5),
            height: Some(9),
        })
    );
}

#[test]
fn dimensions_reject_low_rank() {
    let data = TensorData::Dynamic(DynamicTensorData::U8(layout(&[2, 3])));
    assert_eq!(data.dimensions(), Err(TensorError::RankViolation { rank: 2 }));
    let empty = TensorData::Class(ClassTensorData::I64(layout(&[])));
    assert_eq!(empty.dimensions(), Err(TensorError::RankViolation { rank: 0 }));
}

fn image_shape(name: &str, channels: usize, width: Option<usize>, height: Option<usize>) -> Shape {
    Shape {
        name: name.to_string(),
        ty: TensorType::U8,
        dimensions: Dimensions::Image {
            channels,
            width,
            height,
        },
    }
}

#[test]
fn contains_is_reflexive_on_concrete_shapes() {
    let s = image_shape("input", 3, Some(224), Some(224));
    assert!(s.contains(&s));
}

#[test]
fn wildcard_parent_contains_concrete_child() {
    let parent = image_shape("input", 3, None, None);
    let child = image_shape("input", 3, Some(224), Some(224));
    assert!(parent.contains(&child));
    assert!(!child.contains(&parent));
}

#[test]
fn containment_requires_equal_names_and_types() {
    let parent = image_shape("input", 3, None, None);
    let other_name = image_shape("output", 3, Some(224), Some(224));
    assert!(!parent.contains(&other_name));
    let mut other_ty = image_shape("input", 3, Some(224), Some(224));
    other_ty.ty = TensorType::F32;
    assert!(!parent.contains(&other_ty));
}

#[test]
fn to_tensor_fails_on_channel_mismatch() {
    let tensor = Tensor {
        name: "input".to_string(),
        data: TensorData::Image(ImageTensorData::U8(layout(&[1, 3, 224, 224]))),
    };
    let parent = image_shape("input", 1, None, None);
    let child = tensor.shape().unwrap();
    assert_eq!(
        tensor.to_tensor(&parent),
        Err(TensorError::ShapeMismatch {
            expected: parent,
            given: child,
        })
    );
}

#[test]
fn to_tensor_accepts_wildcard_parent() {
    let tensor = Tensor {
        name: "input".to_string(),
        data: TensorData::Image(ImageTensorData::U8(layout(&[1, 3, 224, 224]))),
    };
    let parent = image_shape("input", 3, None, None);
    let validated = tensor.to_tensor(&parent).unwrap();
    assert_eq!(validated, tensor);
}

#[test]
fn to_tensor_against_own_shape_succeeds() {
    let tensor = Tensor {
        name: "embedding".to_string(),
        data: TensorData::String(StringTensorData::F32(layout(&[1, 5, 10, 10]))),
    };
    let own = tensor.shape().unwrap();
    let validated = tensor.to_tensor(&own).unwrap();
    assert_eq!(validated, tensor);
}

#[test]
fn to_tensor_propagates_rank_violation() {
    let tensor = Tensor {
        name: "input".to_string(),
        data: TensorData::Dynamic(DynamicTensorData::U8(layout(&[4, 7]))),
    };
    let parent = image_shape("input", 3, None, None);
    assert_eq!(
        tensor.to_tensor(&parent),
        Err(TensorError::RankViolation { rank: 2 })
    );
}

#[test]
fn clone_answers_alike() {
    let data = TensorData::String(StringTensorData::I64(layout(&[1, 5, 10, 10])));
    let copy = data.clone();
    assert_eq!(copy.ty(), data.ty());
    assert_eq!(copy.dimensions(), data.dimensions());
    assert_eq!(copy, data);

    let tensor = Tensor {
        name: "input".to_string(),
        data,
    };
    let tensor_copy = tensor.clone();
    assert_eq!(tensor_copy.shape().unwrap(), tensor.shape().unwrap());
}

#[test]
fn tensor_shape_combines_name_ty_dimensions() {
    let tensor = Tensor {
        name: "pixels".to_string(),
        data: TensorData::Dynamic(DynamicTensorData::U8(layout(&[1, 3, 32, 16]))),
    };
    let s = tensor.shape().unwrap();
    assert_eq!(s.name, "pixels");
    assert_eq!(s.ty, TensorType::U8);
    assert_eq!(
        s.dimensions,
        Dimensions::Image {
            channels: 3,
            width: Some(32),
            height: Some(16),
        }
    );
}

#[test]
fn boxed_producer_forwards_validation() {
    let tensor = Tensor {
        name: "input".to_string(),
        data: TensorData::Image(ImageTensorData::U8(layout(&[1, 3, 8, 8]))),
    };
    let own = tensor.shape().unwrap();
    let boxed: Box<dyn ToTensor> = Box::new(tensor.clone());
    let validated = boxed.to_tensor(&own).unwrap();
    assert_eq!(validated, tensor);
}

#[test]
fn family_constructors_reject_unknown_element_types() {
    assert_eq!(
        DynamicTensorData::new(TensorType::I64, layout(&[1, 3, 4, 4])),
        Err(TensorError::UnsupportedElementType {
            ty: TensorType::I64
        })
    );
    assert_eq!(
        StringTensorData::new(TensorType::U8, layout(&[1, 3, 4, 4])),
        Err(TensorError::UnsupportedElementType { ty: TensorType::U8 })
    );
    let built = DynamicTensorData::new(TensorType::U8, layout(&[1, 3, 4, 4])).unwrap();
    assert_eq!(built, DynamicTensorData::U8(layout(&[1, 3, 4, 4])));
    let text = StringTensorData::new(TensorType::F32, layout(&[1, 3, 4, 4])).unwrap();
    assert_eq!(text, StringTensorData::F32(layout(&[1, 3, 4, 4])));
}

#[test]
fn variants_lift_into_tensor_data() {
    let d = DynamicTensorData::F32(layout(&[1, 2, 3, 4]));
    assert_eq!(
        TensorData::from(d),
        TensorData::Dynamic(DynamicTensorData::F32(layout(&[1, 2, 3, 4])))
    );
    let s = StringTensorData::I64(layout(&[1, 2, 3, 4]));
    assert_eq!(
        TensorData::from(s),
        TensorData::String(StringTensorData::I64(layout(&[1, 2, 3, 4])))
    );
}

#[test]
fn string_family_int64_end_to_end() {
    let data = TensorData::String(StringTensorData::I64(layout(&[1, 5, 10, 10])));
    assert_eq!(data.ty(), TensorType::I64);
    assert_eq!(
        data.dimensions(),
        Ok(Dimensions::Image {
            channels: 5,
            width: Some(10),
            height: Some(10),
        })
    );
}

#[test]
fn client_config_default() {
    let config = ClientConfig::default();
    assert_eq!(
        config,
        ClientConfig {
            log_level: LoggingLevel::Warning,
            optimization_level: OptimizationLevel::Basic,
            number_threads: 1,
        }
    );
    assert_eq!(ClientConfig::try_infer(), Ok(config));
    assert_eq!(ClientConfig::genesis(), Ok(config));
}
