use vstd::prelude::*;

use crate::class::ClassTensorData;
use crate::dynamic::DynamicTensorData;
use crate::error::TensorError;
use crate::image::ImageTensorData;
use crate::shape::{Dimensions, Shape, ShapeModel, TensorType};
use crate::string::StringTensorData;

verus! {

/// The encoding families of the model: raw dynamic arrays, class indices,
/// byte images and text-encoded numeric matrices. The set is closed.
pub ghost enum Family {
    Dynamic,
    Class,
    Image,
    String,
}

/// The mathematical content of a tensor data variant: which encoding
/// family is active, the element kind of the backing array, and the axis
/// lengths of that array.
pub ghost struct DataModel {
    pub family: Family,
    pub ty: TensorType,
    pub dims: Seq<usize>,
}

impl DataModel {
    pub open spec fn rank(self) -> nat {
        self.dims.len()
    }

    /// Dimension derivation reads axes 1, 2 and 3, so it is defined
    /// exactly on ranks of at least four.
    pub open spec fn rank_ok(self) -> bool {
        self.dims.len() >= 4
    }

    /// The derived dimensions under axis order
    /// {batch, channel, width, height, ...}.
    pub open spec fn dimensions(self) -> Dimensions
        recommends
            self.rank_ok(),
    {
        Dimensions::Image {
            channels: self.dims[1],
            width: Some(self.dims[2]),
            height: Some(self.dims[3]),
        }
    }
}

/// The uniform read-side contract of every tensor data variant: an element
/// kind, total, and derived dimensions, which fail on a backing array of
/// rank below four.
pub trait AsTensorData {
    /// The mathematical content the implementor's answers are drawn from.
    spec fn model(&self) -> DataModel;

    fn ty(&self) -> (r: TensorType)
        ensures
            r == self.model().ty,
    ;

    fn dimensions(&self) -> (r: Result<Dimensions, TensorError>)
        ensures
            match r {
                Ok(d) => self.model().rank_ok() && d == self.model().dimensions(),
                Err(e) => {
                    &&& !self.model().rank_ok()
                    &&& e matches TensorError::RankViolation { rank } && rank == self.model().rank()
                },
            },
    ;
}

/// A tensor data variant: the tagged union over the closed set of encoding
/// families, each itself a tagged union over element representations.
#[derive(Debug, PartialEq)]
pub enum TensorData {
    Dynamic(DynamicTensorData),
    Class(ClassTensorData),
    Image(ImageTensorData),
    String(StringTensorData),
}

impl View for TensorData {
    type V = DataModel;

    open spec fn view(&self) -> DataModel {
        match self {
            TensorData::Dynamic(v) => v@,
            TensorData::Class(v) => v@,
            TensorData::Image(v) => v@,
            TensorData::String(v) => v@,
        }
    }
}

impl Clone for TensorData {
    fn clone(&self) -> (r: Self)
        ensures
            r@ == self@,
    {
        match self {
            TensorData::Dynamic(v) => TensorData::Dynamic(v.clone()),
            TensorData::Class(v) => TensorData::Class(v.clone()),
            TensorData::Image(v) => TensorData::Image(v.clone()),
            TensorData::String(v) => TensorData::String(v.clone()),
        }
    }
}

impl AsTensorData for TensorData {
    open spec fn model(&self) -> DataModel {
        self@
    }

    fn ty(&self) -> (r: TensorType) {
        match self {
            TensorData::Dynamic(v) => v.ty(),
            TensorData::Class(v) => v.ty(),
            TensorData::Image(v) => v.ty(),
            TensorData::String(v) => v.ty(),
        }
    }

    fn dimensions(&self) -> (r: Result<Dimensions, TensorError>) {
        match self {
            TensorData::Dynamic(v) => v.dimensions(),
            TensorData::Class(v) => v.dimensions(),
            TensorData::Image(v) => v.dimensions(),
            TensorData::String(v) => v.dimensions(),
        }
    }
}

impl From<DynamicTensorData> for TensorData {
    fn from(value: DynamicTensorData) -> (r: Self)
        ensures
            r == TensorData::Dynamic(value),
    {
        TensorData::Dynamic(value)
    }
}

impl vstd::std_specs::convert::FromSpecImpl<DynamicTensorData> for TensorData {
    open spec fn obeys_from_spec() -> bool {
        true
    }

    open spec fn from_spec(v: DynamicTensorData) -> TensorData {
        TensorData::Dynamic(v)
    }
}

impl From<StringTensorData> for TensorData {
    fn from(value: StringTensorData) -> (r: Self)
        ensures
            r == TensorData::String(value),
    {
        TensorData::String(value)
    }
}

impl vstd::std_specs::convert::FromSpecImpl<StringTensorData> for TensorData {
    open spec fn obeys_from_spec() -> bool {
        true
    }

    open spec fn from_spec(v: StringTensorData) -> TensorData {
        TensorData::String(v)
    }
}

/// The mathematical content of a [`Tensor`]: its name and the content of
/// its data variant.
pub ghost struct TensorModel {
    pub name: Seq<char>,
    pub data: DataModel,
}

impl TensorModel {
    /// The tensor's own derived shape, defined when the backing rank
    /// allows derivation. A derived shape is always fully concrete.
    pub open spec fn shape(self) -> ShapeModel
        recommends
            self.data.rank_ok(),
    {
        ShapeModel { name: self.name, ty: self.data.ty, dimensions: self.data.dimensions() }
    }
}

/// A named tensor: an identifier paired with a tensor data variant.
#[derive(Debug, PartialEq)]
pub struct Tensor {
    pub name: String,
    pub data: TensorData,
}

impl View for Tensor {
    type V = TensorModel;

    open spec fn view(&self) -> TensorModel {
        TensorModel { name: self.name@, data: self.data@ }
    }
}

impl Clone for Tensor {
    fn clone(&self) -> (r: Self)
        ensures
            r@ == self@,
    {
        Tensor { name: self.name.clone(), data: self.data.clone() }
    }
}

impl AsTensorData for Tensor {
    open spec fn model(&self) -> DataModel {
        self@.data
    }

    fn ty(&self) -> (r: TensorType) {
        self.data.ty()
    }

    fn dimensions(&self) -> (r: Result<Dimensions, TensorError>) {
        self.data.dimensions()
    }
}

impl Tensor {
    /// The tensor's shape, computed on demand from its immutable data:
    /// the name together with the derived element kind and dimensions.
    /// Fails exactly when the backing array's rank is below four.
    pub fn shape(&self) -> (r: Result<Shape, TensorError>)
        ensures
            match r {
                Ok(s) => self@.data.rank_ok() && s@ == self@.shape(),
                Err(e) => {
                    &&& !self@.data.rank_ok()
                    &&& e matches TensorError::RankViolation { rank } && rank == self@.data.rank()
                },
            },
    {
        match self.data.dimensions() {
            Ok(dimensions) => Ok(
                Shape { name: self.name.clone(), ty: self.data.ty(), dimensions },
            ),
            Err(e) => Err(e),
        }
    }
}

/// The capability of producing a validated tensor: a producer of
/// tensor-like data checks itself against a declared parent shape and
/// yields a tensor only if compatible. This is the model's one open
/// extension point; any producer type may implement it, the closed
/// [`Tensor`] type among them.
pub trait ToTensor {
    fn to_tensor(&self, shape: &Shape) -> (r: Result<Tensor, TensorError>)
        ensures
            r matches Ok(t) ==> t@.data.rank_ok() && shape@.contains(t@.shape()),
    ;
}

impl ToTensor for Box<dyn ToTensor> {
    /// A boxed producer validates by forwarding to the producer it owns.
    fn to_tensor(&self, shape: &Shape) -> (r: Result<Tensor, TensorError>) {
        (**self).to_tensor(shape)
    }
}

impl ToTensor for Tensor {
    /// The single validation gate: derive this tensor's own shape, test
    /// containment against the declared parent, and on success hand out a
    /// tensor whose content equals this one's. Nothing downstream checks
    /// shape again. Fails with a rank violation when the own shape cannot
    /// be derived, and with a shape mismatch carrying both the expected
    /// and the given shape when containment fails.
    fn to_tensor(&self, parent: &Shape) -> (r: Result<Tensor, TensorError>)
        ensures
            match r {
                Ok(t) => {
                    &&& t@ == self@
                    &&& self@.data.rank_ok()
                    &&& parent@.contains(self@.shape())
                },
                Err(e) => match e {
                    TensorError::RankViolation { rank } => {
                        &&& !self@.data.rank_ok()
                        &&& rank == self@.data.rank()
                    },
                    TensorError::ShapeMismatch { expected, given } => {
                        &&& self@.data.rank_ok()
                        &&& !parent@.contains(self@.shape())
                        &&& expected@ == parent@
                        &&& given@ == self@.shape()
                    },
                    _ => false,
                },
            },
    {
        let child = match self.shape() {
            Ok(s) => s,
            Err(e) => {
                return Err(e);
            },
        };
        if parent.contains(&child) {
            Ok(self.clone())
        } else {
            Err(TensorError::ShapeMismatch { expected: parent.clone(), given: child })
        }
    }
}

/// Validating a tensor against its own derived shape never fails: a
/// derived shape is fully concrete, and a concrete shape contains itself.
pub proof fn lemma_validate_own_shape(t: Tensor)
    requires
        t@.data.rank_ok(),
    ensures
        t@.shape().is_concrete(),
        t@.shape().contains(t@.shape()),
{
}

/// A clone of a tensor data variant is indistinguishable from the
/// original: whatever `clone` returned has the same content, and so the
/// same element kind and derived dimensions.
pub proof fn lemma_clone_answers_alike(a: TensorData, b: TensorData)
    requires
        cloned::<TensorData>(a, b),
    ensures
        b@ == a@,
        b@.ty == a@.ty,
        a@.rank_ok() ==> b@.dimensions() == a@.dimensions(),
{
}

} // verus!
