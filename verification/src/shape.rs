use vstd::prelude::*;

verus! {

/// The element kind of a tensor: the type of the numbers stored in its
/// backing array. The set is closed per deployment; every live tensor data
/// variant maps to exactly one element kind, always computed from the
/// active representation and never stored redundantly.
#[derive(Clone, Copy, Debug, PartialEq, Eq, Structural)]
pub enum TensorType {
    U8,
    F32,
    I64,
}

/// Axis-level description of a tensor's shape.
///
/// The image form holds a mandatory channel count and a width and height
/// that are each either a concrete size or unconstrained (`None`, a
/// wildcard). Unconstrained axes only ever appear on a declared parent
/// shape used for validation; a shape derived from concrete data is always
/// fully concrete.
#[derive(Clone, Copy, Debug, PartialEq, Eq)]
pub enum Dimensions {
    Image { channels: usize, width: Option<usize>, height: Option<usize> },
}

impl Dimensions {
    /// A dimensions value is concrete when no axis is left unconstrained.
    pub open spec fn is_concrete(self) -> bool {
        self->width is Some && self->height is Some
    }
}

/// A parent axis accepts a child axis iff the parent leaves the axis
/// unconstrained or the two carry exactly the same value.
pub open spec fn axis_contains(parent: Option<usize>, child: Option<usize>) -> bool {
    match parent {
        Option::None => true,
        Option::Some(p) => child == Option::Some(p),
    }
}

/// Parent dimensions contain child dimensions iff the channel counts are
/// equal and each of width and height is accepted axis-wise.
pub open spec fn dimensions_contain(parent: Dimensions, child: Dimensions) -> bool {
    match (parent, child) {
        (
            Dimensions::Image { channels: pc, width: pw, height: ph },
            Dimensions::Image { channels: cc, width: cw, height: ch },
        ) => pc == cc && axis_contains(pw, cw) && axis_contains(ph, ch),
    }
}

/// The mathematical content of a [`Shape`]: its name as a character
/// sequence together with its element kind and dimensions.
pub ghost struct ShapeModel {
    pub name: Seq<char>,
    pub ty: TensorType,
    pub dimensions: Dimensions,
}

impl ShapeModel {
    /// The containment relation between a declared parent shape and a
    /// child shape: names equal, element kinds equal, and the parent's
    /// dimensions contain the child's. The relation is not symmetric: a
    /// wildcard parent accepts many concrete children, while a concrete
    /// parent accepts only an identical child.
    pub open spec fn contains(self, child: ShapeModel) -> bool {
        &&& self.name == child.name
        &&& self.ty == child.ty
        &&& dimensions_contain(self.dimensions, child.dimensions)
    }

    pub open spec fn is_concrete(self) -> bool {
        self.dimensions.is_concrete()
    }
}

/// A tensor's declared or derived structure: a name, an element kind and
/// an axis-level description.
#[derive(Debug, PartialEq)]
pub struct Shape {
    pub name: String,
    pub ty: TensorType,
    pub dimensions: Dimensions,
}

impl View for Shape {
    type V = ShapeModel;

    open spec fn view(&self) -> ShapeModel {
        ShapeModel { name: self.name@, ty: self.ty, dimensions: self.dimensions }
    }
}

impl Clone for Shape {
    fn clone(&self) -> (r: Self)
        ensures
            r@ == self@,
    {
        Shape { name: self.name.clone(), ty: self.ty, dimensions: self.dimensions }
    }
}

fn axis_accepts(parent: &Option<usize>, child: &Option<usize>) -> (r: bool)
    ensures
        r == axis_contains(*parent, *child),
{
    match parent {
        Option::None => true,
        Option::Some(p) => match child {
            Option::Some(c) => *p == *c,
            Option::None => false,
        },
    }
}

fn dimensions_accept(parent: &Dimensions, child: &Dimensions) -> (r: bool)
    ensures
        r == dimensions_contain(*parent, *child),
{
    match (parent, child) {
        (
            Dimensions::Image { channels: pc, width: pw, height: ph },
            Dimensions::Image { channels: cc, width: cw, height: ch },
        ) => *pc == *cc && axis_accepts(pw, cw) && axis_accepts(ph, ch),
    }
}

impl Shape {
    /// Whether this shape, read as a declared parent, accepts `child`.
    /// A pure predicate with no side effects; it is the single test the
    /// validation contract relies on.
    pub fn contains(&self, child: &Shape) -> (r: bool)
        ensures
            r == self@.contains(child@),
    {
        self.name == child.name && self.ty == child.ty
            && dimensions_accept(&self.dimensions, &child.dimensions)
    }
}

/// Containment is reflexive on concrete shapes: a shape whose axes are all
/// concrete accepts itself.
pub proof fn lemma_contains_reflexive(s: Shape)
    requires
        s@.is_concrete(),
    ensures
        s@.contains(s@),
{
}

} // verus!
