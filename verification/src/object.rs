//! Scene objects: a shape, its material, and its placement in the world.

use vstd::prelude::*;
use crate::material::Material;
use crate::matrice::Matrice;
use crate::shape::Shape;

verus! {

/// A shape with a material, placed by a transform. The inverse of the
/// transform and the transpose of that inverse are kept beside it, for
/// taking points into object space and normals out of it.
#[derive(Clone, Debug)]
pub struct Object {
    pub material: Material,
    pub shape: Shape,
    pub transformation: Matrice,
    pub transformation_inverse: Matrice,
    pub transformation_inverse_transpose: Matrice,
}

impl Object {
    /// The three matrices are square and of one size, and the third is the
    /// transpose of the second.
    pub open spec fn well_formed(&self) -> bool {
        &&& self.material.well_formed()
        &&& self.transformation.well_formed()
        &&& self.transformation_inverse.well_formed()
        &&& self.transformation_inverse_transpose.well_formed()
        &&& self.transformation.size == self.transformation_inverse.size
        &&& self.transformation_inverse_transpose.is_transpose_of(&self.transformation_inverse)
    }

    /// The object is where its shape's own frame puts it: all three
    /// matrices are the 4×4 identity.
    pub open spec fn is_untransformed(&self) -> bool {
        &&& self.transformation.size == 4
        &&& self.transformation.is_identity()
        &&& self.transformation_inverse.is_identity()
        &&& self.transformation_inverse_transpose.is_identity()
    }

    /// An object of the given material and shape, placed by
    /// `transformation`. `transformation_inverse` is the inverse of
    /// `transformation`, computed by the caller; its transpose is derived
    /// here.
    pub fn new(
        material: Material,
        shape: Shape,
        transformation: Matrice,
        transformation_inverse: Matrice,
    ) -> (o: Object)
        requires
            material.well_formed(),
            transformation.well_formed(),
            transformation_inverse.well_formed(),
            transformation.size == transformation_inverse.size,
        ensures
            o.well_formed(),
            o.material == material,
            o.shape == shape,
            o.transformation == transformation,
            o.transformation_inverse == transformation_inverse,
    {
        let transformation_inverse_transpose = transformation_inverse.transpose();
        Object {
            material,
            shape,
            transformation,
            transformation_inverse,
            transformation_inverse_transpose,
        }
    }

    /// A builder on which nothing was set.
    pub fn builder() -> (b: ObjectBuilder)
        ensures
            b.material is None,
            b.shape is None,
            b.transformation is None,
    {
        ObjectBuilder::default()
    }

    /// A builder of a sphere.
    pub fn sphere_builder() -> (b: ObjectBuilder)
        ensures
            b.material is None,
            b.shape == Some(Shape::Sphere),
            b.transformation is None,
    {
        ObjectBuilder::sphere()
    }

    /// A builder of a plane.
    pub fn plane_builder() -> (b: ObjectBuilder)
        ensures
            b.material is None,
            b.shape == Some(Shape::Plane),
            b.transformation is None,
    {
        ObjectBuilder::plane()
    }

    /// The transform that places the object in the world.
    pub fn transformation(&self) -> (m: &Matrice)
        ensures
            *m == self.transformation,
    {
        &self.transformation
    }

    /// The transform from world space into object space.
    pub fn transformation_inverse(&self) -> (m: &Matrice)
        ensures
            *m == self.transformation_inverse,
    {
        &self.transformation_inverse
    }

    /// The transform that takes normals from object space into world space.
    pub fn transformation_inverse_transpose(&self) -> (m: &Matrice)
        ensures
            *m == self.transformation_inverse_transpose,
    {
        &self.transformation_inverse_transpose
    }

    /// Places the object anew. The transform, its inverse (computed by the
    /// caller) and the transpose of the inverse change together.
    pub fn set_transformation(&mut self, transformation: Matrice, transformation_inverse: Matrice)
        requires
            old(self).material.well_formed(),
            transformation.well_formed(),
            transformation_inverse.well_formed(),
            transformation.size == transformation_inverse.size,
        ensures
            final(self).well_formed(),
            final(self).material == old(self).material,
            final(self).shape == old(self).shape,
            final(self).transformation == transformation,
            final(self).transformation_inverse == transformation_inverse,
    {
        self.transformation_inverse_transpose = transformation_inverse.transpose();
        self.transformation = transformation;
        self.transformation_inverse = transformation_inverse;
    }
}

impl Default for Object {
    /// An untransformed sphere of the default material.
    fn default() -> (o: Object)
        ensures
            o.well_formed(),
            o.is_untransformed(),
            o.shape == Shape::Sphere,
            o.material.has_default_coefficients(),
            o.material.pattern is None,
    {
        Object::new(Material::default(), Shape::Sphere, Matrice::identity(), Matrice::identity())
    }
}

/// The transform of an object under construction, with its inverse.
#[derive(Clone, Debug)]
pub struct Placement {
    pub transformation: Matrice,
    pub transformation_inverse: Matrice,
}

/// Collects the parts of an object one by one; what is not set takes its
/// default.
#[derive(Clone, Debug)]
pub struct ObjectBuilder {
    pub material: Option<Material>,
    pub shape: Option<Shape>,
    pub transformation: Option<Placement>,
}

impl Default for ObjectBuilder {
    /// A builder on which nothing was set.
    fn default() -> (b: ObjectBuilder)
        ensures
            b.material is None,
            b.shape is None,
            b.transformation is None,
    {
        ObjectBuilder { material: None, shape: None, transformation: None }
    }
}

impl ObjectBuilder {
    /// What was set is well formed.
    pub open spec fn well_formed(&self) -> bool {
        &&& self.material matches Some(m) ==> m.well_formed()
        &&& self.transformation matches Some(p) ==> p.transformation.well_formed()
            && p.transformation_inverse.well_formed() && p.transformation.size
            == p.transformation_inverse.size
    }

    /// Sets the material.
    pub fn material(self, material: Material) -> (b: ObjectBuilder)
        ensures
            b == (ObjectBuilder { material: Some(material), ..self }),
    {
        let mut b = self;
        b.material = Some(material);
        b
    }

    /// Sets the shape.
    pub fn shape(self, shape: Shape) -> (b: ObjectBuilder)
        ensures
            b == (ObjectBuilder { shape: Some(shape), ..self }),
    {
        let mut b = self;
        b.shape = Some(shape);
        b
    }

    /// A builder with the shape set to a sphere.
    pub fn sphere() -> (b: ObjectBuilder)
        ensures
            b.material is None,
            b.shape == Some(Shape::Sphere),
            b.transformation is None,
    {
        ObjectBuilder { material: None, shape: Some(Shape::Sphere), transformation: None }
    }

    /// A builder with the shape set to a plane.
    pub fn plane() -> (b: ObjectBuilder)
        ensures
            b.material is None,
            b.shape == Some(Shape::Plane),
            b.transformation is None,
    {
        ObjectBuilder { material: None, shape: Some(Shape::Plane), transformation: None }
    }

    /// Sets the transform, with its inverse as the caller computed it.
    pub fn transformation(self, transformation: Matrice, transformation_inverse: Matrice) -> (b:
        ObjectBuilder)
        ensures
            b == (ObjectBuilder {
                transformation: Some(Placement { transformation, transformation_inverse }),
                ..self
            }),
    {
        let mut b = self;
        b.transformation = Some(Placement { transformation, transformation_inverse });
        b
    }

    /// The object with every part that was set; the default material, a
    /// sphere and no transform stand in for what was not.
    pub fn build(self) -> (o: Object)
        requires
            self.well_formed(),
        ensures
            o.well_formed(),
            o.shape == (match self.shape {
                Some(s) => s,
                None => Shape::Sphere,
            }),
            self.material matches Some(m) ==> o.material == m,
            self.material is None ==> o.material.has_default_coefficients() && o.material.pattern
                is None,
            self.transformation matches Some(p) ==> o.transformation == p.transformation
                && o.transformation_inverse == p.transformation_inverse,
            self.transformation is None ==> o.is_untransformed(),
    {
        let material = match self.material {
            Some(m) => m,
            None => Material::default(),
        };
        let shape = match self.shape {
            Some(s) => s,
            None => Shape::default(),
        };
        match self.transformation {
            Some(p) => Object::new(material, shape, p.transformation, p.transformation_inverse),
            None => Object::new(material, shape, Matrice::identity(), Matrice::identity()),
        }
    }
}

} // verus!
