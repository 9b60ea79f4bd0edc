//! The geometry cache: the base layer of a chart, remembered for the
//! viewport size it was computed for.
//!
//! The cache is keyed by size alone. A chart whose data changed is replaced
//! by a new chart with a new cache; the cache is never told about data.

use vstd::prelude::*;
use crate::charts::geometry::Size;
use crate::charts::shape::copy_layer;
use crate::charts::shape::views;
use crate::charts::shape::Shape;
use crate::charts::shape::ShapeView;

verus! {

/// At most one remembered base layer.
#[derive(Debug, Clone, PartialEq, Eq)]
pub struct GeometryCache {
    size: Option<Size>,
    shapes: Vec<Shape>,
}

impl GeometryCache {
    /// The viewport size the remembered layer belongs to, if there is one.
    pub closed spec fn key(&self) -> Option<Size> {
        self.size
    }

    /// The remembered layer.
    pub closed spec fn layer(&self) -> Seq<ShapeView> {
        views(self.shapes@)
    }

    /// The layer to show for a viewport of `size`: the remembered one if it
    /// was computed for that size, and `fresh` otherwise.
    pub open spec fn resolve(&self, size: Size, fresh: Seq<ShapeView>) -> Seq<ShapeView> {
        if self.key() == Some(size) {
            self.layer()
        } else {
            fresh
        }
    }

    /// A cache that remembers nothing.
    pub fn new() -> (cache: Self)
        ensures
            cache.key() is None,
    {
        GeometryCache { size: None, shapes: Vec::new() }
    }

    /// Forgets the remembered layer.
    pub fn clear(&mut self)
        ensures
            final(self).key() is None,
    {
        self.size = None;
        self.shapes = Vec::new();
    }

    /// The viewport size the remembered layer belongs to.
    pub fn size(&self) -> (size: Option<Size>)
        ensures
            size == self.key(),
    {
        self.size
    }

    /// A copy of the remembered layer, if it was computed for `size`.
    pub fn lookup(&self, size: Size) -> (hit: Option<Vec<Shape>>)
        ensures
            hit is Some <==> self.key() == Some(size),
            hit matches Some(shapes) ==> views(shapes@) == self.layer(),
    {
        match self.size {
            Some(stored) => {
                if stored == size {
                    Some(copy_layer(&self.shapes))
                } else {
                    None
                }
            },
            None => None,
        }
    }

    /// Remembers a copy of `shapes` as the layer for `size`.
    pub fn store(&mut self, size: Size, shapes: &Vec<Shape>)
        ensures
            final(self).key() == Some(size),
            final(self).layer() == views(shapes@),
    {
        self.size = Some(size);
        self.shapes = copy_layer(shapes);
    }
}

} // verus!
