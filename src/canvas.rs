use vstd::prelude::*;
use crate::geometry::{Point, COORD_LIMIT};
use crate::transform::{
    inverse_x, inverse_y, Transform, IMAGE_COORD_LIMIT, HALF_LIMIT, MAX_ZOOM, MIN_ZOOM, POSITION_LIMIT, ZOOM_ONE,
};

verus! {

/// Size of a loaded image, in pixels. The pixels themselves live with the
/// renderer; the canvas logic reads only the extent.
#[derive(Clone, Copy, Debug, PartialEq, Eq, Structural)]
pub struct ImageSize {
    pub width: u32,
    pub height: u32,
}

/// Half of an extent of `pixels`, in length units.
pub open spec fn half_extent(pixels: u32) -> int {
    pixels as int * 500
}

/// The loaded image and its view transform.
pub struct Canvas {
    pub image: Option<ImageSize>,
    /// Translation of the image center in screen space.
    pub position: Point,
    /// Zoom in millionths, within `[MIN_ZOOM, MAX_ZOOM]`.
    pub zoom: i64,
    /// Rotation in 5-degree steps; it accumulates without wrapping.
    pub rotation: i64,
    /// The forward transform of the last render.
    pub transform: Transform,
}

impl Canvas {
    pub open spec fn wf(&self) -> bool {
        &&& self.position.within(POSITION_LIMIT as int)
        &&& MIN_ZOOM <= self.zoom <= MAX_ZOOM
        &&& self.transform.wf()
    }

    /// The forward transform that a render of `image` under the current view uses.
    pub open spec fn forward_spec(&self, image: ImageSize) -> Transform {
        Transform {
            position: self.position,
            rotation: self.rotation,
            zoom: self.zoom,
            half: Point { x: half_extent(image.width) as i64, y: half_extent(image.height) as i64 },
        }
    }

    pub fn new() -> (c: Canvas)
        ensures
            c.wf(),
            c.image.is_none(),
            c.position == Point::zero_spec(),
            c.zoom == ZOOM_ONE,
            c.rotation == 0,
            c.transform == Transform::identity_spec(),
    {
        Canvas {
            image: None,
            position: Point::zero(),
            zoom: ZOOM_ONE,
            rotation: 0,
            transform: Transform::identity(),
        }
    }

    /// Replaces the image; the view is kept.
    pub fn open(&mut self, image: ImageSize)
        ensures
            final(self).image == Some(image),
            final(self).position == old(self).position,
            final(self).zoom == old(self).zoom,
            final(self).rotation == old(self).rotation,
            final(self).transform == old(self).transform,
    {
        self.image = Some(image);
    }

    /// Records and returns the transform of a render of the image, or does
    /// nothing when no image is loaded.
    pub fn draw(&mut self) -> (r: Option<Transform>)
        requires
            old(self).wf(),
        ensures
            final(self).wf(),
            final(self).image == old(self).image,
            final(self).position == old(self).position,
            final(self).zoom == old(self).zoom,
            final(self).rotation == old(self).rotation,
            match old(self).image {
                None => r.is_none() && final(self).transform == old(self).transform,
                Some(img) => r == Some(old(self).forward_spec(img))
                    && final(self).transform == old(self).forward_spec(img),
            },
    {
        match self.image {
            None => None,
            Some(img) => {
                let t = Transform {
                    position: self.position,
                    rotation: self.rotation,
                    zoom: self.zoom,
                    half: Point { x: img.width as i64 * 500, y: img.height as i64 * 500 },
                };
                self.transform = t;
                Some(t)
            },
        }
    }

    /// Maps a screen point into image-local space through the transform of
    /// the last render.
    pub fn screen_to_canvas_coords(&self, screen_point: Point) -> (r: Point)
        requires
            self.wf(),
            screen_point.within(COORD_LIMIT as int),
        ensures
            r.x == inverse_x(self.transform, screen_point.x as int, screen_point.y as int),
            r.y == inverse_y(self.transform, screen_point.x as int, screen_point.y as int),
            r.within(IMAGE_COORD_LIMIT as int),
    {
        self.transform.invert_point(screen_point)
    }
}

} // verus!
