//! Plain geometry values and the flattening of point arrays into the
//! interleaved coordinate arrays the native entry points take.

use vstd::prelude::*;
use crate::color::IntoARGB;

verus! {

/// A point.
#[derive(Clone, Copy, Debug, PartialEq, Eq, Hash)]
pub struct Point<T = i32> {
    /// The x coordinate.
    pub x: T,
    /// The y coordinate.
    pub y: T,
}

/// A line between two points.
#[derive(Clone, Copy, Debug, PartialEq, Eq, Hash)]
pub struct Line {
    /// x of the first point.
    pub x1: i32,
    /// y of the first point.
    pub y1: i32,
    /// x of the second point.
    pub x2: i32,
    /// y of the second point.
    pub y2: i32,
}

/// A rectangle given by its corner and size.
#[derive(Clone, Copy, Debug, PartialEq, Eq, Hash)]
pub struct Rect<T = i32> {
    /// x of the top-left corner.
    pub x: T,
    /// y of the top-left corner.
    pub y: T,
    /// The width.
    pub width: T,
    /// The height.
    pub height: T,
}

/// A point together with a color.
#[derive(Clone, Copy, Debug, PartialEq, Eq, Hash)]
pub struct PixelPoint<U: IntoARGB, T = i32> {
    /// The x coordinate.
    pub x: T,
    /// The y coordinate.
    pub y: T,
    /// The color.
    pub color: U,
}

/// Flatten points into the interleaved `x, y` array the native polygon and
/// polyline entry points take.
pub fn flatten_points(points: &[Point<i32>]) -> (r: Vec<i32>)
    ensures
        r@.len() == 2 * points@.len(),
        forall|i: int|
            0 <= i < points@.len() ==> r@[2 * i] == points@[i].x && r@[2 * i + 1] == points@[i].y,
{
    let n = points.len();
    let mut r: Vec<i32> = Vec::new();
    let mut i: usize = 0;
    while i < n
        invariant
            i <= n,
            n == points@.len(),
            r@.len() == 2 * i,
            forall|j: int|
                0 <= j < i ==> r@[2 * j] == points@[j].x && r@[2 * j + 1] == points@[j].y,
        decreases n - i,
    {
        r.push(points[i].x);
        r.push(points[i].y);
        i += 1;
    }
    r
}

/// Flatten lines into the interleaved `x1, y1, x2, y2` array the native
/// multi-line entry point takes.
pub fn flatten_lines(lines: &[Line]) -> (r: Vec<i32>)
    ensures
        r@.len() == 4 * lines@.len(),
        forall|i: int|
            0 <= i < lines@.len() ==> r@[4 * i] == lines@[i].x1 && r@[4 * i + 1] == lines@[i].y1
                && r@[4 * i + 2] == lines@[i].x2 && r@[4 * i + 3] == lines@[i].y2,
{
    let n = lines.len();
    let mut r: Vec<i32> = Vec::new();
    let mut i: usize = 0;
    while i < n
        invariant
            i <= n,
            n == lines@.len(),
            r@.len() == 4 * i,
            forall|j: int|
                0 <= j < i ==> r@[4 * j] == lines@[j].x1 && r@[4 * j + 1] == lines@[j].y1 && r@[4
                    * j + 2] == lines@[j].x2 && r@[4 * j + 3] == lines@[j].y2,
        decreases n - i,
    {
        r.push(lines[i].x1);
        r.push(lines[i].y1);
        r.push(lines[i].x2);
        r.push(lines[i].y2);
        i += 1;
    }
    r
}

/// Flatten colored points into the interleaved `x, y, color` triples the
/// native multi-pixel entry point takes; each color is packed to ARGB32 and
/// reinterpreted as a signed word.
pub fn flatten_pixel_points<U: IntoARGB + Copy>(points: &[PixelPoint<U, i32>]) -> (r: Vec<i32>)
    ensures
        r@.len() == 3 * points@.len(),
        forall|i: int|
            0 <= i < points@.len() ==> r@[3 * i] == points@[i].x && r@[3 * i + 1] == points@[i].y
                && r@[3 * i + 2] == points@[i].color.spec_argb() as i32,
{
    let n = points.len();
    let mut r: Vec<i32> = Vec::new();
    let mut i: usize = 0;
    while i < n
        invariant
            i <= n,
            n == points@.len(),
            r@.len() == 3 * i,
            forall|j: int|
                0 <= j < i ==> r@[3 * j] == points@[j].x && r@[3 * j + 1] == points@[j].y && r@[3
                    * j + 2] == points@[j].color.spec_argb() as i32,
        decreases n - i,
    {
        r.push(points[i].x);
        r.push(points[i].y);
        let argb = points[i].color.into_argb();
        r.push(#[verifier::truncate] (argb as i32));
        i += 1;
    }
    r
}

} // verus!
