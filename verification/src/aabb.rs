use vstd::prelude::*;

verus! {

/// An axis aligned bounding box given by its two extent corners.
#[derive(Debug, Clone, Copy)]
pub struct AABB<T> {
    pub min_x: T,
    pub min_y: T,
    pub max_x: T,
    pub max_y: T,
}

impl<T: Copy> AABB<T> {
    /// Build a bounding box from its four extent values.
    pub fn new(min_x: T, min_y: T, max_x: T, max_y: T) -> (r: Self)
        ensures
            r == (AABB { min_x, min_y, max_x, max_y }),
    {
        AABB { min_x, min_y, max_x, max_y }
    }
}

} // verus!
