//! Vector swizzling: a getter for every combination and a setter for every
//! permutation of vector components, over the three equivalent component
//! name sets `{x, y, z, w}`, `{r, g, b, a}` and `{s, t, p, q}`. A getter
//! such as `zxy` copies the named components into a new vector in that
//! order; a setter such as `set_zxy` writes the given vector's components
//! into the named slots. Every contract pins the result component by
//! component.

use crate::math::V2;
use crate::math::V3;
use crate::math::V4;
use vstd::prelude::*;

verus! {

impl<T: Copy> V2<T> {
    /// Component 0.
    pub fn x(&self) -> (ret: T)
        ensures
            ret == self.0,
    {
        self.0
    }

    /// Writes `value` into component 0.
    pub fn set_x(&mut self, value: T)
        ensures
            *final(self) == V2(value, old(self).1),
    {
        self.0 = value;
    }

    /// Component 1.
    pub fn y(&self) -> (ret: T)
        ensures
            ret == self.1,
    {
        self.1
    }

    /// Writes `value` into component 1.
    pub fn set_y(&mut self, value: T)
        ensures
            *final(self) == V2(old(self).0, value),
    {
        self.1 = value;
    }

    /// Components 0, 0, in that order.
    pub fn xx(&self) -> (ret: V2<T>)
        ensures
            ret == V2(self.0, self.0),
    {
        V2(self.0, self.0)
    }

    /// Components 0, 1, in that order.
    pub fn xy(&self) -> (ret: V2<T>)
        ensures
            ret == V2(self.0, self.1),
    {
        V2(self.0, self.1)
    }

    /// Writes the components of `value` into components 0, 1, in
    /// that order.
    pub fn set_xy(&mut self, value: V2<T>)
        ensures
            *final(self) == V2(value.0, value.1),
    {
        self.0 = value.0;
        self.1 = value.1;
    }

    /// Components 1, 0, in that order.
    pub fn yx(&self) -> (ret: V2<T>)
        ensures
            ret == V2(self.1, self.0),
    {
        V2(self.1, self.0)
    }

    /// Writes the components of `value` into components 1, 0, in
    /// that order.
    pub fn set_yx(&mut self, value: V2<T>)
        ensures
            *final(self) == V2(value.1, value.0),
    {
        self.1 = value.0;
        self.0 = value.1;
    }

    /// Components 1, 1, in that order.
    pub fn yy(&self) -> (ret: V2<T>)
        ensures
            ret == V2(self.1, self.1),
    {
        V2(self.1, self.1)
    }

    /// Component 0.
    pub fn r(&self) -> (ret: T)
        ensures
            ret == self.0,
    {
        self.0
    }

    /// Writes `value` into component 0.
    pub fn set_r(&mut self, value: T)
        ensures
            *final(self) == V2(value, old(self).1),
    {
        self.0 = value;
    }

    /// Component 1.
    pub fn g(&self) -> (ret: T)
        ensures
            ret == self.1,
    {
        self.1
    }

    /// Writes `value` into component 1.
    pub fn set_g(&mut self, value: T)
        ensures
            *final(self) == V2(old(self).0, value),
    {
        self.1 = value;
    }

    /// Components 0, 0, in that order.
    pub fn rr(&self) -> (ret: V2<T>)
        ensures
            ret == V2(self.0, self.0),
    {
        V2(self.0, self.0)
    }

    /// Components 0, 1, in that order.
    pub fn rg(&self) -> (ret: V2<T>)
        ensures
            ret == V2(self.0, self.1),
    {
        V2(self.0, self.1)
    }

    /// Writes the components of `value` into components 0, 1, in
    /// that order.
    pub fn set_rg(&mut self, value: V2<T>)
        ensures
            *final(self) == V2(value.0, value.1),
    {
        self.0 = value.0;
        self.1 = value.1;
    }

    /// Components 1, 0, in that order.
    pub fn gr(&self) -> (ret: V2<T>)
        ensures
            ret == V2(self.1, self.0),
    {
        V2(self.1, self.0)
    }

    /// Writes the components of `value` into components 1, 0, in
    /// that order.
    pub fn set_gr(&mut self, value: V2<T>)
        ensures
            *final(self) == V2(value.1, value.0),
    {
        self.1 = value.0;
        self.0 = value.1;
    }

    /// Components 1, 1, in that order.
    pub fn gg(&self) -> (ret: V2<T>)
        ensures
            ret == V2(self.1, self.1),
    {
        V2(self.1, self.1)
    }

    /// Component 0.
    pub fn s(&self) -> (ret: T)
        ensures
            ret == self.0,
    {
        self.0
    }

    /// Writes `value` into component 0.
    pub fn set_s(&mut self, value: T)
        ensures
            *final(self) == V2(value, old(self).1),
    {
        self.0 = value;
    }

    /// Component 1.
    pub fn t(&self) -> (ret: T)
        ensures
            ret == self.1,
    {
        self.1
    }

    /// Writes `value` into component 1.
    pub fn set_t(&mut self, value: T)
        ensures
            *final(self) == V2(old(self).0, value),
    {
        self.1 = value;
    }

    /// Components 0, 0, in that order.
    pub fn ss(&self) -> (ret: V2<T>)
        ensures
            ret == V2(self.0, self.0),
    {
        V2(self.0, self.0)
    }

    /// Components 0, 1, in that order.
    pub fn st(&self) -> (ret: V2<T>)
        ensures
            ret == V2(self.0, self.1),
    {
        V2(self.0, self.1)
    }

    /// Writes the components of `value` into components 0, 1, in
    /// that order.
    pub fn set_st(&mut self, value: V2<T>)
        ensures
            *final(self) == V2(value.0, value.1),
    {
        self.0 = value.0;
        self.1 = value.1;
    }

    /// Components 1, 0, in that order.
    pub fn ts(&self) -> (ret: V2<T>)
        ensures
            ret == V2(self.1, self.0),
    {
        V2(self.1, self.0)
    }

    /// Writes the components of `value` into components 1, 0, in
    /// that order.
    pub fn set_ts(&mut self, value: V2<T>)
        ensures
            *final(self) == V2(value.1, value.0),
    {
        self.1 = value.0;
        self.0 = value.1;
    }

    /// Components 1, 1, in that order.
    pub fn tt(&self) -> (ret: V2<T>)
        ensures
            ret == V2(self.1, self.1),
    {
        V2(self.1, self.1)
    }
}

impl<T: Copy> V3<T> {
    /// Component 0.
    pub fn x(&self) -> (ret: T)
        ensures
            ret == self.0,
    {
        self.0
    }

    /// Writes `value` into component 0.
    pub fn set_x(&mut self, value: T)
        ensures
            *final(self) == V3(value, old(self).1, old(self).2),
    {
        self.0 = value;
    }

    /// Component 1.
    pub fn y(&self) -> (ret: T)
        ensures
            ret == self.1,
    {
        self.1
    }

    /// Writes `value` into component 1.
    pub fn set_y(&mut self, value: T)
        ensures
            *final(self) == V3(old(self).0, value, old(self).2),
    {
        self.1 = value;
    }

    /// Component 2.
    pub fn z(&self) -> (ret: T)
        ensures
            ret == self.2,
    {
        self.2
    }

    /// Writes `value` into component 2.
    pub fn set_z(&mut self, value: T)
        ensures
            *final(self) == V3(old(self).0, old(self).1, value),
    {
        self.2 = value;
    }

    /// Components 0, 0, in that order.
    pub fn xx(&self) -> (ret: V2<T>)
        ensures
            ret == V2(self.0, self.0),
    {
        V2(self.0, self.0)
    }

    /// Components 0, 1, in that order.
    pub fn xy(&self) -> (ret: V2<T>)
        ensures
            ret == V2(self.0, self.1),
    {
        V2(self.0, self.1)
    }

    /// Writes the components of `value` into components 0, 1, in
    /// that order.
    pub fn set_xy(&mut self, value: V2<T>)
        ensures
            *final(self) == V3(value.0, value.1, old(self).2),
    {
        self.0 = value.0;
        self.1 = value.1;
    }

    /// Components 0, 2, in that order.
    pub fn xz(&self) -> (ret: V2<T>)
        ensures
            ret == V2(self.0, self.2),
    {
        V2(self.0, self.2)
    }

    /// Writes the components of `value` into components 0, 2, in
    /// that order.
    pub fn set_xz(&mut self, value: V2<T>)
        ensures
            *final(self) == V3(value.0, old(self).1, value.1),
    {
        self.0 = value.0;
        self.2 = value.1;
    }

    /// Components 1, 0, in that order.
    pub fn yx(&self) -> (ret: V2<T>)
        ensures
            ret == V2(self.1, self.0),
    {
        V2(self.1, self.0)
    }

    /// Writes the components of `value` into components 1, 0, in
    /// that order.
    pub fn set_yx(&mut self, value: V2<T>)
        ensures
            *final(self) == V3(value.1, value.0, old(self).2),
    {
        self.1 = value.0;
        self.0 = value.1;
    }

    /// Components 1, 1, in that order.
    pub fn yy(&self) -> (ret: V2<T>)
        ensures
            ret == V2(self.1, self.1),
    {
        V2(self.1, self.1)
    }

    /// Components 1, 2, in that order.
    pub fn yz(&self) -> (ret: V2<T>)
        ensures
            ret == V2(self.1, self.2),
    {
        V2(self.1, self.2)
    }

    /// Writes the components of `value` into components 1, 2, in
    /// that order.
    pub fn set_yz(&mut self, value: V2<T>)
        ensures
            *final(self) == V3(old(self).0, value.0, value.1),
    {
        self.1 = value.0;
        self.2 = value.1;
    }

    /// Components 2, 0, in that order.
    pub fn zx(&self) -> (ret: V2<T>)
        ensures
            ret == V2(self.2, self.0),
    {
        V2(self.2, self.0)
    }

    /// Writes the components of `value` into components 2, 0, in
    /// that order.
    pub fn set_zx(&mut self, value: V2<T>)
        ensures
            *final(self) == V3(value.1, old(self).1, value.0),
    {
        self.2 = value.0;
        self.0 = value.1;
    }

    /// Components 2, 1, in that order.
    pub fn zy(&self) -> (ret: V2<T>)
        ensures
            ret == V2(self.2, self.1),
    {
        V2(self.2, self.1)
    }

    /// Writes the components of `value` into components 2, 1, in
    /// that order.
    pub fn set_zy(&mut self, value: V2<T>)
        ensures
            *final(self) == V3(old(self).0, value.1, value.0),
    {
        self.2 = value.0;
        self.1 = value.1;
    }

    /// Components 2, 2, in that order.
    pub fn zz(&self) -> (ret: V2<T>)
        ensures
            ret == V2(self.2, self.2),
    {
        V2(self.2, self.2)
    }

    /// Components 0, 0, 0, in that order.
    pub fn xxx(&self) -> (ret: V3<T>)
        ensures
            ret == V3(self.0, self.0, self.0),
    {
        V3(self.0, self.0, self.0)
    }

    /// Components 0, 0, 1, in that order.
    pub fn xxy(&self) -> (ret: V3<T>)
        ensures
            ret == V3(self.0, self.0, self.1),
    {
        V3(self.0, self.0, self.1)
    }

    /// Components 0, 0, 2, in that order.
    pub fn xxz(&self) -> (ret: V3<T>)
        ensures
            ret == V3(self.0, self.0, self.2),
    {
        V3(self.0, self.0, self.2)
    }

    /// Components 0, 1, 0, in that order.
    pub fn xyx(&self) -> (ret: V3<T>)
        ensures
            ret == V3(self.0, self.1, self.0),
    {
        V3(self.0, self.1, self.0)
    }

    /// Components 0, 1, 1, in that order.
    pub fn xyy(&self) -> (ret: V3<T>)
        ensures
            ret == V3(self.0, self.1, self.1),
    {
        V3(self.0, self.1, self.1)
    }

    /// Components 0, 1, 2, in that order.
    pub fn xyz(&self) -> (ret: V3<T>)
        ensures
            ret == V3(self.0, self.1, self.2),
    {
        V3(self.0, self.1, self.2)
    }

    /// Writes the components of `value` into components 0, 1, 2, in
    /// that order.
    pub fn set_xyz(&mut self, value: V3<T>)
        ensures
            *final(self) == V3(value.0, value.1, value.2),
    {
        self.0 = value.0;
        self.1 = value.1;
        self.2 = value.2;
    }

    /// Components 0, 2, 0, in that order.
    pub fn xzx(&self) -> (ret: V3<T>)
        ensures
            ret == V3(self.0, self.2, self.0),
    {
        V3(self.0, self.2, self.0)
    }

    /// Components 0, 2, 1, in that order.
    pub fn xzy(&self) -> (ret: V3<T>)
        ensures
            ret == V3(self.0, self.2, self.1),
    {
        V3(self.0, self.2, self.1)
    }

    /// Writes the components of `value` into components 0, 2, 1, in
    /// that order.
    pub fn set_xzy(&mut self, value: V3<T>)
        ensures
            *final(self) == V3(value.0, value.2, value.1),
    {
        self.0 = value.0;
        self.2 = value.1;
        self.1 = value.2;
    }

    /// Components 0, 2, 2, in that order.
    pub fn xzz(&self) -> (ret: V3<T>)
        ensures
            ret == V3(self.0, self.2, self.2),
    {
        V3(self.0, self.2, self.2)
    }

    /// Components 1, 0, 0, in that order.
    pub fn yxx(&self) -> (ret: V3<T>)
        ensures
            ret == V3(self.1, self.0, self.0),
    {
        V3(self.1, self.0, self.0)
    }

    /// Components 1, 0, 1, in that order.
    pub fn yxy(&self) -> (ret: V3<T>)
        ensures
            ret == V3(self.1, self.0, self.1),
    {
        V3(self.1, self.0, self.1)
    }

    /// Components 1, 0, 2, in that order.
    pub fn yxz(&self) -> (ret: V3<T>)
        ensures
            ret == V3(self.1, self.0, self.2),
    {
        V3(self.1, self.0, self.2)
    }

    /// Writes the components of `value` into components 1, 0, 2, in
    /// that order.
    pub fn set_yxz(&mut self, value: V3<T>)
        ensures
            *final(self) == V3(value.1, value.0, value.2),
    {
        self.1 = value.0;
        self.0 = value.1;
        self.2 = value.2;
    }

    /// Components 1, 1, 0, in that order.
    pub fn yyx(&self) -> (ret: V3<T>)
        ensures
            ret == V3(self.1, self.1, self.0),
    {
        V3(self.1, self.1, self.0)
    }

    /// Components 1, 1, 1, in that order.
    pub fn yyy(&self) -> (ret: V3<T>)
        ensures
            ret == V3(self.1, self.1, self.1),
    {
        V3(self.1, self.1, self.1)
    }

    /// Components 1, 1, 2, in that order.
    pub fn yyz(&self) -> (ret: V3<T>)
        ensures
            ret == V3(self.1, self.1, self.2),
    {
        V3(self.1, self.1, self.2)
    }

    /// Components 1, 2, 0, in that order.
    pub fn yzx(&self) -> (ret: V3<T>)
        ensures
            ret == V3(self.1, self.2, self.0),
    {
        V3(self.1, self.2, self.0)
    }

    /// Writes the components of `value` into components 1, 2, 0, in
    /// that order.
    pub fn set_yzx(&mut self, value: V3<T>)
        ensures
            *final(self) == V3(value.2, value.0, value.1),
    {
        self.1 = value.0;
        self.2 = value.1;
        self.0 = value.2;
    }

    /// Components 1, 2, 1, in that order.
    pub fn yzy(&self) -> (ret: V3<T>)
        ensures
            ret == V3(self.1, self.2, self.1),
    {
        V3(self.1, self.2, self.1)
    }

    /// Components 1, 2, 2, in that order.
    pub fn yzz(&self) -> (ret: V3<T>)
        ensures
            ret == V3(self.1, self.2, self.2),
    {
        V3(self.1, self.2, self.2)
    }

    /// Components 2, 0, 0, in that order.
    pub fn zxx(&self) -> (ret: V3<T>)
        ensures
            ret == V3(self.2, self.0, self.0),
    {
        V3(self.2, self.0, self.0)
    }

    /// Components 2, 0, 1, in that order.
    pub fn zxy(&self) -> (ret: V3<T>)
        ensures
            ret == V3(self.2, self.0, self.1),
    {
        V3(self.2, self.0, self.1)
    }

    /// Writes the components of `value` into components 2, 0, 1, in
    /// that order.
    pub fn set_zxy(&mut self, value: V3<T>)
        ensures
            *final(self) == V3(value.1, value.2, value.0),
    {
        self.2 = value.0;
        self.0 = value.1;
        self.1 = value.2;
    }

    /// Components 2, 0, 2, in that order.
    pub fn zxz(&self) -> (ret: V3<T>)
        ensures
            ret == V3(self.2, self.0, self.2),
    {
        V3(self.2, self.0, self.2)
    }

    /// Components 2, 1, 0, in that order.
    pub fn zyx(&self) -> (ret: V3<T>)
        ensures
            ret == V3(self.2, self.1, self.0),
    {
        V3(self.2, self.1, self.0)
    }

    /// Writes the components of `value` into components 2, 1, 0, in
    /// that order.
    pub fn set_zyx(&mut self, value: V3<T>)
        ensures
            *final(self) == V3(value.2, value.1, value.0),
    {
        self.2 = value.0;
        self.1 = value.1;
        self.0 = value.2;
    }

    /// Components 2, 1, 1, in that order.
    pub fn zyy(&self) -> (ret: V3<T>)
        ensures
            ret == V3(self.2, self.1, self.1),
    {
        V3(self.2, self.1, self.1)
    }

    /// Components 2, 1, 2, in that order.
    pub fn zyz(&self) -> (ret: V3<T>)
        ensures
            ret == V3(self.2, self.1, self.2),
    {
        V3(self.2, self.1, self.2)
    }

    /// Components 2, 2, 0, in that order.
    pub fn zzx(&self) -> (ret: V3<T>)
        ensures
            ret == V3(self.2, self.2, self.0),
    {
        V3(self.2, self.2, self.0)
    }

    /// Components 2, 2, 1, in that order.
    pub fn zzy(&self) -> (ret: V3<T>)
        ensures
            ret == V3(self.2, self.2, self.1),
    {
        V3(self.2, self.2, self.1)
    }

    /// Components 2, 2, 2, in that order.
    pub fn zzz(&self) -> (ret: V3<T>)
        ensures
            ret == V3(self.2, self.2, self.2),
    {
        V3(self.2, self.2, self.2)
    }

    /// Component 0.
    pub fn r(&self) -> (ret: T)
        ensures
            ret == self.0,
    {
        self.0
    }

    /// Writes `value` into component 0.
    pub fn set_r(&mut self, value: T)
        ensures
            *final(self) == V3(value, old(self).1, old(self).2),
    {
        self.0 = value;
    }

    /// Component 1.
    pub fn g(&self) -> (ret: T)
        ensures
            ret == self.1,
    {
        self.1
    }

    /// Writes `value` into component 1.
    pub fn set_g(&mut self, value: T)
        ensures
            *final(self) == V3(old(self).0, value, old(self).2),
    {
        self.1 = value;
    }

    /// Component 2.
    pub fn b(&self) -> (ret: T)
        ensures
            ret == self.2,
    {
        self.2
    }

    /// Writes `value` into component 2.
    pub fn set_b(&mut self, value: T)
        ensures
            *final(self) == V3(old(self).0, old(self).1, value),
    {
        self.2 = value;
    }

    /// Components 0, 0, in that order.
    pub fn rr(&self) -> (ret: V2<T>)
        ensures
            ret == V2(self.0, self.0),
    {
        V2(self.0, self.0)
    }

    /// Components 0, 1, in that order.
    pub fn rg(&self) -> (ret: V2<T>)
        ensures
            ret == V2(self.0, self.1),
    {
        V2(self.0, self.1)
    }

    /// Writes the components of `value` into components 0, 1, in
    /// that order.
    pub fn set_rg(&mut self, value: V2<T>)
        ensures
            *final(self) == V3(value.0, value.1, old(self).2),
    {
        self.0 = value.0;
        self.1 = value.1;
    }

    /// Components 0, 2, in that order.
    pub fn rb(&self) -> (ret: V2<T>)
        ensures
            ret == V2(self.0, self.2),
    {
        V2(self.0, self.2)
    }

    /// Writes the components of `value` into components 0, 2, in
    /// that order.
    pub fn set_rb(&mut self, value: V2<T>)
        ensures
            *final(self) == V3(value.0, old(self).1, value.1),
    {
        self.0 = value.0;
        self.2 = value.1;
    }

    /// Components 1, 0, in that order.
    pub fn gr(&self) -> (ret: V2<T>)
        ensures
            ret == V2(self.1, self.0),
    {
        V2(self.1, self.0)
    }

    /// Writes the components of `value` into components 1, 0, in
    /// that order.
    pub fn set_gr(&mut self, value: V2<T>)
        ensures
            *final(self) == V3(value.1, value.0, old(self).2),
    {
        self.1 = value.0;
        self.0 = value.1;
    }

    /// Components 1, 1, in that order.
    pub fn gg(&self) -> (ret: V2<T>)
        ensures
            ret == V2(self.1, self.1),
    {
        V2(self.1, self.1)
    }

    /// Components 1, 2, in that order.
    pub fn gb(&self) -> (ret: V2<T>)
        ensures
            ret == V2(self.1, self.2),
    {
        V2(self.1, self.2)
    }

    /// Writes the components of `value` into components 1, 2, in
    /// that order.
    pub fn set_gb(&mut self, value: V2<T>)
        ensures
            *final(self) == V3(old(self).0, value.0, value.1),
    {
        self.1 = value.0;
        self.2 = value.1;
    }

    /// Components 2, 0, in that order.
    pub fn br(&self) -> (ret: V2<T>)
        ensures
            ret == V2(self.2, self.0),
    {
        V2(self.2, self.0)
    }

    /// Writes the components of `value` into components 2, 0, in
    /// that order.
    pub fn set_br(&mut self, value: V2<T>)
        ensures
            *final(self) == V3(value.1, old(self).1, value.0),
    {
        self.2 = value.0;
        self.0 = value.1;
    }

    /// Components 2, 1, in that order.
    pub fn bg(&self) -> (ret: V2<T>)
        ensures
            ret == V2(self.2, self.1),
    {
        V2(self.2, self.1)
    }

    /// Writes the components of `value` into components 2, 1, in
    /// that order.
    pub fn set_bg(&mut self, value: V2<T>)
        ensures
            *final(self) == V3(old(self).0, value.1, value.0),
    {
        self.2 = value.0;
        self.1 = value.1;
    }

    /// Components 2, 2, in that order.
    pub fn bb(&self) -> (ret: V2<T>)
        ensures
            ret == V2(self.2, self.2),
    {
        V2(self.2, self.2)
    }

    /// Components 0, 0, 0, in that order.
    pub fn rrr(&self) -> (ret: V3<T>)
        ensures
            ret == V3(self.0, self.0, self.0),
    {
        V3(self.0, self.0, self.0)
    }

    /// Components 0, 0, 1, in that order.
    pub fn rrg(&self) -> (ret: V3<T>)
        ensures
            ret == V3(self.0, self.0, self.1),
    {
        V3(self.0, self.0, self.1)
    }

    /// Components 0, 0, 2, in that order.
    pub fn rrb(&self) -> (ret: V3<T>)
        ensures
            ret == V3(self.0, self.0, self.2),
    {
        V3(self.0, self.0, self.2)
    }

    /// Components 0, 1, 0, in that order.
    pub fn rgr(&self) -> (ret: V3<T>)
        ensures
            ret == V3(self.0, self.1, self.0),
    {
        V3(self.0, self.1, self.0)
    }

    /// Components 0, 1, 1, in that order.
    pub fn rgg(&self) -> (ret: V3<T>)
        ensures
            ret == V3(self.0, self.1, self.1),
    {
        V3(self.0, self.1, self.1)
    }

    /// Components 0, 1, 2, in that order.
    pub fn rgb(&self) -> (ret: V3<T>)
        ensures
            ret == V3(self.0, self.1, self.2),
    {
        V3(self.0, self.1, self.2)
    }

    /// Writes the components of `value` into components 0, 1, 2, in
    /// that order.
    pub fn set_rgb(&mut self, value: V3<T>)
        ensures
            *final(self) == V3(value.0, value.1, value.2),
    {
        self.0 = value.0;
        self.1 = value.1;
        self.2 = value.2;
    }

    /// Components 0, 2, 0, in that order.
    pub fn rbr(&self) -> (ret: V3<T>)
        ensures
            ret == V3(self.0, self.2, self.0),
    {
        V3(self.0, self.2, self.0)
    }

    /// Components 0, 2, 1, in that order.
    pub fn rbg(&self) -> (ret: V3<T>)
        ensures
            ret == V3(self.0, self.2, self.1),
    {
        V3(self.0, self.2, self.1)
    }

    /// Writes the components of `value` into components 0, 2, 1, in
    /// that order.
    pub fn set_rbg(&mut self, value: V3<T>)
        ensures
            *final(self) == V3(value.0, value.2, value.1),
    {
        self.0 = value.0;
        self.2 = value.1;
        self.1 = value.2;
    }

    /// Components 0, 2, 2, in that order.
    pub fn rbb(&self) -> (ret: V3<T>)
        ensures
            ret == V3(self.0, self.2, self.2),
    {
        V3(self.0, self.2, self.2)
    }

    /// Components 1, 0, 0, in that order.
    pub fn grr(&self) -> (ret: V3<T>)
        ensures
            ret == V3(self.1, self.0, self.0),
    {
        V3(self.1, self.0, self.0)
    }

    /// Components 1, 0, 1, in that order.
    pub fn grg(&self) -> (ret: V3<T>)
        ensures
            ret == V3(self.1, self.0, self.1),
    {
        V3(self.1, self.0, self.1)
    }

    /// Components 1, 0, 2, in that order.
    pub fn grb(&self) -> (ret: V3<T>)
        ensures
            ret == V3(self.1, self.0, self.2),
    {
        V3(self.1, self.0, self.2)
    }

    /// Writes the components of `value` into components 1, 0, 2, in
    /// that order.
    pub fn set_grb(&mut self, value: V3<T>)
        ensures
            *final(self) == V3(value.1, value.0, value.2),
    {
        self.1 = value.0;
        self.0 = value.1;
        self.2 = value.2;
    }

    /// Components 1, 1, 0, in that order.
    pub fn ggr(&self) -> (ret: V3<T>)
        ensures
            ret == V3(self.1, self.1, self.0),
    {
        V3(self.1, self.1, self.0)
    }

    /// Components 1, 1, 1, in that order.
    pub fn ggg(&self) -> (ret: V3<T>)
        ensures
            ret == V3(self.1, self.1, self.1),
    {
        V3(self.1, self.1, self.1)
    }

    /// Components 1, 1, 2, in that order.
    pub fn ggb(&self) -> (ret: V3<T>)
        ensures
            ret == V3(self.1, self.1, self.2),
    {
        V3(self.1, self.1, self.2)
    }

    /// Components 1, 2, 0, in that order.
    pub fn gbr(&self) -> (ret: V3<T>)
        ensures
            ret == V3(self.1, self.2, self.0),
    {
        V3(self.1, self.2, self.0)
    }

    /// Writes the components of `value` into components 1, 2, 0, in
    /// that order.
    pub fn set_gbr(&mut self, value: V3<T>)
        ensures
            *final(self) == V3(value.2, value.0, value.1),
    {
        self.1 = value.0;
        self.2 = value.1;
        self.0 = value.2;
    }

    /// Components 1, 2, 1, in that order.
    pub fn gbg(&self) -> (ret: V3<T>)
        ensures
            ret == V3(self.1, self.2, self.1),
    {
        V3(self.1, self.2, self.1)
    }

    /// Components 1, 2, 2, in that order.
    pub fn gbb(&self) -> (ret: V3<T>)
        ensures
            ret == V3(self.1, self.2, self.2),
    {
        V3(self.1, self.2, self.2)
    }

    /// Components 2, 0, 0, in that order.
    pub fn brr(&self) -> (ret: V3<T>)
        ensures
            ret == V3(self.2, self.0, self.0),
    {
        V3(self.2, self.0, self.0)
    }

    /// Components 2, 0, 1, in that order.
    pub fn brg(&self) -> (ret: V3<T>)
        ensures
            ret == V3(self.2, self.0, self.1),
    {
        V3(self.2, self.0, self.1)
    }

    /// Writes the components of `value` into components 2, 0, 1, in
    /// that order.
    pub fn set_brg(&mut self, value: V3<T>)
        ensures
            *final(self) == V3(value.1, value.2, value.0),
    {
        self.2 = value.0;
        self.0 = value.1;
        self.1 = value.2;
    }

    /// Components 2, 0, 2, in that order.
    pub fn brb(&self) -> (ret: V3<T>)
        ensures
            ret == V3(self.2, self.0, self.2),
    {
        V3(self.2, self.0, self.2)
    }

    /// Components 2, 1, 0, in that order.
    pub fn bgr(&self) -> (ret: V3<T>)
        ensures
            ret == V3(self.2, self.1, self.0),
    {
        V3(self.2, self.1, self.0)
    }

    /// Writes the components of `value` into components 2, 1, 0, in
    /// that order.
    pub fn set_bgr(&mut self, value: V3<T>)
        ensures
            *final(self) == V3(value.2, value.1, value.0),
    {
        self.2 = value.0;
        self.1 = value.1;
        self.0 = value.2;
    }

    /// Components 2, 1, 1, in that order.
    pub fn bgg(&self) -> (ret: V3<T>)
        ensures
            ret == V3(self.2, self.1, self.1),
    {
        V3(self.2, self.1, self.1)
    }

    /// Components 2, 1, 2, in that order.
    pub fn bgb(&self) -> (ret: V3<T>)
        ensures
            ret == V3(self.2, self.1, self.2),
    {
        V3(self.2, self.1, self.2)
    }

    /// Components 2, 2, 0, in that order.
    pub fn bbr(&self) -> (ret: V3<T>)
        ensures
            ret == V3(self.2, self.2, self.0),
    {
        V3(self.2, self.2, self.0)
    }

    /// Components 2, 2, 1, in that order.
    pub fn bbg(&self) -> (ret: V3<T>)
        ensures
            ret == V3(self.2, self.2, self.1),
    {
        V3(self.2, self.2, self.1)
    }

    /// Components 2, 2, 2, in that order.
    pub fn bbb(&self) -> (ret: V3<T>)
        ensures
            ret == V3(self.2, self.2, self.2),
    {
        V3(self.2, self.2, self.2)
    }

    /// Component 0.
    pub fn s(&self) -> (ret: T)
        ensures
            ret == self.0,
    {
        self.0
    }

    /// Writes `value` into component 0.
    pub fn set_s(&mut self, value: T)
        ensures
            *final(self) == V3(value, old(self).1, old(self).2),
    {
        self.0 = value;
    }

    /// Component 1.
    pub fn t(&self) -> (ret: T)
        ensures
            ret == self.1,
    {
        self.1
    }

    /// Writes `value` into component 1.
    pub fn set_t(&mut self, value: T)
        ensures
            *final(self) == V3(old(self).0, value, old(self).2),
    {
        self.1 = value;
    }

    /// Component 2.
    pub fn p(&self) -> (ret: T)
        ensures
            ret == self.2,
    {
        self.2
    }

    /// Writes `value` into component 2.
    pub fn set_p(&mut self, value: T)
        ensures
            *final(self) == V3(old(self).0, old(self).1, value),
    {
        self.2 = value;
    }

    /// Components 0, 0, in that order.
    pub fn ss(&self) -> (ret: V2<T>)
        ensures
            ret == V2(self.0, self.0),
    {
        V2(self.0, self.0)
    }

    /// Components 0, 1, in that order.
    pub fn st(&self) -> (ret: V2<T>)
        ensures
            ret == V2(self.0, self.1),
    {
        V2(self.0, self.1)
    }

    /// Writes the components of `value` into components 0, 1, in
    /// that order.
    pub fn set_st(&mut self, value: V2<T>)
        ensures
            *final(self) == V3(value.0, value.1, old(self).2),
    {
        self.0 = value.0;
        self.1 = value.1;
    }

    /// Components 0, 2, in that order.
    pub fn sp(&self) -> (ret: V2<T>)
        ensures
            ret == V2(self.0, self.2),
    {
        V2(self.0, self.2)
    }

    /// Writes the components of `value` into components 0, 2, in
    /// that order.
    pub fn set_sp(&mut self, value: V2<T>)
        ensures
            *final(self) == V3(value.0, old(self).1, value.1),
    {
        self.0 = value.0;
        self.2 = value.1;
    }

    /// Components 1, 0, in that order.
    pub fn ts(&self) -> (ret: V2<T>)
        ensures
            ret == V2(self.1, self.0),
    {
        V2(self.1, self.0)
    }

    /// Writes the components of `value` into components 1, 0, in
    /// that order.
    pub fn set_ts(&mut self, value: V2<T>)
        ensures
            *final(self) == V3(value.1, value.0, old(self).2),
    {
        self.1 = value.0;
        self.0 = value.1;
    }

    /// Components 1, 1, in that order.
    pub fn tt(&self) -> (ret: V2<T>)
        ensures
            ret == V2(self.1, self.1),
    {
        V2(self.1, self.1)
    }

    /// Components 1, 2, in that order.
    pub fn tp(&self) -> (ret: V2<T>)
        ensures
            ret == V2(self.1, self.2),
    {
        V2(self.1, self.2)
    }

    /// Writes the components of `value` into components 1, 2, in
    /// that order.
    pub fn set_tp(&mut self, value: V2<T>)
        ensures
            *final(self) == V3(old(self).0, value.0, value.1),
    {
        self.1 = value.0;
        self.2 = value.1;
    }

    /// Components 2, 0, in that order.
    pub fn ps(&self) -> (ret: V2<T>)
        ensures
            ret == V2(self.2, self.0),
    {
        V2(self.2, self.0)
    }

    /// Writes the components of `value` into components 2, 0, in
    /// that order.
    pub fn set_ps(&mut self, value: V2<T>)
        ensures
            *final(self) == V3(value.1, old(self).1, value.0),
    {
        self.2 = value.0;
        self.0 = value.1;
    }

    /// Components 2, 1, in that order.
    pub fn pt(&self) -> (ret: V2<T>)
        ensures
            ret == V2(self.2, self.1),
    {
        V2(self.2, self.1)
    }

    /// Writes the components of `value` into components 2, 1, in
    /// that order.
    pub fn set_pt(&mut self, value: V2<T>)
        ensures
            *final(self) == V3(old(self).0, value.1, value.0),
    {
        self.2 = value.0;
        self.1 = value.1;
    }

    /// Components 2, 2, in that order.
    pub fn pp(&self) -> (ret: V2<T>)
        ensures
            ret == V2(self.2, self.2),
    {
        V2(self.2, self.2)
    }

    /// Components 0, 0, 0, in that order.
    pub fn sss(&self) -> (ret: V3<T>)
        ensures
            ret == V3(self.0, self.0, self.0),
    {
        V3(self.0, self.0, self.0)
    }

    /// Components 0, 0, 1, in that order.
    pub fn sst(&self) -> (ret: V3<T>)
        ensures
            ret == V3(self.0, self.0, self.1),
    {
        V3(self.0, self.0, self.1)
    }

    /// Components 0, 0, 2, in that order.
    pub fn ssp(&self) -> (ret: V3<T>)
        ensures
            ret == V3(self.0, self.0, self.2),
    {
        V3(self.0, self.0, self.2)
    }

    /// Components 0, 1, 0, in that order.
    pub fn sts(&self) -> (ret: V3<T>)
        ensures
            ret == V3(self.0, self.1, self.0),
    {
        V3(self.0, self.1, self.0)
    }

    /// Components 0, 1, 1, in that order.
    pub fn stt(&self) -> (ret: V3<T>)
        ensures
            ret == V3(self.0, self.1, self.1),
    {
        V3(self.0, self.1, self.1)
    }

    /// Components 0, 1, 2, in that order.
    pub fn stp(&self) -> (ret: V3<T>)
        ensures
            ret == V3(self.0, self.1, self.2),
    {
        V3(self.0, self.1, self.2)
    }

    /// Writes the components of `value` into components 0, 1, 2, in
    /// that order.
    pub fn set_stp(&mut self, value: V3<T>)
        ensures
            *final(self) == V3(value.0, value.1, value.2),
    {
        self.0 = value.0;
        self.1 = value.1;
        self.2 = value.2;
    }

    /// Components 0, 2, 0, in that order.
    pub fn sps(&self) -> (ret: V3<T>)
        ensures
            ret == V3(self.0, self.2, self.0),
    {
        V3(self.0, self.2, self.0)
    }

    /// Components 0, 2, 1, in that order.
    pub fn spt(&self) -> (ret: V3<T>)
        ensures
            ret == V3(self.0, self.2, self.1),
    {
        V3(self.0, self.2, self.1)
    }

    /// Writes the components of `value` into components 0, 2, 1, in
    /// that order.
    pub fn set_spt(&mut self, value: V3<T>)
        ensures
            *final(self) == V3(value.0, value.2, value.1),
    {
        self.0 = value.0;
        self.2 = value.1;
        self.1 = value.2;
    }

    /// Components 0, 2, 2, in that order.
    pub fn spp(&self) -> (ret: V3<T>)
        ensures
            ret == V3(self.0, self.2, self.2),
    {
        V3(self.0, self.2, self.2)
    }

    /// Components 1, 0, 0, in that order.
    pub fn tss(&self) -> (ret: V3<T>)
        ensures
            ret == V3(self.1, self.0, self.0),
    {
        V3(self.1, self.0, self.0)
    }

    /// Components 1, 0, 1, in that order.
    pub fn tst(&self) -> (ret: V3<T>)
        ensures
            ret == V3(self.1, self.0, self.1),
    {
        V3(self.1, self.0, self.1)
    }

    /// Components 1, 0, 2, in that order.
    pub fn tsp(&self) -> (ret: V3<T>)
        ensures
            ret == V3(self.1, self.0, self.2),
    {
        V3(self.1, self.0, self.2)
    }

    /// Writes the components of `value` into components 1, 0, 2, in
    /// that order.
    pub fn set_tsp(&mut self, value: V3<T>)
        ensures
            *final(self) == V3(value.1, value.0, value.2),
    {
        self.1 = value.0;
        self.0 = value.1;
        self.2 = value.2;
    }

    /// Components 1, 1, 0, in that order.
    pub fn tts(&self) -> (ret: V3<T>)
        ensures
            ret == V3(self.1, self.1, self.0),
    {
        V3(self.1, self.1, self.0)
    }

    /// Components 1, 1, 1, in that order.
    pub fn ttt(&self) -> (ret: V3<T>)
        ensures
            ret == V3(self.1, self.1, self.1),
    {
        V3(self.1, self.1, self.1)
    }

    /// Components 1, 1, 2, in that order.
    pub fn ttp(&self) -> (ret: V3<T>)
        ensures
            ret == V3(self.1, self.1, self.2),
    {
        V3(self.1, self.1, self.2)
    }

    /// Components 1, 2, 0, in that order.
    pub fn tps(&self) -> (ret: V3<T>)
        ensures
            ret == V3(self.1, self.2, self.0),
    {
        V3(self.1, self.2, self.0)
    }

    /// Writes the components of `value` into components 1, 2, 0, in
    /// that order.
    pub fn set_tps(&mut self, value: V3<T>)
        ensures
            *final(self) == V3(value.2, value.0, value.1),
    {
        self.1 = value.0;
        self.2 = value.1;
        self.0 = value.2;
    }

    /// Components 1, 2, 1, in that order.
    pub fn tpt(&self) -> (ret: V3<T>)
        ensures
            ret == V3(self.1, self.2, self.1),
    {
        V3(self.1, self.2, self.1)
    }

    /// Components 1, 2, 2, in that order.
    pub fn tpp(&self) -> (ret: V3<T>)
        ensures
            ret == V3(self.1, self.2, self.2),
    {
        V3(self.1, self.2, self.2)
    }

    /// Components 2, 0, 0, in that order.
    pub fn pss(&self) -> (ret: V3<T>)
        ensures
            ret == V3(self.2, self.0, self.0),
    {
        V3(self.2, self.0, self.0)
    }

    /// Components 2, 0, 1, in that order.
    pub fn pst(&self) -> (ret: V3<T>)
        ensures
            ret == V3(self.2, self.0, self.1),
    {
        V3(self.2, self.0, self.1)
    }

    /// Writes the components of `value` into components 2, 0, 1, in
    /// that order.
    pub fn set_pst(&mut self, value: V3<T>)
        ensures
            *final(self) == V3(value.1, value.2, value.0),
    {
        self.2 = value.0;
        self.0 = value.1;
        self.1 = value.2;
    }

    /// Components 2, 0, 2, in that order.
    pub fn psp(&self) -> (ret: V3<T>)
        ensures
            ret == V3(self.2, self.0, self.2),
    {
        V3(self.2, self.0, self.2)
    }

    /// Components 2, 1, 0, in that order.
    pub fn pts(&self) -> (ret: V3<T>)
        ensures
            ret == V3(self.2, self.1, self.0),
    {
        V3(self.2, self.1, self.0)
    }

    /// Writes the components of `value` into components 2, 1, 0, in
    /// that order.
    pub fn set_pts(&mut self, value: V3<T>)
        ensures
            *final(self) == V3(value.2, value.1, value.0),
    {
        self.2 = value.0;
        self.1 = value.1;
        self.0 = value.2;
    }

    /// Components 2, 1, 1, in that order.
    pub fn ptt(&self) -> (ret: V3<T>)
        ensures
            ret == V3(self.2, self.1, self.1),
    {
        V3(self.2, self.1, self.1)
    }

    /// Components 2, 1, 2, in that order.
    pub fn ptp(&self) -> (ret: V3<T>)
        ensures
            ret == V3(self.2, self.1, self.2),
    {
        V3(self.2, self.1, self.2)
    }

    /// Components 2, 2, 0, in that order.
    pub fn pps(&self) -> (ret: V3<T>)
        ensures
            ret == V3(self.2, self.2, self.0),
    {
        V3(self.2, self.2, self.0)
    }

    /// Components 2, 2, 1, in that order.
    pub fn ppt(&self) -> (ret: V3<T>)
        ensures
            ret == V3(self.2, self.2, self.1),
    {
        V3(self.2, self.2, self.1)
    }

    /// Components 2, 2, 2, in that order.
    pub fn ppp(&self) -> (ret: V3<T>)
        ensures
            ret == V3(self.2, self.2, self.2),
    {
        V3(self.2, self.2, self.2)
    }
}

impl<T: Copy> V4<T> {
    /// Component 0.
    pub fn x(&self) -> (ret: T)
        ensures
            ret == self.0,
    {
        self.0
    }

    /// Writes `value` into component 0.
    pub fn set_x(&mut self, value: T)
        ensures
            *final(self) == V4(value, old(self).1, old(self).2, old(self).3),
    {
        self.0 = value;
    }

    /// Component 1.
    pub fn y(&self) -> (ret: T)
        ensures
            ret == self.1,
    {
        self.1
    }

    /// Writes `value` into component 1.
    pub fn set_y(&mut self, value: T)
        ensures
            *final(self) == V4(old(self).0, value, old(self).2, old(self).3),
    {
        self.1 = value;
    }

    /// Component 2.
    pub fn z(&self) -> (ret: T)
        ensures
            ret == self.2,
    {
        self.2
    }

    /// Writes `value` into component 2.
    pub fn set_z(&mut self, value: T)
        ensures
            *final(self) == V4(old(self).0, old(self).1, value, old(self).3),
    {
        self.2 = value;
    }

    /// Component 3.
    pub fn w(&self) -> (ret: T)
        ensures
            ret == self.3,
    {
        self.3
    }

    /// Writes `value` into component 3.
    pub fn set_w(&mut self, value: T)
        ensures
            *final(self) == V4(old(self).0, old(self).1, old(self).2, value),
    {
        self.3 = value;
    }

    /// Components 0, 0, in that order.
    pub fn xx(&self) -> (ret: V2<T>)
        ensures
            ret == V2(self.0, self.0),
    {
        V2(self.0, self.0)
    }

    /// Components 0, 1, in that order.
    pub fn xy(&self) -> (ret: V2<T>)
        ensures
            ret == V2(self.0, self.1),
    {
        V2(self.0, self.1)
    }

    /// Writes the components of `value` into components 0, 1, in
    /// that order.
    pub fn set_xy(&mut self, value: V2<T>)
        ensures
            *final(self) == V4(value.0, value.1, old(self).2, old(self).3),
    {
        self.0 = value.0;
        self.1 = value.1;
    }

    /// Components 0, 2, in that order.
    pub fn xz(&self) -> (ret: V2<T>)
        ensures
            ret == V2(self.0, self.2),
    {
        V2(self.0, self.2)
    }

    /// Writes the components of `value` into components 0, 2, in
    /// that order.
    pub fn set_xz(&mut self, value: V2<T>)
        ensures
            *final(self) == V4(value.0, old(self).1, value.1, old(self).3),
    {
        self.0 = value.0;
        self.2 = value.1;
    }

    /// Components 0, 3, in that order.
    pub fn xw(&self) -> (ret: V2<T>)
        ensures
            ret == V2(self.0, self.3),
    {
        V2(self.0, self.3)
    }

    /// Writes the components of `value` into components 0, 3, in
    /// that order.
    pub fn set_xw(&mut self, value: V2<T>)
        ensures
            *final(self) == V4(value.0, old(self).1, old(self).2, value.1),
    {
        self.0 = value.0;
        self.3 = value.1;
    }

    /// Components 1, 0, in that order.
    pub fn yx(&self) -> (ret: V2<T>)
        ensures
            ret == V2(self.1, self.0),
    {
        V2(self.1, self.0)
    }

    /// Writes the components of `value` into components 1, 0, in
    /// that order.
    pub fn set_yx(&mut self, value: V2<T>)
        ensures
            *final(self) == V4(value.1, value.0, old(self).2, old(self).3),
    {
        self.1 = value.0;
        self.0 = value.1;
    }

    /// Components 1, 1, in that order.
    pub fn yy(&self) -> (ret: V2<T>)
        ensures
            ret == V2(self.1, self.1),
    {
        V2(self.1, self.1)
    }

    /// Components 1, 2, in that order.
    pub fn yz(&self) -> (ret: V2<T>)
        ensures
            ret == V2(self.1, self.2),
    {
        V2(self.1, self.2)
    }

    /// Writes the components of `value` into components 1, 2, in
    /// that order.
    pub fn set_yz(&mut self, value: V2<T>)
        ensures
            *final(self) == V4(old(self).0, value.0, value.1, old(self).3),
    {
        self.1 = value.0;
        self.2 = value.1;
    }

    /// Components 1, 3, in that order.
    pub fn yw(&self) -> (ret: V2<T>)
        ensures
            ret == V2(self.1, self.3),
    {
        V2(self.1, self.3)
    }

    /// Writes the components of `value` into components 1, 3, in
    /// that order.
    pub fn set_yw(&mut self, value: V2<T>)
        ensures
            *final(self) == V4(old(self).0, value.0, old(self).2, value.1),
    {
        self.1 = value.0;
        self.3 = value.1;
    }

    /// Components 2, 0, in that order.
    pub fn zx(&self) -> (ret: V2<T>)
        ensures
            ret == V2(self.2, self.0),
    {
        V2(self.2, self.0)
    }

    /// Writes the components of `value` into components 2, 0, in
    /// that order.
    pub fn set_zx(&mut self, value: V2<T>)
        ensures
            *final(self) == V4(value.1, old(self).1, value.0, old(self).3),
    {
        self.2 = value.0;
        self.0 = value.1;
    }

    /// Components 2, 1, in that order.
    pub fn zy(&self) -> (ret: V2<T>)
        ensures
            ret == V2(self.2, self.1),
    {
        V2(self.2, self.1)
    }

    /// Writes the components of `value` into components 2, 1, in
    /// that order.
    pub fn set_zy(&mut self, value: V2<T>)
        ensures
            *final(self) == V4(old(self).0, value.1, value.0, old(self).3),
    {
        self.2 = value.0;
        self.1 = value.1;
    }

    /// Components 2, 2, in that order.
    pub fn zz(&self) -> (ret: V2<T>)
        ensures
            ret == V2(self.2, self.2),
    {
        V2(self.2, self.2)
    }

    /// Components 2, 3, in that order.
    pub fn zw(&self) -> (ret: V2<T>)
        ensures
            ret == V2(self.2, self.3),
    {
        V2(self.2, self.3)
    }

    /// Writes the components of `value` into components 2, 3, in
    /// that order.
    pub fn set_zw(&mut self, value: V2<T>)
        ensures
            *final(self) == V4(old(self).0, old(self).1, value.0, value.1),
    {
        self.2 = value.0;
        self.3 = value.1;
    }

    /// Components 3, 0, in that order.
    pub fn wx(&self) -> (ret: V2<T>)
        ensures
            ret == V2(self.3, self.0),
    {
        V2(self.3, self.0)
    }

    /// Writes the components of `value` into components 3, 0, in
    /// that order.
    pub fn set_wx(&mut self, value: V2<T>)
        ensures
            *final(self) == V4(value.1, old(self).1, old(self).2, value.0),
    {
        self.3 = value.0;
        self.0 = value.1;
    }

    /// Components 3, 1, in that order.
    pub fn wy(&self) -> (ret: V2<T>)
        ensures
            ret == V2(self.3, self.1),
    {
        V2(self.3, self.1)
    }

    /// Writes the components of `value` into components 3, 1, in
    /// that order.
    pub fn set_wy(&mut self, value: V2<T>)
        ensures
            *final(self) == V4(old(self).0, value.1, old(self).2, value.0),
    {
        self.3 = value.0;
        self.1 = value.1;
    }

    /// Components 3, 2, in that order.
    pub fn wz(&self) -> (ret: V2<T>)
        ensures
            ret == V2(self.3, self.2),
    {
        V2(self.3, self.2)
    }

    /// Writes the components of `value` into components 3, 2, in
    /// that order.
    pub fn set_wz(&mut self, value: V2<T>)
        ensures
            *final(self) == V4(old(self).0, old(self).1, value.1, value.0),
    {
        self.3 = value.0;
        self.2 = value.1;
    }

    /// Components 3, 3, in that order.
    pub fn ww(&self) -> (ret: V2<T>)
        ensures
            ret == V2(self.3, self.3),
    {
        V2(self.3, self.3)
    }

    /// Components 0, 0, 0, in that order.
    pub fn xxx(&self) -> (ret: V3<T>)
        ensures
            ret == V3(self.0, self.0, self.0),
    {
        V3(self.0, self.0, self.0)
    }

    /// Components 0, 0, 1, in that order.
    pub fn xxy(&self) -> (ret: V3<T>)
        ensures
            ret == V3(self.0, self.0, self.1),
    {
        V3(self.0, self.0, self.1)
    }

    /// Components 0, 0, 2, in that order.
    pub fn xxz(&self) -> (ret: V3<T>)
        ensures
            ret == V3(self.0, self.0, self.2),
    {
        V3(self.0, self.0, self.2)
    }

    /// Components 0, 0, 3, in that order.
    pub fn xxw(&self) -> (ret: V3<T>)
        ensures
            ret == V3(self.0, self.0, self.3),
    {
        V3(self.0, self.0, self.3)
    }

    /// Components 0, 1, 0, in that order.
    pub fn xyx(&self) -> (ret: V3<T>)
        ensures
            ret == V3(self.0, self.1, self.0),
    {
        V3(self.0, self.1, self.0)
    }

    /// Components 0, 1, 1, in that order.
    pub fn xyy(&self) -> (ret: V3<T>)
        ensures
            ret == V3(self.0, self.1, self.1),
    {
        V3(self.0, self.1, self.1)
    }

    /// Components 0, 1, 2, in that order.
    pub fn xyz(&self) -> (ret: V3<T>)
        ensures
            ret == V3(self.0, self.1, self.2),
    {
        V3(self.0, self.1, self.2)
    }

    /// Writes the components of `value` into components 0, 1, 2, in
    /// that order.
    pub fn set_xyz(&mut self, value: V3<T>)
        ensures
            *final(self) == V4(value.0, value.1, value.2, old(self).3),
    {
        self.0 = value.0;
        self.1 = value.1;
        self.2 = value.2;
    }

    /// Components 0, 1, 3, in that order.
    pub fn xyw(&self) -> (ret: V3<T>)
        ensures
            ret == V3(self.0, self.1, self.3),
    {
        V3(self.0, self.1, self.3)
    }

    /// Writes the components of `value` into components 0, 1, 3, in
    /// that order.
    pub fn set_xyw(&mut self, value: V3<T>)
        ensures
            *final(self) == V4(value.0, value.1, old(self).2, value.2),
    {
        self.0 = value.0;
        self.1 = value.1;
        self.3 = value.2;
    }

    /// Components 0, 2, 0, in that order.
    pub fn xzx(&self) -> (ret: V3<T>)
        ensures
            ret == V3(self.0, self.2, self.0),
    {
        V3(self.0, self.2, self.0)
    }

    /// Components 0, 2, 1, in that order.
    pub fn xzy(&self) -> (ret: V3<T>)
        ensures
            ret == V3(self.0, self.2, self.1),
    {
        V3(self.0, self.2, self.1)
    }

    /// Writes the components of `value` into components 0, 2, 1, in
    /// that order.
    pub fn set_xzy(&mut self, value: V3<T>)
        ensures
            *final(self) == V4(value.0, value.2, value.1, old(self).3),
    {
        self.0 = value.0;
        self.2 = value.1;
        self.1 = value.2;
    }

    /// Components 0, 2, 2, in that order.
    pub fn xzz(&self) -> (ret: V3<T>)
        ensures
            ret == V3(self.0, self.2, self.2),
    {
        V3(self.0, self.2, self.2)
    }

    /// Components 0, 2, 3, in that order.
    pub fn xzw(&self) -> (ret: V3<T>)
        ensures
            ret == V3(self.0, self.2, self.3),
    {
        V3(self.0, self.2, self.3)
    }

    /// Writes the components of `value` into components 0, 2, 3, in
    /// that order.
    pub fn set_xzw(&mut self, value: V3<T>)
        ensures
            *final(self) == V4(value.0, old(self).1, value.1, value.2),
    {
        self.0 = value.0;
        self.2 = value.1;
        self.3 = value.2;
    }

    /// Components 0, 3, 0, in that order.
    pub fn xwx(&self) -> (ret: V3<T>)
        ensures
            ret == V3(self.0, self.3, self.0),
    {
        V3(self.0, self.3, self.0)
    }

    /// Components 0, 3, 1, in that order.
    pub fn xwy(&self) -> (ret: V3<T>)
        ensures
            ret == V3(self.0, self.3, self.1),
    {
        V3(self.0, self.3, self.1)
    }

    /// Writes the components of `value` into components 0, 3, 1, in
    /// that order.
    pub fn set_xwy(&mut self, value: V3<T>)
        ensures
            *final(self) == V4(value.0, value.2, old(self).2, value.1),
    {
        self.0 = value.0;
        self.3 = value.1;
        self.1 = value.2;
    }

    /// Components 0, 3, 2, in that order.
    pub fn xwz(&self) -> (ret: V3<T>)
        ensures
            ret == V3(self.0, self.3, self.2),
    {
        V3(self.0, self.3, self.2)
    }

    /// Writes the components of `value` into components 0, 3, 2, in
    /// that order.
    pub fn set_xwz(&mut self, value: V3<T>)
        ensures
            *final(self) == V4(value.0, old(self).1, value.2, value.1),
    {
        self.0 = value.0;
        self.3 = value.1;
        self.2 = value.2;
    }

    /// Components 0, 3, 3, in that order.
    pub fn xww(&self) -> (ret: V3<T>)
        ensures
            ret == V3(self.0, self.3, self.3),
    {
        V3(self.0, self.3, self.3)
    }

    /// Components 1, 0, 0, in that order.
    pub fn yxx(&self) -> (ret: V3<T>)
        ensures
            ret == V3(self.1, self.0, self.0),
    {
        V3(self.1, self.0, self.0)
    }

    /// Components 1, 0, 1, in that order.
    pub fn yxy(&self) -> (ret: V3<T>)
        ensures
            ret == V3(self.1, self.0, self.1),
    {
        V3(self.1, self.0, self.1)
    }

    /// Components 1, 0, 2, in that order.
    pub fn yxz(&self) -> (ret: V3<T>)
        ensures
            ret == V3(self.1, self.0, self.2),
    {
        V3(self.1, self.0, self.2)
    }

    /// Writes the components of `value` into components 1, 0, 2, in
    /// that order.
    pub fn set_yxz(&mut self, value: V3<T>)
        ensures
            *final(self) == V4(value.1, value.0, value.2, old(self).3),
    {
        self.1 = value.0;
        self.0 = value.1;
        self.2 = value.2;
    }

    /// Components 1, 0, 3, in that order.
    pub fn yxw(&self) -> (ret: V3<T>)
        ensures
            ret == V3(self.1, self.0, self.3),
    {
        V3(self.1, self.0, self.3)
    }

    /// Writes the components of `value` into components 1, 0, 3, in
    /// that order.
    pub fn set_yxw(&mut self, value: V3<T>)
        ensures
            *final(self) == V4(value.1, value.0, old(self).2, value.2),
    {
        self.1 = value.0;
        self.0 = value.1;
        self.3 = value.2;
    }

    /// Components 1, 1, 0, in that order.
    pub fn yyx(&self) -> (ret: V3<T>)
        ensures
            ret == V3(self.1, self.1, self.0),
    {
        V3(self.1, self.1, self.0)
    }

    /// Components 1, 1, 1, in that order.
    pub fn yyy(&self) -> (ret: V3<T>)
        ensures
            ret == V3(self.1, self.1, self.1),
    {
        V3(self.1, self.1, self.1)
    }

    /// Components 1, 1, 2, in that order.
    pub fn yyz(&self) -> (ret: V3<T>)
        ensures
            ret == V3(self.1, self.1, self.2),
    {
        V3(self.1, self.1, self.2)
    }

    /// Components 1, 1, 3, in that order.
    pub fn yyw(&self) -> (ret: V3<T>)
        ensures
            ret == V3(self.1, self.1, self.3),
    {
        V3(self.1, self.1, self.3)
    }

    /// Components 1, 2, 0, in that order.
    pub fn yzx(&self) -> (ret: V3<T>)
        ensures
            ret == V3(self.1, self.2, self.0),
    {
        V3(self.1, self.2, self.0)
    }

    /// Writes the components of `value` into components 1, 2, 0, in
    /// that order.
    pub fn set_yzx(&mut self, value: V3<T>)
        ensures
            *final(self) == V4(value.2, value.0, value.1, old(self).3),
    {
        self.1 = value.0;
        self.2 = value.1;
        self.0 = value.2;
    }

    /// Components 1, 2, 1, in that order.
    pub fn yzy(&self) -> (ret: V3<T>)
        ensures
            ret == V3(self.1, self.2, self.1),
    {
        V3(self.1, self.2, self.1)
    }

    /// Components 1, 2, 2, in that order.
    pub fn yzz(&self) -> (ret: V3<T>)
        ensures
            ret == V3(self.1, self.2, self.2),
    {
        V3(self.1, self.2, self.2)
    }

    /// Components 1, 2, 3, in that order.
    pub fn yzw(&self) -> (ret: V3<T>)
        ensures
            ret == V3(self.1, self.2, self.3),
    {
        V3(self.1, self.2, self.3)
    }

    /// Writes the components of `value` into components 1, 2, 3, in
    /// that order.
    pub fn set_yzw(&mut self, value: V3<T>)
        ensures
            *final(self) == V4(old(self).0, value.0, value.1, value.2),
    {
        self.1 = value.0;
        self.2 = value.1;
        self.3 = value.2;
    }

    /// Components 1, 3, 0, in that order.
    pub fn ywx(&self) -> (ret: V3<T>)
        ensures
            ret == V3(self.1, self.3, self.0),
    {
        V3(self.1, self.3, self.0)
    }

    /// Writes the components of `value` into components 1, 3, 0, in
    /// that order.
    pub fn set_ywx(&mut self, value: V3<T>)
        ensures
            *final(self) == V4(value.2, value.0, old(self).2, value.1),
    {
        self.1 = value.0;
        self.3 = value.1;
        self.0 = value.2;
    }

    /// Components 1, 3, 1, in that order.
    pub fn ywy(&self) -> (ret: V3<T>)
        ensures
            ret == V3(self.1, self.3, self.1),
    {
        V3(self.1, self.3, self.1)
    }

    /// Components 1, 3, 2, in that order.
    pub fn ywz(&self) -> (ret: V3<T>)
        ensures
            ret == V3(self.1, self.3, self.2),
    {
        V3(self.1, self.3, self.2)
    }

    /// Writes the components of `value` into components 1, 3, 2, in
    /// that order.
    pub fn set_ywz(&mut self, value: V3<T>)
        ensures
            *final(self) == V4(old(self).0, value.0, value.2, value.1),
    {
        self.1 = value.0;
        self.3 = value.1;
        self.2 = value.2;
    }

    /// Components 1, 3, 3, in that order.
    pub fn yww(&self) -> (ret: V3<T>)
        ensures
            ret == V3(self.1, self.3, self.3),
    {
        V3(self.1, self.3, self.3)
    }

    /// Components 2, 0, 0, in that order.
    pub fn zxx(&self) -> (ret: V3<T>)
        ensures
            ret == V3(self.2, self.0, self.0),
    {
        V3(self.2, self.0, self.0)
    }

    /// Components 2, 0, 1, in that order.
    pub fn zxy(&self) -> (ret: V3<T>)
        ensures
            ret == V3(self.2, self.0, self.1),
    {
        V3(self.2, self.0, self.1)
    }

    /// Writes the components of `value` into components 2, 0, 1, in
    /// that order.
    pub fn set_zxy(&mut self, value: V3<T>)
        ensures
            *final(self) == V4(value.1, value.2, value.0, old(self).3),
    {
        self.2 = value.0;
        self.0 = value.1;
        self.1 = value.2;
    }

    /// Components 2, 0, 2, in that order.
    pub fn zxz(&self) -> (ret: V3<T>)
        ensures
            ret == V3(self.2, self.0, self.2),
    {
        V3(self.2, self.0, self.2)
    }

    /// Components 2, 0, 3, in that order.
    pub fn zxw(&self) -> (ret: V3<T>)
        ensures
            ret == V3(self.2, self.0, self.3),
    {
        V3(self.2, self.0, self.3)
    }

    /// Writes the components of `value` into components 2, 0, 3, in
    /// that order.
    pub fn set_zxw(&mut self, value: V3<T>)
        ensures
            *final(self) == V4(value.1, old(self).1, value.0, value.2),
    {
        self.2 = value.0;
        self.0 = value.1;
        self.3 = value.2;
    }

    /// Components 2, 1, 0, in that order.
    pub fn zyx(&self) -> (ret: V3<T>)
        ensures
            ret == V3(self.2, self.1, self.0),
    {
        V3(self.2, self.1, self.0)
    }

    /// Writes the components of `value` into components 2, 1, 0, in
    /// that order.
    pub fn set_zyx(&mut self, value: V3<T>)
        ensures
            *final(self) == V4(value.2, value.1, value.0, old(self).3),
    {
        self.2 = value.0;
        self.1 = value.1;
        self.0 = value.2;
    }

    /// Components 2, 1, 1, in that order.
    pub fn zyy(&self) -> (ret: V3<T>)
        ensures
            ret == V3(self.2, self.1, self.1),
    {
        V3(self.2, self.1, self.1)
    }

    /// Components 2, 1, 2, in that order.
    pub fn zyz(&self) -> (ret: V3<T>)
        ensures
            ret == V3(self.2, self.1, self.2),
    {
        V3(self.2, self.1, self.2)
    }

    /// Components 2, 1, 3, in that order.
    pub fn zyw(&self) -> (ret: V3<T>)
        ensures
            ret == V3(self.2, self.1, self.3),
    {
        V3(self.2, self.1, self.3)
    }

    /// Writes the components of `value` into components 2, 1, 3, in
    /// that order.
    pub fn set_zyw(&mut self, value: V3<T>)
        ensures
            *final(self) == V4(old(self).0, value.1, value.0, value.2),
    {
        self.2 = value.0;
        self.1 = value.1;
        self.3 = value.2;
    }

    /// Components 2, 2, 0, in that order.
    pub fn zzx(&self) -> (ret: V3<T>)
        ensures
            ret == V3(self.2, self.2, self.0),
    {
        V3(self.2, self.2, self.0)
    }

    /// Components 2, 2, 1, in that order.
    pub fn zzy(&self) -> (ret: V3<T>)
        ensures
            ret == V3(self.2, self.2, self.1),
    {
        V3(self.2, self.2, self.1)
    }

    /// Components 2, 2, 2, in that order.
    pub fn zzz(&self) -> (ret: V3<T>)
        ensures
            ret == V3(self.2, self.2, self.2),
    {
        V3(self.2, self.2, self.2)
    }

    /// Components 2, 2, 3, in that order.
    pub fn zzw(&self) -> (ret: V3<T>)
        ensures
            ret == V3(self.2, self.2, self.3),
    {
        V3(self.2, self.2, self.3)
    }

    /// Components 2, 3, 0, in that order.
    pub fn zwx(&self) -> (ret: V3<T>)
        ensures
            ret == V3(self.2, self.3, self.0),
    {
        V3(self.2, self.3, self.0)
    }

    /// Writes the components of `value` into components 2, 3, 0, in
    /// that order.
    pub fn set_zwx(&mut self, value: V3<T>)
        ensures
            *final(self) == V4(value.2, old(self).1, value.0, value.1),
    {
        self.2 = value.0;
        self.3 = value.1;
        self.0 = value.2;
    }

    /// Components 2, 3, 1, in that order.
    pub fn zwy(&self) -> (ret: V3<T>)
        ensures
            ret == V3(self.2, self.3, self.1),
    {
        V3(self.2, self.3, self.1)
    }

    /// Writes the components of `value` into components 2, 3, 1, in
    /// that order.
    pub fn set_zwy(&mut self, value: V3<T>)
        ensures
            *final(self) == V4(old(self).0, value.2, value.0, value.1),
    {
        self.2 = value.0;
        self.3 = value.1;
        self.1 = value.2;
    }

    /// Components 2, 3, 2, in that order.
    pub fn zwz(&self) -> (ret: V3<T>)
        ensures
            ret == V3(self.2, self.3, self.2),
    {
        V3(self.2, self.3, self.2)
    }

    /// Components 2, 3, 3, in that order.
    pub fn zww(&self) -> (ret: V3<T>)
        ensures
            ret == V3(self.2, self.3, self.3),
    {
        V3(self.2, self.3, self.3)
    }

    /// Components 3, 0, 0, in that order.
    pub fn wxx(&self) -> (ret: V3<T>)
        ensures
            ret == V3(self.3, self.0, self.0),
    {
        V3(self.3, self.0, self.0)
    }

    /// Components 3, 0, 1, in that order.
    pub fn wxy(&self) -> (ret: V3<T>)
        ensures
            ret == V3(self.3, self.0, self.1),
    {
        V3(self.3, self.0, self.1)
    }

    /// Writes the components of `value` into components 3, 0, 1, in
    /// that order.
    pub fn set_wxy(&mut self, value: V3<T>)
        ensures
            *final(self) == V4(value.1, value.2, old(self).2, value.0),
    {
        self.3 = value.0;
        self.0 = value.1;
        self.1 = value.2;
    }

    /// Components 3, 0, 2, in that order.
    pub fn wxz(&self) -> (ret: V3<T>)
        ensures
            ret == V3(self.3, self.0, self.2),
    {
        V3(self.3, self.0, self.2)
    }

    /// Writes the components of `value` into components 3, 0, 2, in
    /// that order.
    pub fn set_wxz(&mut self, value: V3<T>)
        ensures
            *final(self) == V4(value.1, old(self).1, value.2, value.0),
    {
        self.3 = value.0;
        self.0 = value.1;
        self.2 = value.2;
    }

    /// Components 3, 0, 3, in that order.
    pub fn wxw(&self) -> (ret: V3<T>)
        ensures
            ret == V3(self.3, self.0, self.3),
    {
        V3(self.3, self.0, self.3)
    }

    /// Components 3, 1, 0, in that order.
    pub fn wyx(&self) -> (ret: V3<T>)
        ensures
            ret == V3(self.3, self.1, self.0),
    {
        V3(self.3, self.1, self.0)
    }

    /// Writes the components of `value` into components 3, 1, 0, in
    /// that order.
    pub fn set_wyx(&mut self, value: V3<T>)
        ensures
            *final(self) == V4(value.2, value.1, old(self).2, value.0),
    {
        self.3 = value.0;
        self.1 = value.1;
        self.0 = value.2;
    }

    /// Components 3, 1, 1, in that order.
    pub fn wyy(&self) -> (ret: V3<T>)
        ensures
            ret == V3(self.3, self.1, self.1),
    {
        V3(self.3, self.1, self.1)
    }

    /// Components 3, 1, 2, in that order.
    pub fn wyz(&self) -> (ret: V3<T>)
        ensures
            ret == V3(self.3, self.1, self.2),
    {
        V3(self.3, self.1, self.2)
    }

    /// Writes the components of `value` into components 3, 1, 2, in
    /// that order.
    pub fn set_wyz(&mut self, value: V3<T>)
        ensures
            *final(self) == V4(old(self).0, value.1, value.2, value.0),
    {
        self.3 = value.0;
        self.1 = value.1;
        self.2 = value.2;
    }

    /// Components 3, 1, 3, in that order.
    pub fn wyw(&self) -> (ret: V3<T>)
        ensures
            ret == V3(self.3, self.1, self.3),
    {
        V3(self.3, self.1, self.3)
    }

    /// Components 3, 2, 0, in that order.
    pub fn wzx(&self) -> (ret: V3<T>)
        ensures
            ret == V3(self.3, self.2, self.0),
    {
        V3(self.3, self.2, self.0)
    }

    /// Writes the components of `value` into components 3, 2, 0, in
    /// that order.
    pub fn set_wzx(&mut self, value: V3<T>)
        ensures
            *final(self) == V4(value.2, old(self).1, value.1, value.0),
    {
        self.3 = value.0;
        self.2 = value.1;
        self.0 = value.2;
    }

    /// Components 3, 2, 1, in that order.
    pub fn wzy(&self) -> (ret: V3<T>)
        ensures
            ret == V3(self.3, self.2, self.1),
    {
        V3(self.3, self.2, self.1)
    }

    /// Writes the components of `value` into components 3, 2, 1, in
    /// that order.
    pub fn set_wzy(&mut self, value: V3<T>)
        ensures
            *final(self) == V4(old(self).0, value.2, value.1, value.0),
    {
        self.3 = value.0;
        self.2 = value.1;
        self.1 = value.2;
    }

    /// Components 3, 2, 2, in that order.
    pub fn wzz(&self) -> (ret: V3<T>)
        ensures
            ret == V3(self.3, self.2, self.2),
    {
        V3(self.3, self.2, self.2)
    }

    /// Components 3, 2, 3, in that order.
    pub fn wzw(&self) -> (ret: V3<T>)
        ensures
            ret == V3(self.3, self.2, self.3),
    {
        V3(self.3, self.2, self.3)
    }

    /// Components 3, 3, 0, in that order.
    pub fn wwx(&self) -> (ret: V3<T>)
        ensures
            ret == V3(self.3, self.3, self.0),
    {
        V3(self.3, self.3, self.0)
    }

    /// Components 3, 3, 1, in that order.
    pub fn wwy(&self) -> (ret: V3<T>)
        ensures
            ret == V3(self.3, self.3, self.1),
    {
        V3(self.3, self.3, self.1)
    }

    /// Components 3, 3, 2, in that order.
    pub fn wwz(&self) -> (ret: V3<T>)
        ensures
            ret == V3(self.3, self.3, self.2),
    {
        V3(self.3, self.3, self.2)
    }

    /// Components 3, 3, 3, in that order.
    pub fn www(&self) -> (ret: V3<T>)
        ensures
            ret == V3(self.3, self.3, self.3),
    {
        V3(self.3, self.3, self.3)
    }

    /// Components 0, 0, 0, 0, in that order.
    pub fn xxxx(&self) -> (ret: V4<T>)
        ensures
            ret == V4(self.0, self.0, self.0, self.0),
    {
        V4(self.0, self.0, self.0, self.0)
    }

    /// Components 0, 0, 0, 1, in that order.
    pub fn xxxy(&self) -> (ret: V4<T>)
        ensures
            ret == V4(self.0, self.0, self.0, self.1),
    {
        V4(self.0, self.0, self.0, self.1)
    }

    /// Components 0, 0, 0, 2, in that order.
    pub fn xxxz(&self) -> (ret: V4<T>)
        ensures
            ret == V4(self.0, self.0, self.0, self.2),
    {
        V4(self.0, self.0, self.0, self.2)
    }

    /// Components 0, 0, 0, 3, in that order.
    pub fn xxxw(&self) -> (ret: V4<T>)
        ensures
            ret == V4(self.0, self.0, self.0, self.3),
    {
        V4(self.0, self.0, self.0, self.3)
    }

    /// Components 0, 0, 1, 0, in that order.
    pub fn xxyx(&self) -> (ret: V4<T>)
        ensures
            ret == V4(self.0, self.0, self.1, self.0),
    {
        V4(self.0, self.0, self.1, self.0)
    }

    /// Components 0, 0, 1, 1, in that order.
    pub fn xxyy(&self) -> (ret: V4<T>)
        ensures
            ret == V4(self.0, self.0, self.1, self.1),
    {
        V4(self.0, self.0, self.1, self.1)
    }

    /// Components 0, 0, 1, 2, in that order.
    pub fn xxyz(&self) -> (ret: V4<T>)
        ensures
            ret == V4(self.0, self.0, self.1, self.2),
    {
        V4(self.0, self.0, self.1, self.2)
    }

    /// Components 0, 0, 1, 3, in that order.
    pub fn xxyw(&self) -> (ret: V4<T>)
        ensures
            ret == V4(self.0, self.0, self.1, self.3),
    {
        V4(self.0, self.0, self.1, self.3)
    }

    /// Components 0, 0, 2, 0, in that order.
    pub fn xxzx(&self) -> (ret: V4<T>)
        ensures
            ret == V4(self.0, self.0, self.2, self.0),
    {
        V4(self.0, self.0, self.2, self.0)
    }

    /// Components 0, 0, 2, 1, in that order.
    pub fn xxzy(&self) -> (ret: V4<T>)
        ensures
            ret == V4(self.0, self.0, self.2, self.1),
    {
        V4(self.0, self.0, self.2, self.1)
    }

    /// Components 0, 0, 2, 2, in that order.
    pub fn xxzz(&self) -> (ret: V4<T>)
        ensures
            ret == V4(self.0, self.0, self.2, self.2),
    {
        V4(self.0, self.0, self.2, self.2)
    }

    /// Components 0, 0, 2, 3, in that order.
    pub fn xxzw(&self) -> (ret: V4<T>)
        ensures
            ret == V4(self.0, self.0, self.2, self.3),
    {
        V4(self.0, self.0, self.2, self.3)
    }

    /// Components 0, 0, 3, 0, in that order.
    pub fn xxwx(&self) -> (ret: V4<T>)
        ensures
            ret == V4(self.0, self.0, self.3, self.0),
    {
        V4(self.0, self.0, self.3, self.0)
    }

    /// Components 0, 0, 3, 1, in that order.
    pub fn xxwy(&self) -> (ret: V4<T>)
        ensures
            ret == V4(self.0, self.0, self.3, self.1),
    {
        V4(self.0, self.0, self.3, self.1)
    }

    /// Components 0, 0, 3, 2, in that order.
    pub fn xxwz(&self) -> (ret: V4<T>)
        ensures
            ret == V4(self.0, self.0, self.3, self.2),
    {
        V4(self.0, self.0, self.3, self.2)
    }

    /// Components 0, 0, 3, 3, in that order.
    pub fn xxww(&self) -> (ret: V4<T>)
        ensures
            ret == V4(self.0, self.0, self.3, self.3),
    {
        V4(self.0, self.0, self.3, self.3)
    }

    /// Components 0, 1, 0, 0, in that order.
    pub fn xyxx(&self) -> (ret: V4<T>)
        ensures
            ret == V4(self.0, self.1, self.0, self.0),
    {
        V4(self.0, self.1, self.0, self.0)
    }

    /// Components 0, 1, 0, 1, in that order.
    pub fn xyxy(&self) -> (ret: V4<T>)
        ensures
            ret == V4(self.0, self.1, self.0, self.1),
    {
        V4(self.0, self.1, self.0, self.1)
    }

    /// Components 0, 1, 0, 2, in that order.
    pub fn xyxz(&self) -> (ret: V4<T>)
        ensures
            ret == V4(self.0, self.1, self.0, self.2),
    {
        V4(self.0, self.1, self.0, self.2)
    }

    /// Components 0, 1, 0, 3, in that order.
    pub fn xyxw(&self) -> (ret: V4<T>)
        ensures
            ret == V4(self.0, self.1, self.0, self.3),
    {
        V4(self.0, self.1, self.0, self.3)
    }

    /// Components 0, 1, 1, 0, in that order.
    pub fn xyyx(&self) -> (ret: V4<T>)
        ensures
            ret == V4(self.0, self.1, self.1, self.0),
    {
        V4(self.0, self.1, self.1, self.0)
    }

    /// Components 0, 1, 1, 1, in that order.
    pub fn xyyy(&self) -> (ret: V4<T>)
        ensures
            ret == V4(self.0, self.1, self.1, self.1),
    {
        V4(self.0, self.1, self.1, self.1)
    }

    /// Components 0, 1, 1, 2, in that order.
    pub fn xyyz(&self) -> (ret: V4<T>)
        ensures
            ret == V4(self.0, self.1, self.1, self.2),
    {
        V4(self.0, self.1, self.1, self.2)
    }

    /// Components 0, 1, 1, 3, in that order.
    pub fn xyyw(&self) -> (ret: V4<T>)
        ensures
            ret == V4(self.0, self.1, self.1, self.3),
    {
        V4(self.0, self.1, self.1, self.3)
    }

    /// Components 0, 1, 2, 0, in that order.
    pub fn xyzx(&self) -> (ret: V4<T>)
        ensures
            ret == V4(self.0, self.1, self.2, self.0),
    {
        V4(self.0, self.1, self.2, self.0)
    }

    /// Components 0, 1, 2, 1, in that order.
    pub fn xyzy(&self) -> (ret: V4<T>)
        ensures
            ret == V4(self.0, self.1, self.2, self.1),
    {
        V4(self.0, self.1, self.2, self.1)
    }

    /// Components 0, 1, 2, 2, in that order.
    pub fn xyzz(&self) -> (ret: V4<T>)
        ensures
            ret == V4(self.0, self.1, self.2, self.2),
    {
        V4(self.0, self.1, self.2, self.2)
    }

    /// Components 0, 1, 2, 3, in that order.
    pub fn xyzw(&self) -> (ret: V4<T>)
        ensures
            ret == V4(self.0, self.1, self.2, self.3),
    {
        V4(self.0, self.1, self.2, self.3)
    }

    /// Writes the components of `value` into components 0, 1, 2, 3, in
    /// that order.
    pub fn set_xyzw(&mut self, value: V4<T>)
        ensures
            *final(self) == V4(value.0, value.1, value.2, value.3),
    {
        self.0 = value.0;
        self.1 = value.1;
        self.2 = value.2;
        self.3 = value.3;
    }

    /// Components 0, 1, 3, 0, in that order.
    pub fn xywx(&self) -> (ret: V4<T>)
        ensures
            ret == V4(self.0, self.1, self.3, self.0),
    {
        V4(self.0, self.1, self.3, self.0)
    }

    /// Components 0, 1, 3, 1, in that order.
    pub fn xywy(&self) -> (ret: V4<T>)
        ensures
            ret == V4(self.0, self.1, self.3, self.1),
    {
        V4(self.0, self.1, self.3, self.1)
    }

    /// Components 0, 1, 3, 2, in that order.
    pub fn xywz(&self) -> (ret: V4<T>)
        ensures
            ret == V4(self.0, self.1, self.3, self.2),
    {
        V4(self.0, self.1, self.3, self.2)
    }

    /// Writes the components of `value` into components 0, 1, 3, 2, in
    /// that order.
    pub fn set_xywz(&mut self, value: V4<T>)
        ensures
            *final(self) == V4(value.0, value.1, value.3, value.2),
    {
        self.0 = value.0;
        self.1 = value.1;
        self.3 = value.2;
        self.2 = value.3;
    }

    /// Components 0, 1, 3, 3, in that order.
    pub fn xyww(&self) -> (ret: V4<T>)
        ensures
            ret == V4(self.0, self.1, self.3, self.3),
    {
        V4(self.0, self.1, self.3, self.3)
    }

    /// Components 0, 2, 0, 0, in that order.
    pub fn xzxx(&self) -> (ret: V4<T>)
        ensures
            ret == V4(self.0, self.2, self.0, self.0),
    {
        V4(self.0, self.2, self.0, self.0)
    }

    /// Components 0, 2, 0, 1, in that order.
    pub fn xzxy(&self) -> (ret: V4<T>)
        ensures
            ret == V4(self.0, self.2, self.0, self.1),
    {
        V4(self.0, self.2, self.0, self.1)
    }

    /// Components 0, 2, 0, 2, in that order.
    pub fn xzxz(&self) -> (ret: V4<T>)
        ensures
            ret == V4(self.0, self.2, self.0, self.2),
    {
        V4(self.0, self.2, self.0, self.2)
    }

    /// Components 0, 2, 0, 3, in that order.
    pub fn xzxw(&self) -> (ret: V4<T>)
        ensures
            ret == V4(self.0, self.2, self.0, self.3),
    {
        V4(self.0, self.2, self.0, self.3)
    }

    /// Components 0, 2, 1, 0, in that order.
    pub fn xzyx(&self) -> (ret: V4<T>)
        ensures
            ret == V4(self.0, self.2, self.1, self.0),
    {
        V4(self.0, self.2, self.1, self.0)
    }

    /// Components 0, 2, 1, 1, in that order.
    pub fn xzyy(&self) -> (ret: V4<T>)
        ensures
            ret == V4(self.0, self.2, self.1, self.1),
    {
        V4(self.0, self.2, self.1, self.1)
    }

    /// Components 0, 2, 1, 2, in that order.
    pub fn xzyz(&self) -> (ret: V4<T>)
        ensures
            ret == V4(self.0, self.2, self.1, self.2),
    {
        V4(self.0, self.2, self.1, self.2)
    }

    /// Components 0, 2, 1, 3, in that order.
    pub fn xzyw(&self) -> (ret: V4<T>)
        ensures
            ret == V4(self.0, self.2, self.1, self.3),
    {
        V4(self.0, self.2, self.1, self.3)
    }

    /// Writes the components of `value` into components 0, 2, 1, 3, in
    /// that order.
    pub fn set_xzyw(&mut self, value: V4<T>)
        ensures
            *final(self) == V4(value.0, value.2, value.1, value.3),
    {
        self.0 = value.0;
        self.2 = value.1;
        self.1 = value.2;
        self.3 = value.3;
    }

    /// Components 0, 2, 2, 0, in that order.
    pub fn xzzx(&self) -> (ret: V4<T>)
        ensures
            ret == V4(self.0, self.2, self.2, self.0),
    {
        V4(self.0, self.2, self.2, self.0)
    }

    /// Components 0, 2, 2, 1, in that order.
    pub fn xzzy(&self) -> (ret: V4<T>)
        ensures
            ret == V4(self.0, self.2, self.2, self.1),
    {
        V4(self.0, self.2, self.2, self.1)
    }

    /// Components 0, 2, 2, 2, in that order.
    pub fn xzzz(&self) -> (ret: V4<T>)
        ensures
            ret == V4(self.0, self.2, self.2, self.2),
    {
        V4(self.0, self.2, self.2, self.2)
    }

    /// Components 0, 2, 2, 3, in that order.
    pub fn xzzw(&self) -> (ret: V4<T>)
        ensures
            ret == V4(self.0, self.2, self.2, self.3),
    {
        V4(self.0, self.2, self.2, self.3)
    }

    /// Components 0, 2, 3, 0, in that order.
    pub fn xzwx(&self) -> (ret: V4<T>)
        ensures
            ret == V4(self.0, self.2, self.3, self.0),
    {
        V4(self.0, self.2, self.3, self.0)
    }

    /// Components 0, 2, 3, 1, in that order.
    pub fn xzwy(&self) -> (ret: V4<T>)
        ensures
            ret == V4(self.0, self.2, self.3, self.1),
    {
        V4(self.0, self.2, self.3, self.1)
    }

    /// Writes the components of `value` into components 0, 2, 3, 1, in
    /// that order.
    pub fn set_xzwy(&mut self, value: V4<T>)
        ensures
            *final(self) == V4(value.0, value.3, value.1, value.2),
    {
        self.0 = value.0;
        self.2 = value.1;
        self.3 = value.2;
        self.1 = value.3;
    }

    /// Components 0, 2, 3, 2, in that order.
    pub fn xzwz(&self) -> (ret: V4<T>)
        ensures
            ret == V4(self.0, self.2, self.3, self.2),
    {
        V4(self.0, self.2, self.3, self.2)
    }

    /// Components 0, 2, 3, 3, in that order.
    pub fn xzww(&self) -> (ret: V4<T>)
        ensures
            ret == V4(self.0, self.2, self.3, self.3),
    {
        V4(self.0, self.2, self.3, self.3)
    }

    /// Components 0, 3, 0, 0, in that order.
    pub fn xwxx(&self) -> (ret: V4<T>)
        ensures
            ret == V4(self.0, self.3, self.0, self.0),
    {
        V4(self.0, self.3, self.0, self.0)
    }

    /// Components 0, 3, 0, 1, in that order.
    pub fn xwxy(&self) -> (ret: V4<T>)
        ensures
            ret == V4(self.0, self.3, self.0, self.1),
    {
        V4(self.0, self.3, self.0, self.1)
    }

    /// Components 0, 3, 0, 2, in that order.
    pub fn xwxz(&self) -> (ret: V4<T>)
        ensures
            ret == V4(self.0, self.3, self.0, self.2),
    {
        V4(self.0, self.3, self.0, self.2)
    }

    /// Components 0, 3, 0, 3, in that order.
    pub fn xwxw(&self) -> (ret: V4<T>)
        ensures
            ret == V4(self.0, self.3, self.0, self.3),
    {
        V4(self.0, self.3, self.0, self.3)
    }

    /// Components 0, 3, 1, 0, in that order.
    pub fn xwyx(&self) -> (ret: V4<T>)
        ensures
            ret == V4(self.0, self.3, self.1, self.0),
    {
        V4(self.0, self.3, self.1, self.0)
    }

    /// Components 0, 3, 1, 1, in that order.
    pub fn xwyy(&self) -> (ret: V4<T>)
        ensures
            ret == V4(self.0, self.3, self.1, self.1),
    {
        V4(self.0, self.3, self.1, self.1)
    }

    /// Components 0, 3, 1, 2, in that order.
    pub fn xwyz(&self) -> (ret: V4<T>)
        ensures
            ret == V4(self.0, self.3, self.1, self.2),
    {
        V4(self.0, self.3, self.1, self.2)
    }

    /// Writes the components of `value` into components 0, 3, 1, 2, in
    /// that order.
    pub fn set_xwyz(&mut self, value: V4<T>)
        ensures
            *final(self) == V4(value.0, value.2, value.3, value.1),
    {
        self.0 = value.0;
        self.3 = value.1;
        self.1 = value.2;
        self.2 = value.3;
    }

    /// Components 0, 3, 1, 3, in that order.
    pub fn xwyw(&self) -> (ret: V4<T>)
        ensures
            ret == V4(self.0, self.3, self.1, self.3),
    {
        V4(self.0, self.3, self.1, self.3)
    }

    /// Components 0, 3, 2, 0, in that order.
    pub fn xwzx(&self) -> (ret: V4<T>)
        ensures
            ret == V4(self.0, self.3, self.2, self.0),
    {
        V4(self.0, self.3, self.2, self.0)
    }

    /// Components 0, 3, 2, 1, in that order.
    pub fn xwzy(&self) -> (ret: V4<T>)
        ensures
            ret == V4(self.0, self.3, self.2, self.1),
    {
        V4(self.0, self.3, self.2, self.1)
    }

    /// Writes the components of `value` into components 0, 3, 2, 1, in
    /// that order.
    pub fn set_xwzy(&mut self, value: V4<T>)
        ensures
            *final(self) == V4(value.0, value.3, value.2, value.1),
    {
        self.0 = value.0;
        self.3 = value.1;
        self.2 = value.2;
        self.1 = value.3;
    }

    /// Components 0, 3, 2, 2, in that order.
    pub fn xwzz(&self) -> (ret: V4<T>)
        ensures
            ret == V4(self.0, self.3, self.2, self.2),
    {
        V4(self.0, self.3, self.2, self.2)
    }

    /// Components 0, 3, 2, 3, in that order.
    pub fn xwzw(&self) -> (ret: V4<T>)
        ensures
            ret == V4(self.0, self.3, self.2, self.3),
    {
        V4(self.0, self.3, self.2, self.3)
    }

    /// Components 0, 3, 3, 0, in that order.
    pub fn xwwx(&self) -> (ret: V4<T>)
        ensures
            ret == V4(self.0, self.3, self.3, self.0),
    {
        V4(self.0, self.3, self.3, self.0)
    }

    /// Components 0, 3, 3, 1, in that order.
    pub fn xwwy(&self) -> (ret: V4<T>)
        ensures
            ret == V4(self.0, self.3, self.3, self.1),
    {
        V4(self.0, self.3, self.3, self.1)
    }

    /// Components 0, 3, 3, 2, in that order.
    pub fn xwwz(&self) -> (ret: V4<T>)
        ensures
            ret == V4(self.0, self.3, self.3, self.2),
    {
        V4(self.0, self.3, self.3, self.2)
    }

    /// Components 0, 3, 3, 3, in that order.
    pub fn xwww(&self) -> (ret: V4<T>)
        ensures
            ret == V4(self.0, self.3, self.3, self.3),
    {
        V4(self.0, self.3, self.3, self.3)
    }

    /// Components 1, 0, 0, 0, in that order.
    pub fn yxxx(&self) -> (ret: V4<T>)
        ensures
            ret == V4(self.1, self.0, self.0, self.0),
    {
        V4(self.1, self.0, self.0, self.0)
    }

    /// Components 1, 0, 0, 1, in that order.
    pub fn yxxy(&self) -> (ret: V4<T>)
        ensures
            ret == V4(self.1, self.0, self.0, self.1),
    {
        V4(self.1, self.0, self.0, self.1)
    }

    /// Components 1, 0, 0, 2, in that order.
    pub fn yxxz(&self) -> (ret: V4<T>)
        ensures
            ret == V4(self.1, self.0, self.0, self.2),
    {
        V4(self.1, self.0, self.0, self.2)
    }

    /// Components 1, 0, 0, 3, in that order.
    pub fn yxxw(&self) -> (ret: V4<T>)
        ensures
            ret == V4(self.1, self.0, self.0, self.3),
    {
        V4(self.1, self.0, self.0, self.3)
    }

    /// Components 1, 0, 1, 0, in that order.
    pub fn yxyx(&self) -> (ret: V4<T>)
        ensures
            ret == V4(self.1, self.0, self.1, self.0),
    {
        V4(self.1, self.0, self.1, self.0)
    }

    /// Components 1, 0, 1, 1, in that order.
    pub fn yxyy(&self) -> (ret: V4<T>)
        ensures
            ret == V4(self.1, self.0, self.1, self.1),
    {
        V4(self.1, self.0, self.1, self.1)
    }

    /// Components 1, 0, 1, 2, in that order.
    pub fn yxyz(&self) -> (ret: V4<T>)
        ensures
            ret == V4(self.1, self.0, self.1, self.2),
    {
        V4(self.1, self.0, self.1, self.2)
    }

    /// Components 1, 0, 1, 3, in that order.
    pub fn yxyw(&self) -> (ret: V4<T>)
        ensures
            ret == V4(self.1, self.0, self.1, self.3),
    {
        V4(self.1, self.0, self.1, self.3)
    }

    /// Components 1, 0, 2, 0, in that order.
    pub fn yxzx(&self) -> (ret: V4<T>)
        ensures
            ret == V4(self.1, self.0, self.2, self.0),
    {
        V4(self.1, self.0, self.2, self.0)
    }

    /// Components 1, 0, 2, 1, in that order.
    pub fn yxzy(&self) -> (ret: V4<T>)
        ensures
            ret == V4(self.1, self.0, self.2, self.1),
    {
        V4(self.1, self.0, self.2, self.1)
    }

    /// Components 1, 0, 2, 2, in that order.
    pub fn yxzz(&self) -> (ret: V4<T>)
        ensures
            ret == V4(self.1, self.0, self.2, self.2),
    {
        V4(self.1, self.0, self.2, self.2)
    }

    /// Components 1, 0, 2, 3, in that order.
    pub fn yxzw(&self) -> (ret: V4<T>)
        ensures
            ret == V4(self.1, self.0, self.2, self.3),
    {
        V4(self.1, self.0, self.2, self.3)
    }

    /// Writes the components of `value` into components 1, 0, 2, 3, in
    /// that order.
    pub fn set_yxzw(&mut self, value: V4<T>)
        ensures
            *final(self) == V4(value.1, value.0, value.2, value.3),
    {
        self.1 = value.0;
        self.0 = value.1;
        self.2 = value.2;
        self.3 = value.3;
    }

    /// Components 1, 0, 3, 0, in that order.
    pub fn yxwx(&self) -> (ret: V4<T>)
        ensures
            ret == V4(self.1, self.0, self.3, self.0),
    {
        V4(self.1, self.0, self.3, self.0)
    }

    /// Components 1, 0, 3, 1, in that order.
    pub fn yxwy(&self) -> (ret: V4<T>)
        ensures
            ret == V4(self.1, self.0, self.3, self.1),
    {
        V4(self.1, self.0, self.3, self.1)
    }

    /// Components 1, 0, 3, 2, in that order.
    pub fn yxwz(&self) -> (ret: V4<T>)
        ensures
            ret == V4(self.1, self.0, self.3, self.2),
    {
        V4(self.1, self.0, self.3, self.2)
    }

    /// Writes the components of `value` into components 1, 0, 3, 2, in
    /// that order.
    pub fn set_yxwz(&mut self, value: V4<T>)
        ensures
            *final(self) == V4(value.1, value.0, value.3, value.2),
    {
        self.1 = value.0;
        self.0 = value.1;
        self.3 = value.2;
        self.2 = value.3;
    }

    /// Components 1, 0, 3, 3, in that order.
    pub fn yxww(&self) -> (ret: V4<T>)
        ensures
            ret == V4(self.1, self.0, self.3, self.3),
    {
        V4(self.1, self.0, self.3, self.3)
    }

    /// Components 1, 1, 0, 0, in that order.
    pub fn yyxx(&self) -> (ret: V4<T>)
        ensures
            ret == V4(self.1, self.1, self.0, self.0),
    {
        V4(self.1, self.1, self.0, self.0)
    }

    /// Components 1, 1, 0, 1, in that order.
    pub fn yyxy(&self) -> (ret: V4<T>)
        ensures
            ret == V4(self.1, self.1, self.0, self.1),
    {
        V4(self.1, self.1, self.0, self.1)
    }

    /// Components 1, 1, 0, 2, in that order.
    pub fn yyxz(&self) -> (ret: V4<T>)
        ensures
            ret == V4(self.1, self.1, self.0, self.2),
    {
        V4(self.1, self.1, self.0, self.2)
    }

    /// Components 1, 1, 0, 3, in that order.
    pub fn yyxw(&self) -> (ret: V4<T>)
        ensures
            ret == V4(self.1, self.1, self.0, self.3),
    {
        V4(self.1, self.1, self.0, self.3)
    }

    /// Components 1, 1, 1, 0, in that order.
    pub fn yyyx(&self) -> (ret: V4<T>)
        ensures
            ret == V4(self.1, self.1, self.1, self.0),
    {
        V4(self.1, self.1, self.1, self.0)
    }

    /// Components 1, 1, 1, 1, in that order.
    pub fn yyyy(&self) -> (ret: V4<T>)
        ensures
            ret == V4(self.1, self.1, self.1, self.1),
    {
        V4(self.1, self.1, self.1, self.1)
    }

    /// Components 1, 1, 1, 2, in that order.
    pub fn yyyz(&self) -> (ret: V4<T>)
        ensures
            ret == V4(self.1, self.1, self.1, self.2),
    {
        V4(self.1, self.1, self.1, self.2)
    }

    /// Components 1, 1, 1, 3, in that order.
    pub fn yyyw(&self) -> (ret: V4<T>)
        ensures
            ret == V4(self.1, self.1, self.1, self.3),
    {
        V4(self.1, self.1, self.1, self.3)
    }

    /// Components 1, 1, 2, 0, in that order.
    pub fn yyzx(&self) -> (ret: V4<T>)
        ensures
            ret == V4(self.1, self.1, self.2, self.0),
    {
        V4(self.1, self.1, self.2, self.0)
    }

    /// Components 1, 1, 2, 1, in that order.
    pub fn yyzy(&self) -> (ret: V4<T>)
        ensures
            ret == V4(self.1, self.1, self.2, self.1),
    {
        V4(self.1, self.1, self.2, self.1)
    }

    /// Components 1, 1, 2, 2, in that order.
    pub fn yyzz(&self) -> (ret: V4<T>)
        ensures
            ret == V4(self.1, self.1, self.2, self.2),
    {
        V4(self.1, self.1, self.2, self.2)
    }

    /// Components 1, 1, 2, 3, in that order.
    pub fn yyzw(&self) -> (ret: V4<T>)
        ensures
            ret == V4(self.1, self.1, self.2, self.3),
    {
        V4(self.1, self.1, self.2, self.3)
    }

    /// Components 1, 1, 3, 0, in that order.
    pub fn yywx(&self) -> (ret: V4<T>)
        ensures
            ret == V4(self.1, self.1, self.3, self.0),
    {
        V4(self.1, self.1, self.3, self.0)
    }

    /// Components 1, 1, 3, 1, in that order.
    pub fn yywy(&self) -> (ret: V4<T>)
        ensures
            ret == V4(self.1, self.1, self.3, self.1),
    {
        V4(self.1, self.1, self.3, self.1)
    }

    /// Components 1, 1, 3, 2, in that order.
    pub fn yywz(&self) -> (ret: V4<T>)
        ensures
            ret == V4(self.1, self.1, self.3, self.2),
    {
        V4(self.1, self.1, self.3, self.2)
    }

    /// Components 1, 1, 3, 3, in that order.
    pub fn yyww(&self) -> (ret: V4<T>)
        ensures
            ret == V4(self.1, self.1, self.3, self.3),
    {
        V4(self.1, self.1, self.3, self.3)
    }

    /// Components 1, 2, 0, 0, in that order.
    pub fn yzxx(&self) -> (ret: V4<T>)
        ensures
            ret == V4(self.1, self.2, self.0, self.0),
    {
        V4(self.1, self.2, self.0, self.0)
    }

    /// Components 1, 2, 0, 1, in that order.
    pub fn yzxy(&self) -> (ret: V4<T>)
        ensures
            ret == V4(self.1, self.2, self.0, self.1),
    {
        V4(self.1, self.2, self.0, self.1)
    }

    /// Components 1, 2, 0, 2, in that order.
    pub fn yzxz(&self) -> (ret: V4<T>)
        ensures
            ret == V4(self.1, self.2, self.0, self.2),
    {
        V4(self.1, self.2, self.0, self.2)
    }

    /// Components 1, 2, 0, 3, in that order.
    pub fn yzxw(&self) -> (ret: V4<T>)
        ensures
            ret == V4(self.1, self.2, self.0, self.3),
    {
        V4(self.1, self.2, self.0, self.3)
    }

    /// Writes the components of `value` into components 1, 2, 0, 3, in
    /// that order.
    pub fn set_yzxw(&mut self, value: V4<T>)
        ensures
            *final(self) == V4(value.2, value.0, value.1, value.3),
    {
        self.1 = value.0;
        self.2 = value.1;
        self.0 = value.2;
        self.3 = value.3;
    }

    /// Components 1, 2, 1, 0, in that order.
    pub fn yzyx(&self) -> (ret: V4<T>)
        ensures
            ret == V4(self.1, self.2, self.1, self.0),
    {
        V4(self.1, self.2, self.1, self.0)
    }

    /// Components 1, 2, 1, 1, in that order.
    pub fn yzyy(&self) -> (ret: V4<T>)
        ensures
            ret == V4(self.1, self.2, self.1, self.1),
    {
        V4(self.1, self.2, self.1, self.1)
    }

    /// Components 1, 2, 1, 2, in that order.
    pub fn yzyz(&self) -> (ret: V4<T>)
        ensures
            ret == V4(self.1, self.2, self.1, self.2),
    {
        V4(self.1, self.2, self.1, self.2)
    }

    /// Components 1, 2, 1, 3, in that order.
    pub fn yzyw(&self) -> (ret: V4<T>)
        ensures
            ret == V4(self.1, self.2, self.1, self.3),
    {
        V4(self.1, self.2, self.1, self.3)
    }

    /// Components 1, 2, 2, 0, in that order.
    pub fn yzzx(&self) -> (ret: V4<T>)
        ensures
            ret == V4(self.1, self.2, self.2, self.0),
    {
        V4(self.1, self.2, self.2, self.0)
    }

    /// Components 1, 2, 2, 1, in that order.
    pub fn yzzy(&self) -> (ret: V4<T>)
        ensures
            ret == V4(self.1, self.2, self.2, self.1),
    {
        V4(self.1, self.2, self.2, self.1)
    }

    /// Components 1, 2, 2, 2, in that order.
    pub fn yzzz(&self) -> (ret: V4<T>)
        ensures
            ret == V4(self.1, self.2, self.2, self.2),
    {
        V4(self.1, self.2, self.2, self.2)
    }

    /// Components 1, 2, 2, 3, in that order.
    pub fn yzzw(&self) -> (ret: V4<T>)
        ensures
            ret == V4(self.1, self.2, self.2, self.3),
    {
        V4(self.1, self.2, self.2, self.3)
    }

    /// Components 1, 2, 3, 0, in that order.
    pub fn yzwx(&self) -> (ret: V4<T>)
        ensures
            ret == V4(self.1, self.2, self.3, self.0),
    {
        V4(self.1, self.2, self.3, self.0)
    }

    /// Writes the components of `value` into components 1, 2, 3, 0, in
    /// that order.
    pub fn set_yzwx(&mut self, value: V4<T>)
        ensures
            *final(self) == V4(value.3, value.0, value.1, value.2),
    {
        self.1 = value.0;
        self.2 = value.1;
        self.3 = value.2;
        self.0 = value.3;
    }

    /// Components 1, 2, 3, 1, in that order.
    pub fn yzwy(&self) -> (ret: V4<T>)
        ensures
            ret == V4(self.1, self.2, self.3, self.1),
    {
        V4(self.1, self.2, self.3, self.1)
    }

    /// Components 1, 2, 3, 2, in that order.
    pub fn yzwz(&self) -> (ret: V4<T>)
        ensures
            ret == V4(self.1, self.2, self.3, self.2),
    {
        V4(self.1, self.2, self.3, self.2)
    }

    /// Components 1, 2, 3, 3, in that order.
    pub fn yzww(&self) -> (ret: V4<T>)
        ensures
            ret == V4(self.1, self.2, self.3, self.3),
    {
        V4(self.1, self.2, self.3, self.3)
    }

    /// Components 1, 3, 0, 0, in that order.
    pub fn ywxx(&self) -> (ret: V4<T>)
        ensures
            ret == V4(self.1, self.3, self.0, self.0),
    {
        V4(self.1, self.3, self.0, self.0)
    }

    /// Components 1, 3, 0, 1, in that order.
    pub fn ywxy(&self) -> (ret: V4<T>)
        ensures
            ret == V4(self.1, self.3, self.0, self.1),
    {
        V4(self.1, self.3, self.0, self.1)
    }

    /// Components 1, 3, 0, 2, in that order.
    pub fn ywxz(&self) -> (ret: V4<T>)
        ensures
            ret == V4(self.1, self.3, self.0, self.2),
    {
        V4(self.1, self.3, self.0, self.2)
    }

    /// Writes the components of `value` into components 1, 3, 0, 2, in
    /// that order.
    pub fn set_ywxz(&mut self, value: V4<T>)
        ensures
            *final(self) == V4(value.2, value.0, value.3, value.1),
    {
        self.1 = value.0;
        self.3 = value.1;
        self.0 = value.2;
        self.2 = value.3;
    }

    /// Components 1, 3, 0, 3, in that order.
    pub fn ywxw(&self) -> (ret: V4<T>)
        ensures
            ret == V4(self.1, self.3, self.0, self.3),
    {
        V4(self.1, self.3, self.0, self.3)
    }

    /// Components 1, 3, 1, 0, in that order.
    pub fn ywyx(&self) -> (ret: V4<T>)
        ensures
            ret == V4(self.1, self.3, self.1, self.0),
    {
        V4(self.1, self.3, self.1, self.0)
    }

    /// Components 1, 3, 1, 1, in that order.
    pub fn ywyy(&self) -> (ret: V4<T>)
        ensures
            ret == V4(self.1, self.3, self.1, self.1),
    {
        V4(self.1, self.3, self.1, self.1)
    }

    /// Components 1, 3, 1, 2, in that order.
    pub fn ywyz(&self) -> (ret: V4<T>)
        ensures
            ret == V4(self.1, self.3, self.1, self.2),
    {
        V4(self.1, self.3, self.1, self.2)
    }

    /// Components 1, 3, 1, 3, in that order.
    pub fn ywyw(&self) -> (ret: V4<T>)
        ensures
            ret == V4(self.1, self.3, self.1, self.3),
    {
        V4(self.1, self.3, self.1, self.3)
    }

    /// Components 1, 3, 2, 0, in that order.
    pub fn ywzx(&self) -> (ret: V4<T>)
        ensures
            ret == V4(self.1, self.3, self.2, self.0),
    {
        V4(self.1, self.3, self.2, self.0)
    }

    /// Writes the components of `value` into components 1, 3, 2, 0, in
    /// that order.
    pub fn set_ywzx(&mut self, value: V4<T>)
        ensures
            *final(self) == V4(value.3, value.0, value.2, value.1),
    {
        self.1 = value.0;
        self.3 = value.1;
        self.2 = value.2;
        self.0 = value.3;
    }

    /// Components 1, 3, 2, 1, in that order.
    pub fn ywzy(&self) -> (ret: V4<T>)
        ensures
            ret == V4(self.1, self.3, self.2, self.1),
    {
        V4(self.1, self.3, self.2, self.1)
    }

    /// Components 1, 3, 2, 2, in that order.
    pub fn ywzz(&self) -> (ret: V4<T>)
        ensures
            ret == V4(self.1, self.3, self.2, self.2),
    {
        V4(self.1, self.3, self.2, self.2)
    }

    /// Components 1, 3, 2, 3, in that order.
    pub fn ywzw(&self) -> (ret: V4<T>)
        ensures
            ret == V4(self.1, self.3, self.2, self.3),
    {
        V4(self.1, self.3, self.2, self.3)
    }

    /// Components 1, 3, 3, 0, in that order.
    pub fn ywwx(&self) -> (ret: V4<T>)
        ensures
            ret == V4(self.1, self.3, self.3, self.0),
    {
        V4(self.1, self.3, self.3, self.0)
    }

    /// Components 1, 3, 3, 1, in that order.
    pub fn ywwy(&self) -> (ret: V4<T>)
        ensures
            ret == V4(self.1, self.3, self.3, self.1),
    {
        V4(self.1, self.3, self.3, self.1)
    }

    /// Components 1, 3, 3, 2, in that order.
    pub fn ywwz(&self) -> (ret: V4<T>)
        ensures
            ret == V4(self.1, self.3, self.3, self.2),
    {
        V4(self.1, self.3, self.3, self.2)
    }

    /// Components 1, 3, 3, 3, in that order.
    pub fn ywww(&self) -> (ret: V4<T>)
        ensures
            ret == V4(self.1, self.3, self.3, self.3),
    {
        V4(self.1, self.3, self.3, self.3)
    }

    /// Components 2, 0, 0, 0, in that order.
    pub fn zxxx(&self) -> (ret: V4<T>)
        ensures
            ret == V4(self.2, self.0, self.0, self.0),
    {
        V4(self.2, self.0, self.0, self.0)
    }

    /// Components 2, 0, 0, 1, in that order.
    pub fn zxxy(&self) -> (ret: V4<T>)
        ensures
            ret == V4(self.2, self.0, self.0, self.1),
    {
        V4(self.2, self.0, self.0, self.1)
    }

    /// Components 2, 0, 0, 2, in that order.
    pub fn zxxz(&self) -> (ret: V4<T>)
        ensures
            ret == V4(self.2, self.0, self.0, self.2),
    {
        V4(self.2, self.0, self.0, self.2)
    }

    /// Components 2, 0, 0, 3, in that order.
    pub fn zxxw(&self) -> (ret: V4<T>)
        ensures
            ret == V4(self.2, self.0, self.0, self.3),
    {
        V4(self.2, self.0, self.0, self.3)
    }

    /// Components 2, 0, 1, 0, in that order.
    pub fn zxyx(&self) -> (ret: V4<T>)
        ensures
            ret == V4(self.2, self.0, self.1, self.0),
    {
        V4(self.2, self.0, self.1, self.0)
    }

    /// Components 2, 0, 1, 1, in that order.
    pub fn zxyy(&self) -> (ret: V4<T>)
        ensures
            ret == V4(self.2, self.0, self.1, self.1),
    {
        V4(self.2, self.0, self.1, self.1)
    }

    /// Components 2, 0, 1, 2, in that order.
    pub fn zxyz(&self) -> (ret: V4<T>)
        ensures
            ret == V4(self.2, self.0, self.1, self.2),
    {
        V4(self.2, self.0, self.1, self.2)
    }

    /// Components 2, 0, 1, 3, in that order.
    pub fn zxyw(&self) -> (ret: V4<T>)
        ensures
            ret == V4(self.2, self.0, self.1, self.3),
    {
        V4(self.2, self.0, self.1, self.3)
    }

    /// Writes the components of `value` into components 2, 0, 1, 3, in
    /// that order.
    pub fn set_zxyw(&mut self, value: V4<T>)
        ensures
            *final(self) == V4(value.1, value.2, value.0, value.3),
    {
        self.2 = value.0;
        self.0 = value.1;
        self.1 = value.2;
        self.3 = value.3;
    }

    /// Components 2, 0, 2, 0, in that order.
    pub fn zxzx(&self) -> (ret: V4<T>)
        ensures
            ret == V4(self.2, self.0, self.2, self.0),
    {
        V4(self.2, self.0, self.2, self.0)
    }

    /// Components 2, 0, 2, 1, in that order.
    pub fn zxzy(&self) -> (ret: V4<T>)
        ensures
            ret == V4(self.2, self.0, self.2, self.1),
    {
        V4(self.2, self.0, self.2, self.1)
    }

    /// Components 2, 0, 2, 2, in that order.
    pub fn zxzz(&self) -> (ret: V4<T>)
        ensures
            ret == V4(self.2, self.0, self.2, self.2),
    {
        V4(self.2, self.0, self.2, self.2)
    }

    /// Components 2, 0, 2, 3, in that order.
    pub fn zxzw(&self) -> (ret: V4<T>)
        ensures
            ret == V4(self.2, self.0, self.2, self.3),
    {
        V4(self.2, self.0, self.2, self.3)
    }

    /// Components 2, 0, 3, 0, in that order.
    pub fn zxwx(&self) -> (ret: V4<T>)
        ensures
            ret == V4(self.2, self.0, self.3, self.0),
    {
        V4(self.2, self.0, self.3, self.0)
    }

    /// Components 2, 0, 3, 1, in that order.
    pub fn zxwy(&self) -> (ret: V4<T>)
        ensures
            ret == V4(self.2, self.0, self.3, self.1),
    {
        V4(self.2, self.0, self.3, self.1)
    }

    /// Writes the components of `value` into components 2, 0, 3, 1, in
    /// that order.
    pub fn set_zxwy(&mut self, value: V4<T>)
        ensures
            *final(self) == V4(value.1, value.3, value.0, value.2),
    {
        self.2 = value.0;
        self.0 = value.1;
        self.3 = value.2;
        self.1 = value.3;
    }

    /// Components 2, 0, 3, 2, in that order.
    pub fn zxwz(&self) -> (ret: V4<T>)
        ensures
            ret == V4(self.2, self.0, self.3, self.2),
    {
        V4(self.2, self.0, self.3, self.2)
    }

    /// Components 2, 0, 3, 3, in that order.
    pub fn zxww(&self) -> (ret: V4<T>)
        ensures
            ret == V4(self.2, self.0, self.3, self.3),
    {
        V4(self.2, self.0, self.3, self.3)
    }

    /// Components 2, 1, 0, 0, in that order.
    pub fn zyxx(&self) -> (ret: V4<T>)
        ensures
            ret == V4(self.2, self.1, self.0, self.0),
    {
        V4(self.2, self.1, self.0, self.0)
    }

    /// Components 2, 1, 0, 1, in that order.
    pub fn zyxy(&self) -> (ret: V4<T>)
        ensures
            ret == V4(self.2, self.1, self.0, self.1),
    {
        V4(self.2, self.1, self.0, self.1)
    }

    /// Components 2, 1, 0, 2, in that order.
    pub fn zyxz(&self) -> (ret: V4<T>)
        ensures
            ret == V4(self.2, self.1, self.0, self.2),
    {
        V4(self.2, self.1, self.0, self.2)
    }

    /// Components 2, 1, 0, 3, in that order.
    pub fn zyxw(&self) -> (ret: V4<T>)
        ensures
            ret == V4(self.2, self.1, self.0, self.3),
    {
        V4(self.2, self.1, self.0, self.3)
    }

    /// Writes the components of `value` into components 2, 1, 0, 3, in
    /// that order.
    pub fn set_zyxw(&mut self, value: V4<T>)
        ensures
            *final(self) == V4(value.2, value.1, value.0, value.3),
    {
        self.2 = value.0;
        self.1 = value.1;
        self.0 = value.2;
        self.3 = value.3;
    }

    /// Components 2, 1, 1, 0, in that order.
    pub fn zyyx(&self) -> (ret: V4<T>)
        ensures
            ret == V4(self.2, self.1, self.1, self.0),
    {
        V4(self.2, self.1, self.1, self.0)
    }

    /// Components 2, 1, 1, 1, in that order.
    pub fn zyyy(&self) -> (ret: V4<T>)
        ensures
            ret == V4(self.2, self.1, self.1, self.1),
    {
        V4(self.2, self.1, self.1, self.1)
    }

    /// Components 2, 1, 1, 2, in that order.
    pub fn zyyz(&self) -> (ret: V4<T>)
        ensures
            ret == V4(self.2, self.1, self.1, self.2),
    {
        V4(self.2, self.1, self.1, self.2)
    }

    /// Components 2, 1, 1, 3, in that order.
    pub fn zyyw(&self) -> (ret: V4<T>)
        ensures
            ret == V4(self.2, self.1, self.1, self.3),
    {
        V4(self.2, self.1, self.1, self.3)
    }

    /// Components 2, 1, 2, 0, in that order.
    pub fn zyzx(&self) -> (ret: V4<T>)
        ensures
            ret == V4(self.2, self.1, self.2, self.0),
    {
        V4(self.2, self.1, self.2, self.0)
    }

    /// Components 2, 1, 2, 1, in that order.
    pub fn zyzy(&self) -> (ret: V4<T>)
        ensures
            ret == V4(self.2, self.1, self.2, self.1),
    {
        V4(self.2, self.1, self.2, self.1)
    }

    /// Components 2, 1, 2, 2, in that order.
    pub fn zyzz(&self) -> (ret: V4<T>)
        ensures
            ret == V4(self.2, self.1, self.2, self.2),
    {
        V4(self.2, self.1, self.2, self.2)
    }

    /// Components 2, 1, 2, 3, in that order.
    pub fn zyzw(&self) -> (ret: V4<T>)
        ensures
            ret == V4(self.2, self.1, self.2, self.3),
    {
        V4(self.2, self.1, self.2, self.3)
    }

    /// Components 2, 1, 3, 0, in that order.
    pub fn zywx(&self) -> (ret: V4<T>)
        ensures
            ret == V4(self.2, self.1, self.3, self.0),
    {
        V4(self.2, self.1, self.3, self.0)
    }

    /// Writes the components of `value` into components 2, 1, 3, 0, in
    /// that order.
    pub fn set_zywx(&mut self, value: V4<T>)
        ensures
            *final(self) == V4(value.3, value.1, value.0, value.2),
    {
        self.2 = value.0;
        self.1 = value.1;
        self.3 = value.2;
        self.0 = value.3;
    }

    /// Components 2, 1, 3, 1, in that order.
    pub fn zywy(&self) -> (ret: V4<T>)
        ensures
            ret == V4(self.2, self.1, self.3, self.1),
    {
        V4(self.2, self.1, self.3, self.1)
    }

    /// Components 2, 1, 3, 2, in that order.
    pub fn zywz(&self) -> (ret: V4<T>)
        ensures
            ret == V4(self.2, self.1, self.3, self.2),
    {
        V4(self.2, self.1, self.3, self.2)
    }

    /// Components 2, 1, 3, 3, in that order.
    pub fn zyww(&self) -> (ret: V4<T>)
        ensures
            ret == V4(self.2, self.1, self.3, self.3),
    {
        V4(self.2, self.1, self.3, self.3)
    }

    /// Components 2, 2, 0, 0, in that order.
    pub fn zzxx(&self) -> (ret: V4<T>)
        ensures
            ret == V4(self.2, self.2, self.0, self.0),
    {
        V4(self.2, self.2, self.0, self.0)
    }

    /// Components 2, 2, 0, 1, in that order.
    pub fn zzxy(&self) -> (ret: V4<T>)
        ensures
            ret == V4(self.2, self.2, self.0, self.1),
    {
        V4(self.2, self.2, self.0, self.1)
    }

    /// Components 2, 2, 0, 2, in that order.
    pub fn zzxz(&self) -> (ret: V4<T>)
        ensures
            ret == V4(self.2, self.2, self.0, self.2),
    {
        V4(self.2, self.2, self.0, self.2)
    }

    /// Components 2, 2, 0, 3, in that order.
    pub fn zzxw(&self) -> (ret: V4<T>)
        ensures
            ret == V4(self.2, self.2, self.0, self.3),
    {
        V4(self.2, self.2, self.0, self.3)
    }

    /// Components 2, 2, 1, 0, in that order.
    pub fn zzyx(&self) -> (ret: V4<T>)
        ensures
            ret == V4(self.2, self.2, self.1, self.0),
    {
        V4(self.2, self.2, self.1, self.0)
    }

    /// Components 2, 2, 1, 1, in that order.
    pub fn zzyy(&self) -> (ret: V4<T>)
        ensures
            ret == V4(self.2, self.2, self.1, self.1),
    {
        V4(self.2, self.2, self.1, self.1)
    }

    /// Components 2, 2, 1, 2, in that order.
    pub fn zzyz(&self) -> (ret: V4<T>)
        ensures
            ret == V4(self.2, self.2, self.1, self.2),
    {
        V4(self.2, self.2, self.1, self.2)
    }

    /// Components 2, 2, 1, 3, in that order.
    pub fn zzyw(&self) -> (ret: V4<T>)
        ensures
            ret == V4(self.2, self.2, self.1, self.3),
    {
        V4(self.2, self.2, self.1, self.3)
    }

    /// Components 2, 2, 2, 0, in that order.
    pub fn zzzx(&self) -> (ret: V4<T>)
        ensures
            ret == V4(self.2, self.2, self.2, self.0),
    {
        V4(self.2, self.2, self.2, self.0)
    }

    /// Components 2, 2, 2, 1, in that order.
    pub fn zzzy(&self) -> (ret: V4<T>)
        ensures
            ret == V4(self.2, self.2, self.2, self.1),
    {
        V4(self.2, self.2, self.2, self.1)
    }

    /// Components 2, 2, 2, 2, in that order.
    pub fn zzzz(&self) -> (ret: V4<T>)
        ensures
            ret == V4(self.2, self.2, self.2, self.2),
    {
        V4(self.2, self.2, self.2, self.2)
    }

    /// Components 2, 2, 2, 3, in that order.
    pub fn zzzw(&self) -> (ret: V4<T>)
        ensures
            ret == V4(self.2, self.2, self.2, self.3),
    {
        V4(self.2, self.2, self.2, self.3)
    }

    /// Components 2, 2, 3, 0, in that order.
    pub fn zzwx(&self) -> (ret: V4<T>)
        ensures
            ret == V4(self.2, self.2, self.3, self.0),
    {
        V4(self.2, self.2, self.3, self.0)
    }

    /// Components 2, 2, 3, 1, in that order.
    pub fn zzwy(&self) -> (ret: V4<T>)
        ensures
            ret == V4(self.2, self.2, self.3, self.1),
    {
        V4(self.2, self.2, self.3, self.1)
    }

    /// Components 2, 2, 3, 2, in that order.
    pub fn zzwz(&self) -> (ret: V4<T>)
        ensures
            ret == V4(self.2, self.2, self.3, self.2),
    {
        V4(self.2, self.2, self.3, self.2)
    }

    /// Components 2, 2, 3, 3, in that order.
    pub fn zzww(&self) -> (ret: V4<T>)
        ensures
            ret == V4(self.2, self.2, self.3, self.3),
    {
        V4(self.2, self.2, self.3, self.3)
    }

    /// Components 2, 3, 0, 0, in that order.
    pub fn zwxx(&self) -> (ret: V4<T>)
        ensures
            ret == V4(self.2, self.3, self.0, self.0),
    {
        V4(self.2, self.3, self.0, self.0)
    }

    /// Components 2, 3, 0, 1, in that order.
    pub fn zwxy(&self) -> (ret: V4<T>)
        ensures
            ret == V4(self.2, self.3, self.0, self.1),
    {
        V4(self.2, self.3, self.0, self.1)
    }

    /// Writes the components of `value` into components 2, 3, 0, 1, in
    /// that order.
    pub fn set_zwxy(&mut self, value: V4<T>)
        ensures
            *final(self) == V4(value.2, value.3, value.0, value.1),
    {
        self.2 = value.0;
        self.3 = value.1;
        self.0 = value.2;
        self.1 = value.3;
    }

    /// Components 2, 3, 0, 2, in that order.
    pub fn zwxz(&self) -> (ret: V4<T>)
        ensures
            ret == V4(self.2, self.3, self.0, self.2),
    {
        V4(self.2, self.3, self.0, self.2)
    }

    /// Components 2, 3, 0, 3, in that order.
    pub fn zwxw(&self) -> (ret: V4<T>)
        ensures
            ret == V4(self.2, self.3, self.0, self.3),
    {
        V4(self.2, self.3, self.0, self.3)
    }

    /// Components 2, 3, 1, 0, in that order.
    pub fn zwyx(&self) -> (ret: V4<T>)
        ensures
            ret == V4(self.2, self.3, self.1, self.0),
    {
        V4(self.2, self.3, self.1, self.0)
    }

    /// Writes the components of `value` into components 2, 3, 1, 0, in
    /// that order.
    pub fn set_zwyx(&mut self, value: V4<T>)
        ensures
            *final(self) == V4(value.3, value.2, value.0, value.1),
    {
        self.2 = value.0;
        self.3 = value.1;
        self.1 = value.2;
        self.0 = value.3;
    }

    /// Components 2, 3, 1, 1, in that order.
    pub fn zwyy(&self) -> (ret: V4<T>)
        ensures
            ret == V4(self.2, self.3, self.1, self.1),
    {
        V4(self.2, self.3, self.1, self.1)
    }

    /// Components 2, 3, 1, 2, in that order.
    pub fn zwyz(&self) -> (ret: V4<T>)
        ensures
            ret == V4(self.2, self.3, self.1, self.2),
    {
        V4(self.2, self.3, self.1, self.2)
    }

    /// Components 2, 3, 1, 3, in that order.
    pub fn zwyw(&self) -> (ret: V4<T>)
        ensures
            ret == V4(self.2, self.3, self.1, self.3),
    {
        V4(self.2, self.3, self.1, self.3)
    }

    /// Components 2, 3, 2, 0, in that order.
    pub fn zwzx(&self) -> (ret: V4<T>)
        ensures
            ret == V4(self.2, self.3, self.2, self.0),
    {
        V4(self.2, self.3, self.2, self.0)
    }

    /// Components 2, 3, 2, 1, in that order.
    pub fn zwzy(&self) -> (ret: V4<T>)
        ensures
            ret == V4(self.2, self.3, self.2, self.1),
    {
        V4(self.2, self.3, self.2, self.1)
    }

    /// Components 2, 3, 2, 2, in that order.
    pub fn zwzz(&self) -> (ret: V4<T>)
        ensures
            ret == V4(self.2, self.3, self.2, self.2),
    {
        V4(self.2, self.3, self.2, self.2)
    }

    /// Components 2, 3, 2, 3, in that order.
    pub fn zwzw(&self) -> (ret: V4<T>)
        ensures
            ret == V4(self.2, self.3, self.2, self.3),
    {
        V4(self.2, self.3, self.2, self.3)
    }

    /// Components 2, 3, 3, 0, in that order.
    pub fn zwwx(&self) -> (ret: V4<T>)
        ensures
            ret == V4(self.2, self.3, self.3, self.0),
    {
        V4(self.2, self.3, self.3, self.0)
    }

    /// Components 2, 3, 3, 1, in that order.
    pub fn zwwy(&self) -> (ret: V4<T>)
        ensures
            ret == V4(self.2, self.3, self.3, self.1),
    {
        V4(self.2, self.3, self.3, self.1)
    }

    /// Components 2, 3, 3, 2, in that order.
    pub fn zwwz(&self) -> (ret: V4<T>)
        ensures
            ret == V4(self.2, self.3, self.3, self.2),
    {
        V4(self.2, self.3, self.3, self.2)
    }

    /// Components 2, 3, 3, 3, in that order.
    pub fn zwww(&self) -> (ret: V4<T>)
        ensures
            ret == V4(self.2, self.3, self.3, self.3),
    {
        V4(self.2, self.3, self.3, self.3)
    }

    /// Components 3, 0, 0, 0, in that order.
    pub fn wxxx(&self) -> (ret: V4<T>)
        ensures
            ret == V4(self.3, self.0, self.0, self.0),
    {
        V4(self.3, self.0, self.0, self.0)
    }

    /// Components 3, 0, 0, 1, in that order.
    pub fn wxxy(&self) -> (ret: V4<T>)
        ensures
            ret == V4(self.3, self.0, self.0, self.1),
    {
        V4(self.3, self.0, self.0, self.1)
    }

    /// Components 3, 0, 0, 2, in that order.
    pub fn wxxz(&self) -> (ret: V4<T>)
        ensures
            ret == V4(self.3, self.0, self.0, self.2),
    {
        V4(self.3, self.0, self.0, self.2)
    }

    /// Components 3, 0, 0, 3, in that order.
    pub fn wxxw(&self) -> (ret: V4<T>)
        ensures
            ret == V4(self.3, self.0, self.0, self.3),
    {
        V4(self.3, self.0, self.0, self.3)
    }

    /// Components 3, 0, 1, 0, in that order.
    pub fn wxyx(&self) -> (ret: V4<T>)
        ensures
            ret == V4(self.3, self.0, self.1, self.0),
    {
        V4(self.3, self.0, self.1, self.0)
    }

    /// Components 3, 0, 1, 1, in that order.
    pub fn wxyy(&self) -> (ret: V4<T>)
        ensures
            ret == V4(self.3, self.0, self.1, self.1),
    {
        V4(self.3, self.0, self.1, self.1)
    }

    /// Components 3, 0, 1, 2, in that order.
    pub fn wxyz(&self) -> (ret: V4<T>)
        ensures
            ret == V4(self.3, self.0, self.1, self.2),
    {
        V4(self.3, self.0, self.1, self.2)
    }

    /// Writes the components of `value` into components 3, 0, 1, 2, in
    /// that order.
    pub fn set_wxyz(&mut self, value: V4<T>)
        ensures
            *final(self) == V4(value.1, value.2, value.3, value.0),
    {
        self.3 = value.0;
        self.0 = value.1;
        self.1 = value.2;
        self.2 = value.3;
    }

    /// Components 3, 0, 1, 3, in that order.
    pub fn wxyw(&self) -> (ret: V4<T>)
        ensures
            ret == V4(self.3, self.0, self.1, self.3),
    {
        V4(self.3, self.0, self.1, self.3)
    }

    /// Components 3, 0, 2, 0, in that order.
    pub fn wxzx(&self) -> (ret: V4<T>)
        ensures
            ret == V4(self.3, self.0, self.2, self.0),
    {
        V4(self.3, self.0, self.2, self.0)
    }

    /// Components 3, 0, 2, 1, in that order.
    pub fn wxzy(&self) -> (ret: V4<T>)
        ensures
            ret == V4(self.3, self.0, self.2, self.1),
    {
        V4(self.3, self.0, self.2, self.1)
    }

    /// Writes the components of `value` into components 3, 0, 2, 1, in
    /// that order.
    pub fn set_wxzy(&mut self, value: V4<T>)
        ensures
            *final(self) == V4(value.1, value.3, value.2, value.0),
    {
        self.3 = value.0;
        self.0 = value.1;
        self.2 = value.2;
        self.1 = value.3;
    }

    /// Components 3, 0, 2, 2, in that order.
    pub fn wxzz(&self) -> (ret: V4<T>)
        ensures
            ret == V4(self.3, self.0, self.2, self.2),
    {
        V4(self.3, self.0, self.2, self.2)
    }

    /// Components 3, 0, 2, 3, in that order.
    pub fn wxzw(&self) -> (ret: V4<T>)
        ensures
            ret == V4(self.3, self.0, self.2, self.3),
    {
        V4(self.3, self.0, self.2, self.3)
    }

    /// Components 3, 0, 3, 0, in that order.
    pub fn wxwx(&self) -> (ret: V4<T>)
        ensures
            ret == V4(self.3, self.0, self.3, self.0),
    {
        V4(self.3, self.0, self.3, self.0)
    }

    /// Components 3, 0, 3, 1, in that order.
    pub fn wxwy(&self) -> (ret: V4<T>)
        ensures
            ret == V4(self.3, self.0, self.3, self.1),
    {
        V4(self.3, self.0, self.3, self.1)
    }

    /// Components 3, 0, 3, 2, in that order.
    pub fn wxwz(&self) -> (ret: V4<T>)
        ensures
            ret == V4(self.3, self.0, self.3, self.2),
    {
        V4(self.3, self.0, self.3, self.2)
    }

    /// Components 3, 0, 3, 3, in that order.
    pub fn wxww(&self) -> (ret: V4<T>)
        ensures
            ret == V4(self.3, self.0, self.3, self.3),
    {
        V4(self.3, self.0, self.3, self.3)
    }

    /// Components 3, 1, 0, 0, in that order.
    pub fn wyxx(&self) -> (ret: V4<T>)
        ensures
            ret == V4(self.3, self.1, self.0, self.0),
    {
        V4(self.3, self.1, self.0, self.0)
    }

    /// Components 3, 1, 0, 1, in that order.
    pub fn wyxy(&self) -> (ret: V4<T>)
        ensures
            ret == V4(self.3, self.1, self.0, self.1),
    {
        V4(self.3, self.1, self.0, self.1)
    }

    /// Components 3, 1, 0, 2, in that order.
    pub fn wyxz(&self) -> (ret: V4<T>)
        ensures
            ret == V4(self.3, self.1, self.0, self.2),
    {
        V4(self.3, self.1, self.0, self.2)
    }

    /// Writes the components of `value` into components 3, 1, 0, 2, in
    /// that order.
    pub fn set_wyxz(&mut self, value: V4<T>)
        ensures
            *final(self) == V4(value.2, value.1, value.3, value.0),
    {
        self.3 = value.0;
        self.1 = value.1;
        self.0 = value.2;
        self.2 = value.3;
    }

    /// Components 3, 1, 0, 3, in that order.
    pub fn wyxw(&self) -> (ret: V4<T>)
        ensures
            ret == V4(self.3, self.1, self.0, self.3),
    {
        V4(self.3, self.1, self.0, self.3)
    }

    /// Components 3, 1, 1, 0, in that order.
    pub fn wyyx(&self) -> (ret: V4<T>)
        ensures
            ret == V4(self.3, self.1, self.1, self.0),
    {
        V4(self.3, self.1, self.1, self.0)
    }

    /// Components 3, 1, 1, 1, in that order.
    pub fn wyyy(&self) -> (ret: V4<T>)
        ensures
            ret == V4(self.3, self.1, self.1, self.1),
    {
        V4(self.3, self.1, self.1, self.1)
    }

    /// Components 3, 1, 1, 2, in that order.
    pub fn wyyz(&self) -> (ret: V4<T>)
        ensures
            ret == V4(self.3, self.1, self.1, self.2),
    {
        V4(self.3, self.1, self.1, self.2)
    }

    /// Components 3, 1, 1, 3, in that order.
    pub fn wyyw(&self) -> (ret: V4<T>)
        ensures
            ret == V4(self.3, self.1, self.1, self.3),
    {
        V4(self.3, self.1, self.1, self.3)
    }

    /// Components 3, 1, 2, 0, in that order.
    pub fn wyzx(&self) -> (ret: V4<T>)
        ensures
            ret == V4(self.3, self.1, self.2, self.0),
    {
        V4(self.3, self.1, self.2, self.0)
    }

    /// Writes the components of `value` into components 3, 1, 2, 0, in
    /// that order.
    pub fn set_wyzx(&mut self, value: V4<T>)
        ensures
            *final(self) == V4(value.3, value.1, value.2, value.0),
    {
        self.3 = value.0;
        self.1 = value.1;
        self.2 = value.2;
        self.0 = value.3;
    }

    /// Components 3, 1, 2, 1, in that order.
    pub fn wyzy(&self) -> (ret: V4<T>)
        ensures
            ret == V4(self.3, self.1, self.2, self.1),
    {
        V4(self.3, self.1, self.2, self.1)
    }

    /// Components 3, 1, 2, 2, in that order.
    pub fn wyzz(&self) -> (ret: V4<T>)
        ensures
            ret == V4(self.3, self.1, self.2, self.2),
    {
        V4(self.3, self.1, self.2, self.2)
    }

    /// Components 3, 1, 2, 3, in that order.
    pub fn wyzw(&self) -> (ret: V4<T>)
        ensures
            ret == V4(self.3, self.1, self.2, self.3),
    {
        V4(self.3, self.1, self.2, self.3)
    }

    /// Components 3, 1, 3, 0, in that order.
    pub fn wywx(&self) -> (ret: V4<T>)
        ensures
            ret == V4(self.3, self.1, self.3, self.0),
    {
        V4(self.3, self.1, self.3, self.0)
    }

    /// Components 3, 1, 3, 1, in that order.
    pub fn wywy(&self) -> (ret: V4<T>)
        ensures
            ret == V4(self.3, self.1, self.3, self.1),
    {
        V4(self.3, self.1, self.3, self.1)
    }

    /// Components 3, 1, 3, 2, in that order.
    pub fn wywz(&self) -> (ret: V4<T>)
        ensures
            ret == V4(self.3, self.1, self.3, self.2),
    {
        V4(self.3, self.1, self.3, self.2)
    }

    /// Components 3, 1, 3, 3, in that order.
    pub fn wyww(&self) -> (ret: V4<T>)
        ensures
            ret == V4(self.3, self.1, self.3, self.3),
    {
        V4(self.3, self.1, self.3, self.3)
    }

    /// Components 3, 2, 0, 0, in that order.
    pub fn wzxx(&self) -> (ret: V4<T>)
        ensures
            ret == V4(self.3, self.2, self.0, self.0),
    {
        V4(self.3, self.2, self.0, self.0)
    }

    /// Components 3, 2, 0, 1, in that order.
    pub fn wzxy(&self) -> (ret: V4<T>)
        ensures
            ret == V4(self.3, self.2, self.0, self.1),
    {
        V4(self.3, self.2, self.0, self.1)
    }

    /// Writes the components of `value` into components 3, 2, 0, 1, in
    /// that order.
    pub fn set_wzxy(&mut self, value: V4<T>)
        ensures
            *final(self) == V4(value.2, value.3, value.1, value.0),
    {
        self.3 = value.0;
        self.2 = value.1;
        self.0 = value.2;
        self.1 = value.3;
    }

    /// Components 3, 2, 0, 2, in that order.
    pub fn wzxz(&self) -> (ret: V4<T>)
        ensures
            ret == V4(self.3, self.2, self.0, self.2),
    {
        V4(self.3, self.2, self.0, self.2)
    }

    /// Components 3, 2, 0, 3, in that order.
    pub fn wzxw(&self) -> (ret: V4<T>)
        ensures
            ret == V4(self.3, self.2, self.0, self.3),
    {
        V4(self.3, self.2, self.0, self.3)
    }

    /// Components 3, 2, 1, 0, in that order.
    pub fn wzyx(&self) -> (ret: V4<T>)
        ensures
            ret == V4(self.3, self.2, self.1, self.0),
    {
        V4(self.3, self.2, self.1, self.0)
    }

    /// Writes the components of `value` into components 3, 2, 1, 0, in
    /// that order.
    pub fn set_wzyx(&mut self, value: V4<T>)
        ensures
            *final(self) == V4(value.3, value.2, value.1, value.0),
    {
        self.3 = value.0;
        self.2 = value.1;
        self.1 = value.2;
        self.0 = value.3;
    }

    /// Components 3, 2, 1, 1, in that order.
    pub fn wzyy(&self) -> (ret: V4<T>)
        ensures
            ret == V4(self.3, self.2, self.1, self.1),
    {
        V4(self.3, self.2, self.1, self.1)
    }

    /// Components 3, 2, 1, 2, in that order.
    pub fn wzyz(&self) -> (ret: V4<T>)
        ensures
            ret == V4(self.3, self.2, self.1, self.2),
    {
        V4(self.3, self.2, self.1, self.2)
    }

    /// Components 3, 2, 1, 3, in that order.
    pub fn wzyw(&self) -> (ret: V4<T>)
        ensures
            ret == V4(self.3, self.2, self.1, self.3),
    {
        V4(self.3, self.2, self.1, self.3)
    }

    /// Components 3, 2, 2, 0, in that order.
    pub fn wzzx(&self) -> (ret: V4<T>)
        ensures
            ret == V4(self.3, self.2, self.2, self.0),
    {
        V4(self.3, self.2, self.2, self.0)
    }

    /// Components 3, 2, 2, 1, in that order.
    pub fn wzzy(&self) -> (ret: V4<T>)
        ensures
            ret == V4(self.3, self.2, self.2, self.1),
    {
        V4(self.3, self.2, self.2, self.1)
    }

    /// Components 3, 2, 2, 2, in that order.
    pub fn wzzz(&self) -> (ret: V4<T>)
        ensures
            ret == V4(self.3, self.2, self.2, self.2),
    {
        V4(self.3, self.2, self.2, self.2)
    }

    /// Components 3, 2, 2, 3, in that order.
    pub fn wzzw(&self) -> (ret: V4<T>)
        ensures
            ret == V4(self.3, self.2, self.2, self.3),
    {
        V4(self.3, self.2, self.2, self.3)
    }

    /// Components 3, 2, 3, 0, in that order.
    pub fn wzwx(&self) -> (ret: V4<T>)
        ensures
            ret == V4(self.3, self.2, self.3, self.0),
    {
        V4(self.3, self.2, self.3, self.0)
    }

    /// Components 3, 2, 3, 1, in that order.
    pub fn wzwy(&self) -> (ret: V4<T>)
        ensures
            ret == V4(self.3, self.2, self.3, self.1),
    {
        V4(self.3, self.2, self.3, self.1)
    }

    /// Components 3, 2, 3, 2, in that order.
    pub fn wzwz(&self) -> (ret: V4<T>)
        ensures
            ret == V4(self.3, self.2, self.3, self.2),
    {
        V4(self.3, self.2, self.3, self.2)
    }

    /// Components 3, 2, 3, 3, in that order.
    pub fn wzww(&self) -> (ret: V4<T>)
        ensures
            ret == V4(self.3, self.2, self.3, self.3),
    {
        V4(self.3, self.2, self.3, self.3)
    }

    /// Components 3, 3, 0, 0, in that order.
    pub fn wwxx(&self) -> (ret: V4<T>)
        ensures
            ret == V4(self.3, self.3, self.0, self.0),
    {
        V4(self.3, self.3, self.0, self.0)
    }

    /// Components 3, 3, 0, 1, in that order.
    pub fn wwxy(&self) -> (ret: V4<T>)
        ensures
            ret == V4(self.3, self.3, self.0, self.1),
    {
        V4(self.3, self.3, self.0, self.1)
    }

    /// Components 3, 3, 0, 2, in that order.
    pub fn wwxz(&self) -> (ret: V4<T>)
        ensures
            ret == V4(self.3, self.3, self.0, self.2),
    {
        V4(self.3, self.3, self.0, self.2)
    }

    /// Components 3, 3, 0, 3, in that order.
    pub fn wwxw(&self) -> (ret: V4<T>)
        ensures
            ret == V4(self.3, self.3, self.0, self.3),
    {
        V4(self.3, self.3, self.0, self.3)
    }

    /// Components 3, 3, 1, 0, in that order.
    pub fn wwyx(&self) -> (ret: V4<T>)
        ensures
            ret == V4(self.3, self.3, self.1, self.0),
    {
        V4(self.3, self.3, self.1, self.0)
    }

    /// Components 3, 3, 1, 1, in that order.
    pub fn wwyy(&self) -> (ret: V4<T>)
        ensures
            ret == V4(self.3, self.3, self.1, self.1),
    {
        V4(self.3, self.3, self.1, self.1)
    }

    /// Components 3, 3, 1, 2, in that order.
    pub fn wwyz(&self) -> (ret: V4<T>)
        ensures
            ret == V4(self.3, self.3, self.1, self.2),
    {
        V4(self.3, self.3, self.1, self.2)
    }

    /// Components 3, 3, 1, 3, in that order.
    pub fn wwyw(&self) -> (ret: V4<T>)
        ensures
            ret == V4(self.3, self.3, self.1, self.3),
    {
        V4(self.3, self.3, self.1, self.3)
    }

    /// Components 3, 3, 2, 0, in that order.
    pub fn wwzx(&self) -> (ret: V4<T>)
        ensures
            ret == V4(self.3, self.3, self.2, self.0),
    {
        V4(self.3, self.3, self.2, self.0)
    }

    /// Components 3, 3, 2, 1, in that order.
    pub fn wwzy(&self) -> (ret: V4<T>)
        ensures
            ret == V4(self.3, self.3, self.2, self.1),
    {
        V4(self.3, self.3, self.2, self.1)
    }

    /// Components 3, 3, 2, 2, in that order.
    pub fn wwzz(&self) -> (ret: V4<T>)
        ensures
            ret == V4(self.3, self.3, self.2, self.2),
    {
        V4(self.3, self.3, self.2, self.2)
    }

    /// Components 3, 3, 2, 3, in that order.
    pub fn wwzw(&self) -> (ret: V4<T>)
        ensures
            ret == V4(self.3, self.3, self.2, self.3),
    {
        V4(self.3, self.3, self.2, self.3)
    }

    /// Components 3, 3, 3, 0, in that order.
    pub fn wwwx(&self) -> (ret: V4<T>)
        ensures
            ret == V4(self.3, self.3, self.3, self.0),
    {
        V4(self.3, self.3, self.3, self.0)
    }

    /// Components 3, 3, 3, 1, in that order.
    pub fn wwwy(&self) -> (ret: V4<T>)
        ensures
            ret == V4(self.3, self.3, self.3, self.1),
    {
        V4(self.3, self.3, self.3, self.1)
    }

    /// Components 3, 3, 3, 2, in that order.
    pub fn wwwz(&self) -> (ret: V4<T>)
        ensures
            ret == V4(self.3, self.3, self.3, self.2),
    {
        V4(self.3, self.3, self.3, self.2)
    }

    /// Components 3, 3, 3, 3, in that order.
    pub fn wwww(&self) -> (ret: V4<T>)
        ensures
            ret == V4(self.3, self.3, self.3, self.3),
    {
        V4(self.3, self.3, self.3, self.3)
    }

    /// Component 0.
    pub fn r(&self) -> (ret: T)
        ensures
            ret == self.0,
    {
        self.0
    }

    /// Writes `value` into component 0.
    pub fn set_r(&mut self, value: T)
        ensures
            *final(self) == V4(value, old(self).1, old(self).2, old(self).3),
    {
        self.0 = value;
    }

    /// Component 1.
    pub fn g(&self) -> (ret: T)
        ensures
            ret == self.1,
    {
        self.1
    }

    /// Writes `value` into component 1.
    pub fn set_g(&mut self, value: T)
        ensures
            *final(self) == V4(old(self).0, value, old(self).2, old(self).3),
    {
        self.1 = value;
    }

    /// Component 2.
    pub fn b(&self) -> (ret: T)
        ensures
            ret == self.2,
    {
        self.2
    }

    /// Writes `value` into component 2.
    pub fn set_b(&mut self, value: T)
        ensures
            *final(self) == V4(old(self).0, old(self).1, value, old(self).3),
    {
        self.2 = value;
    }

    /// Component 3.
    pub fn a(&self) -> (ret: T)
        ensures
            ret == self.3,
    {
        self.3
    }

    /// Writes `value` into component 3.
    pub fn set_a(&mut self, value: T)
        ensures
            *final(self) == V4(old(self).0, old(self).1, old(self).2, value),
    {
        self.3 = value;
    }

    /// Components 0, 0, in that order.
    pub fn rr(&self) -> (ret: V2<T>)
        ensures
            ret == V2(self.0, self.0),
    {
        V2(self.0, self.0)
    }

    /// Components 0, 1, in that order.
    pub fn rg(&self) -> (ret: V2<T>)
        ensures
            ret == V2(self.0, self.1),
    {
        V2(self.0, self.1)
    }

    /// Writes the components of `value` into components 0, 1, in
    /// that order.
    pub fn set_rg(&mut self, value: V2<T>)
        ensures
            *final(self) == V4(value.0, value.1, old(self).2, old(self).3),
    {
        self.0 = value.0;
        self.1 = value.1;
    }

    /// Components 0, 2, in that order.
    pub fn rb(&self) -> (ret: V2<T>)
        ensures
            ret == V2(self.0, self.2),
    {
        V2(self.0, self.2)
    }

    /// Writes the components of `value` into components 0, 2, in
    /// that order.
    pub fn set_rb(&mut self, value: V2<T>)
        ensures
            *final(self) == V4(value.0, old(self).1, value.1, old(self).3),
    {
        self.0 = value.0;
        self.2 = value.1;
    }

    /// Components 0, 3, in that order.
    pub fn ra(&self) -> (ret: V2<T>)
        ensures
            ret == V2(self.0, self.3),
    {
        V2(self.0, self.3)
    }

    /// Writes the components of `value` into components 0, 3, in
    /// that order.
    pub fn set_ra(&mut self, value: V2<T>)
        ensures
            *final(self) == V4(value.0, old(self).1, old(self).2, value.1),
    {
        self.0 = value.0;
        self.3 = value.1;
    }

    /// Components 1, 0, in that order.
    pub fn gr(&self) -> (ret: V2<T>)
        ensures
            ret == V2(self.1, self.0),
    {
        V2(self.1, self.0)
    }

    /// Writes the components of `value` into components 1, 0, in
    /// that order.
    pub fn set_gr(&mut self, value: V2<T>)
        ensures
            *final(self) == V4(value.1, value.0, old(self).2, old(self).3),
    {
        self.1 = value.0;
        self.0 = value.1;
    }

    /// Components 1, 1, in that order.
    pub fn gg(&self) -> (ret: V2<T>)
        ensures
            ret == V2(self.1, self.1),
    {
        V2(self.1, self.1)
    }

    /// Components 1, 2, in that order.
    pub fn gb(&self) -> (ret: V2<T>)
        ensures
            ret == V2(self.1, self.2),
    {
        V2(self.1, self.2)
    }

    /// Writes the components of `value` into components 1, 2, in
    /// that order.
    pub fn set_gb(&mut self, value: V2<T>)
        ensures
            *final(self) == V4(old(self).0, value.0, value.1, old(self).3),
    {
        self.1 = value.0;
        self.2 = value.1;
    }

    /// Components 1, 3, in that order.
    pub fn ga(&self) -> (ret: V2<T>)
        ensures
            ret == V2(self.1, self.3),
    {
        V2(self.1, self.3)
    }

    /// Writes the components of `value` into components 1, 3, in
    /// that order.
    pub fn set_ga(&mut self, value: V2<T>)
        ensures
            *final(self) == V4(old(self).0, value.0, old(self).2, value.1),
    {
        self.1 = value.0;
        self.3 = value.1;
    }

    /// Components 2, 0, in that order.
    pub fn br(&self) -> (ret: V2<T>)
        ensures
            ret == V2(self.2, self.0),
    {
        V2(self.2, self.0)
    }

    /// Writes the components of `value` into components 2, 0, in
    /// that order.
    pub fn set_br(&mut self, value: V2<T>)
        ensures
            *final(self) == V4(value.1, old(self).1, value.0, old(self).3),
    {
        self.2 = value.0;
        self.0 = value.1;
    }

    /// Components 2, 1, in that order.
    pub fn bg(&self) -> (ret: V2<T>)
        ensures
            ret == V2(self.2, self.1),
    {
        V2(self.2, self.1)
    }

    /// Writes the components of `value` into components 2, 1, in
    /// that order.
    pub fn set_bg(&mut self, value: V2<T>)
        ensures
            *final(self) == V4(old(self).0, value.1, value.0, old(self).3),
    {
        self.2 = value.0;
        self.1 = value.1;
    }

    /// Components 2, 2, in that order.
    pub fn bb(&self) -> (ret: V2<T>)
        ensures
            ret == V2(self.2, self.2),
    {
        V2(self.2, self.2)
    }

    /// Components 2, 3, in that order.
    pub fn ba(&self) -> (ret: V2<T>)
        ensures
            ret == V2(self.2, self.3),
    {
        V2(self.2, self.3)
    }

    /// Writes the components of `value` into components 2, 3, in
    /// that order.
    pub fn set_ba(&mut self, value: V2<T>)
        ensures
            *final(self) == V4(old(self).0, old(self).1, value.0, value.1),
    {
        self.2 = value.0;
        self.3 = value.1;
    }

    /// Components 3, 0, in that order.
    pub fn ar(&self) -> (ret: V2<T>)
        ensures
            ret == V2(self.3, self.0),
    {
        V2(self.3, self.0)
    }

    /// Writes the components of `value` into components 3, 0, in
    /// that order.
    pub fn set_ar(&mut self, value: V2<T>)
        ensures
            *final(self) == V4(value.1, old(self).1, old(self).2, value.0),
    {
        self.3 = value.0;
        self.0 = value.1;
    }

    /// Components 3, 1, in that order.
    pub fn ag(&self) -> (ret: V2<T>)
        ensures
            ret == V2(self.3, self.1),
    {
        V2(self.3, self.1)
    }

    /// Writes the components of `value` into components 3, 1, in
    /// that order.
    pub fn set_ag(&mut self, value: V2<T>)
        ensures
            *final(self) == V4(old(self).0, value.1, old(self).2, value.0),
    {
        self.3 = value.0;
        self.1 = value.1;
    }

    /// Components 3, 2, in that order.
    pub fn ab(&self) -> (ret: V2<T>)
        ensures
            ret == V2(self.3, self.2),
    {
        V2(self.3, self.2)
    }

    /// Writes the components of `value` into components 3, 2, in
    /// that order.
    pub fn set_ab(&mut self, value: V2<T>)
        ensures
            *final(self) == V4(old(self).0, old(self).1, value.1, value.0),
    {
        self.3 = value.0;
        self.2 = value.1;
    }

    /// Components 3, 3, in that order.
    pub fn aa(&self) -> (ret: V2<T>)
        ensures
            ret == V2(self.3, self.3),
    {
        V2(self.3, self.3)
    }

    /// Components 0, 0, 0, in that order.
    pub fn rrr(&self) -> (ret: V3<T>)
        ensures
            ret == V3(self.0, self.0, self.0),
    {
        V3(self.0, self.0, self.0)
    }

    /// Components 0, 0, 1, in that order.
    pub fn rrg(&self) -> (ret: V3<T>)
        ensures
            ret == V3(self.0, self.0, self.1),
    {
        V3(self.0, self.0, self.1)
    }

    /// Components 0, 0, 2, in that order.
    pub fn rrb(&self) -> (ret: V3<T>)
        ensures
            ret == V3(self.0, self.0, self.2),
    {
        V3(self.0, self.0, self.2)
    }

    /// Components 0, 0, 3, in that order.
    pub fn rra(&self) -> (ret: V3<T>)
        ensures
            ret == V3(self.0, self.0, self.3),
    {
        V3(self.0, self.0, self.3)
    }

    /// Components 0, 1, 0, in that order.
    pub fn rgr(&self) -> (ret: V3<T>)
        ensures
            ret == V3(self.0, self.1, self.0),
    {
        V3(self.0, self.1, self.0)
    }

    /// Components 0, 1, 1, in that order.
    pub fn rgg(&self) -> (ret: V3<T>)
        ensures
            ret == V3(self.0, self.1, self.1),
    {
        V3(self.0, self.1, self.1)
    }

    /// Components 0, 1, 2, in that order.
    pub fn rgb(&self) -> (ret: V3<T>)
        ensures
            ret == V3(self.0, self.1, self.2),
    {
        V3(self.0, self.1, self.2)
    }

    /// Writes the components of `value` into components 0, 1, 2, in
    /// that order.
    pub fn set_rgb(&mut self, value: V3<T>)
        ensures
            *final(self) == V4(value.0, value.1, value.2, old(self).3),
    {
        self.0 = value.0;
        self.1 = value.1;
        self.2 = value.2;
    }

    /// Components 0, 1, 3, in that order.
    pub fn rga(&self) -> (ret: V3<T>)
        ensures
            ret == V3(self.0, self.1, self.3),
    {
        V3(self.0, self.1, self.3)
    }

    /// Writes the components of `value` into components 0, 1, 3, in
    /// that order.
    pub fn set_rga(&mut self, value: V3<T>)
        ensures
            *final(self) == V4(value.0, value.1, old(self).2, value.2),
    {
        self.0 = value.0;
        self.1 = value.1;
        self.3 = value.2;
    }

    /// Components 0, 2, 0, in that order.
    pub fn rbr(&self) -> (ret: V3<T>)
        ensures
            ret == V3(self.0, self.2, self.0),
    {
        V3(self.0, self.2, self.0)
    }

    /// Components 0, 2, 1, in that order.
    pub fn rbg(&self) -> (ret: V3<T>)
        ensures
            ret == V3(self.0, self.2, self.1),
    {
        V3(self.0, self.2, self.1)
    }

    /// Writes the components of `value` into components 0, 2, 1, in
    /// that order.
    pub fn set_rbg(&mut self, value: V3<T>)
        ensures
            *final(self) == V4(value.0, value.2, value.1, old(self).3),
    {
        self.0 = value.0;
        self.2 = value.1;
        self.1 = value.2;
    }

    /// Components 0, 2, 2, in that order.
    pub fn rbb(&self) -> (ret: V3<T>)
        ensures
            ret == V3(self.0, self.2, self.2),
    {
        V3(self.0, self.2, self.2)
    }

    /// Components 0, 2, 3, in that order.
    pub fn rba(&self) -> (ret: V3<T>)
        ensures
            ret == V3(self.0, self.2, self.3),
    {
        V3(self.0, self.2, self.3)
    }

    /// Writes the components of `value` into components 0, 2, 3, in
    /// that order.
    pub fn set_rba(&mut self, value: V3<T>)
        ensures
            *final(self) == V4(value.0, old(self).1, value.1, value.2),
    {
        self.0 = value.0;
        self.2 = value.1;
        self.3 = value.2;
    }

    /// Components 0, 3, 0, in that order.
    pub fn rar(&self) -> (ret: V3<T>)
        ensures
            ret == V3(self.0, self.3, self.0),
    {
        V3(self.0, self.3, self.0)
    }

    /// Components 0, 3, 1, in that order.
    pub fn rag(&self) -> (ret: V3<T>)
        ensures
            ret == V3(self.0, self.3, self.1),
    {
        V3(self.0, self.3, self.1)
    }

    /// Writes the components of `value` into components 0, 3, 1, in
    /// that order.
    pub fn set_rag(&mut self, value: V3<T>)
        ensures
            *final(self) == V4(value.0, value.2, old(self).2, value.1),
    {
        self.0 = value.0;
        self.3 = value.1;
        self.1 = value.2;
    }

    /// Components 0, 3, 2, in that order.
    pub fn rab(&self) -> (ret: V3<T>)
        ensures
            ret == V3(self.0, self.3, self.2),
    {
        V3(self.0, self.3, self.2)
    }

    /// Writes the components of `value` into components 0, 3, 2, in
    /// that order.
    pub fn set_rab(&mut self, value: V3<T>)
        ensures
            *final(self) == V4(value.0, old(self).1, value.2, value.1),
    {
        self.0 = value.0;
        self.3 = value.1;
        self.2 = value.2;
    }

    /// Components 0, 3, 3, in that order.
    pub fn raa(&self) -> (ret: V3<T>)
        ensures
            ret == V3(self.0, self.3, self.3),
    {
        V3(self.0, self.3, self.3)
    }

    /// Components 1, 0, 0, in that order.
    pub fn grr(&self) -> (ret: V3<T>)
        ensures
            ret == V3(self.1, self.0, self.0),
    {
        V3(self.1, self.0, self.0)
    }

    /// Components 1, 0, 1, in that order.
    pub fn grg(&self) -> (ret: V3<T>)
        ensures
            ret == V3(self.1, self.0, self.1),
    {
        V3(self.1, self.0, self.1)
    }

    /// Components 1, 0, 2, in that order.
    pub fn grb(&self) -> (ret: V3<T>)
        ensures
            ret == V3(self.1, self.0, self.2),
    {
        V3(self.1, self.0, self.2)
    }

    /// Writes the components of `value` into components 1, 0, 2, in
    /// that order.
    pub fn set_grb(&mut self, value: V3<T>)
        ensures
            *final(self) == V4(value.1, value.0, value.2, old(self).3),
    {
        self.1 = value.0;
        self.0 = value.1;
        self.2 = value.2;
    }

    /// Components 1, 0, 3, in that order.
    pub fn gra(&self) -> (ret: V3<T>)
        ensures
            ret == V3(self.1, self.0, self.3),
    {
        V3(self.1, self.0, self.3)
    }

    /// Writes the components of `value` into components 1, 0, 3, in
    /// that order.
    pub fn set_gra(&mut self, value: V3<T>)
        ensures
            *final(self) == V4(value.1, value.0, old(self).2, value.2),
    {
        self.1 = value.0;
        self.0 = value.1;
        self.3 = value.2;
    }

    /// Components 1, 1, 0, in that order.
    pub fn ggr(&self) -> (ret: V3<T>)
        ensures
            ret == V3(self.1, self.1, self.0),
    {
        V3(self.1, self.1, self.0)
    }

    /// Components 1, 1, 1, in that order.
    pub fn ggg(&self) -> (ret: V3<T>)
        ensures
            ret == V3(self.1, self.1, self.1),
    {
        V3(self.1, self.1, self.1)
    }

    /// Components 1, 1, 2, in that order.
    pub fn ggb(&self) -> (ret: V3<T>)
        ensures
            ret == V3(self.1, self.1, self.2),
    {
        V3(self.1, self.1, self.2)
    }

    /// Components 1, 1, 3, in that order.
    pub fn gga(&self) -> (ret: V3<T>)
        ensures
            ret == V3(self.1, self.1, self.3),
    {
        V3(self.1, self.1, self.3)
    }

    /// Components 1, 2, 0, in that order.
    pub fn gbr(&self) -> (ret: V3<T>)
        ensures
            ret == V3(self.1, self.2, self.0),
    {
        V3(self.1, self.2, self.0)
    }

    /// Writes the components of `value` into components 1, 2, 0, in
    /// that order.
    pub fn set_gbr(&mut self, value: V3<T>)
        ensures
            *final(self) == V4(value.2, value.0, value.1, old(self).3),
    {
        self.1 = value.0;
        self.2 = value.1;
        self.0 = value.2;
    }

    /// Components 1, 2, 1, in that order.
    pub fn gbg(&self) -> (ret: V3<T>)
        ensures
            ret == V3(self.1, self.2, self.1),
    {
        V3(self.1, self.2, self.1)
    }

    /// Components 1, 2, 2, in that order.
    pub fn gbb(&self) -> (ret: V3<T>)
        ensures
            ret == V3(self.1, self.2, self.2),
    {
        V3(self.1, self.2, self.2)
    }

    /// Components 1, 2, 3, in that order.
    pub fn gba(&self) -> (ret: V3<T>)
        ensures
            ret == V3(self.1, self.2, self.3),
    {
        V3(self.1, self.2, self.3)
    }

    /// Writes the components of `value` into components 1, 2, 3, in
    /// that order.
    pub fn set_gba(&mut self, value: V3<T>)
        ensures
            *final(self) == V4(old(self).0, value.0, value.1, value.2),
    {
        self.1 = value.0;
        self.2 = value.1;
        self.3 = value.2;
    }

    /// Components 1, 3, 0, in that order.
    pub fn gar(&self) -> (ret: V3<T>)
        ensures
            ret == V3(self.1, self.3, self.0),
    {
        V3(self.1, self.3, self.0)
    }

    /// Writes the components of `value` into components 1, 3, 0, in
    /// that order.
    pub fn set_gar(&mut self, value: V3<T>)
        ensures
            *final(self) == V4(value.2, value.0, old(self).2, value.1),
    {
        self.1 = value.0;
        self.3 = value.1;
        self.0 = value.2;
    }

    /// Components 1, 3, 1, in that order.
    pub fn gag(&self) -> (ret: V3<T>)
        ensures
            ret == V3(self.1, self.3, self.1),
    {
        V3(self.1, self.3, self.1)
    }

    /// Components 1, 3, 2, in that order.
    pub fn gab(&self) -> (ret: V3<T>)
        ensures
            ret == V3(self.1, self.3, self.2),
    {
        V3(self.1, self.3, self.2)
    }

    /// Writes the components of `value` into components 1, 3, 2, in
    /// that order.
    pub fn set_gab(&mut self, value: V3<T>)
        ensures
            *final(self) == V4(old(self).0, value.0, value.2, value.1),
    {
        self.1 = value.0;
        self.3 = value.1;
        self.2 = value.2;
    }

    /// Components 1, 3, 3, in that order.
    pub fn gaa(&self) -> (ret: V3<T>)
        ensures
            ret == V3(self.1, self.3, self.3),
    {
        V3(self.1, self.3, self.3)
    }

    /// Components 2, 0, 0, in that order.
    pub fn brr(&self) -> (ret: V3<T>)
        ensures
            ret == V3(self.2, self.0, self.0),
    {
        V3(self.2, self.0, self.0)
    }

    /// Components 2, 0, 1, in that order.
    pub fn brg(&self) -> (ret: V3<T>)
        ensures
            ret == V3(self.2, self.0, self.1),
    {
        V3(self.2, self.0, self.1)
    }

    /// Writes the components of `value` into components 2, 0, 1, in
    /// that order.
    pub fn set_brg(&mut self, value: V3<T>)
        ensures
            *final(self) == V4(value.1, value.2, value.0, old(self).3),
    {
        self.2 = value.0;
        self.0 = value.1;
        self.1 = value.2;
    }

    /// Components 2, 0, 2, in that order.
    pub fn brb(&self) -> (ret: V3<T>)
        ensures
            ret == V3(self.2, self.0, self.2),
    {
        V3(self.2, self.0, self.2)
    }

    /// Components 2, 0, 3, in that order.
    pub fn bra(&self) -> (ret: V3<T>)
        ensures
            ret == V3(self.2, self.0, self.3),
    {
        V3(self.2, self.0, self.3)
    }

    /// Writes the components of `value` into components 2, 0, 3, in
    /// that order.
    pub fn set_bra(&mut self, value: V3<T>)
        ensures
            *final(self) == V4(value.1, old(self).1, value.0, value.2),
    {
        self.2 = value.0;
        self.0 = value.1;
        self.3 = value.2;
    }

    /// Components 2, 1, 0, in that order.
    pub fn bgr(&self) -> (ret: V3<T>)
        ensures
            ret == V3(self.2, self.1, self.0),
    {
        V3(self.2, self.1, self.0)
    }

    /// Writes the components of `value` into components 2, 1, 0, in
    /// that order.
    pub fn set_bgr(&mut self, value: V3<T>)
        ensures
            *final(self) == V4(value.2, value.1, value.0, old(self).3),
    {
        self.2 = value.0;
        self.1 = value.1;
        self.0 = value.2;
    }

    /// Components 2, 1, 1, in that order.
    pub fn bgg(&self) -> (ret: V3<T>)
        ensures
            ret == V3(self.2, self.1, self.1),
    {
        V3(self.2, self.1, self.1)
    }

    /// Components 2, 1, 2, in that order.
    pub fn bgb(&self) -> (ret: V3<T>)
        ensures
            ret == V3(self.2, self.1, self.2),
    {
        V3(self.2, self.1, self.2)
    }

    /// Components 2, 1, 3, in that order.
    pub fn bga(&self) -> (ret: V3<T>)
        ensures
            ret == V3(self.2, self.1, self.3),
    {
        V3(self.2, self.1, self.3)
    }

    /// Writes the components of `value` into components 2, 1, 3, in
    /// that order.
    pub fn set_bga(&mut self, value: V3<T>)
        ensures
            *final(self) == V4(old(self).0, value.1, value.0, value.2),
    {
        self.2 = value.0;
        self.1 = value.1;
        self.3 = value.2;
    }

    /// Components 2, 2, 0, in that order.
    pub fn bbr(&self) -> (ret: V3<T>)
        ensures
            ret == V3(self.2, self.2, self.0),
    {
        V3(self.2, self.2, self.0)
    }

    /// Components 2, 2, 1, in that order.
    pub fn bbg(&self) -> (ret: V3<T>)
        ensures
            ret == V3(self.2, self.2, self.1),
    {
        V3(self.2, self.2, self.1)
    }

    /// Components 2, 2, 2, in that order.
    pub fn bbb(&self) -> (ret: V3<T>)
        ensures
            ret == V3(self.2, self.2, self.2),
    {
        V3(self.2, self.2, self.2)
    }

    /// Components 2, 2, 3, in that order.
    pub fn bba(&self) -> (ret: V3<T>)
        ensures
            ret == V3(self.2, self.2, self.3),
    {
        V3(self.2, self.2, self.3)
    }

    /// Components 2, 3, 0, in that order.
    pub fn bar(&self) -> (ret: V3<T>)
        ensures
            ret == V3(self.2, self.3, self.0),
    {
        V3(self.2, self.3, self.0)
    }

    /// Writes the components of `value` into components 2, 3, 0, in
    /// that order.
    pub fn set_bar(&mut self, value: V3<T>)
        ensures
            *final(self) == V4(value.2, old(self).1, value.0, value.1),
    {
        self.2 = value.0;
        self.3 = value.1;
        self.0 = value.2;
    }

    /// Components 2, 3, 1, in that order.
    pub fn bag(&self) -> (ret: V3<T>)
        ensures
            ret == V3(self.2, self.3, self.1),
    {
        V3(self.2, self.3, self.1)
    }

    /// Writes the components of `value` into components 2, 3, 1, in
    /// that order.
    pub fn set_bag(&mut self, value: V3<T>)
        ensures
            *final(self) == V4(old(self).0, value.2, value.0, value.1),
    {
        self.2 = value.0;
        self.3 = value.1;
        self.1 = value.2;
    }

    /// Components 2, 3, 2, in that order.
    pub fn bab(&self) -> (ret: V3<T>)
        ensures
            ret == V3(self.2, self.3, self.2),
    {
        V3(self.2, self.3, self.2)
    }

    /// Components 2, 3, 3, in that order.
    pub fn baa(&self) -> (ret: V3<T>)
        ensures
            ret == V3(self.2, self.3, self.3),
    {
        V3(self.2, self.3, self.3)
    }

    /// Components 3, 0, 0, in that order.
    pub fn arr(&self) -> (ret: V3<T>)
        ensures
            ret == V3(self.3, self.0, self.0),
    {
        V3(self.3, self.0, self.0)
    }

    /// Components 3, 0, 1, in that order.
    pub fn arg(&self) -> (ret: V3<T>)
        ensures
            ret == V3(self.3, self.0, self.1),
    {
        V3(self.3, self.0, self.1)
    }

    /// Writes the components of `value` into components 3, 0, 1, in
    /// that order.
    pub fn set_arg(&mut self, value: V3<T>)
        ensures
            *final(self) == V4(value.1, value.2, old(self).2, value.0),
    {
        self.3 = value.0;
        self.0 = value.1;
        self.1 = value.2;
    }

    /// Components 3, 0, 2, in that order.
    pub fn arb(&self) -> (ret: V3<T>)
        ensures
            ret == V3(self.3, self.0, self.2),
    {
        V3(self.3, self.0, self.2)
    }

    /// Writes the components of `value` into components 3, 0, 2, in
    /// that order.
    pub fn set_arb(&mut self, value: V3<T>)
        ensures
            *final(self) == V4(value.1, old(self).1, value.2, value.0),
    {
        self.3 = value.0;
        self.0 = value.1;
        self.2 = value.2;
    }

    /// Components 3, 0, 3, in that order.
    pub fn ara(&self) -> (ret: V3<T>)
        ensures
            ret == V3(self.3, self.0, self.3),
    {
        V3(self.3, self.0, self.3)
    }

    /// Components 3, 1, 0, in that order.
    pub fn agr(&self) -> (ret: V3<T>)
        ensures
            ret == V3(self.3, self.1, self.0),
    {
        V3(self.3, self.1, self.0)
    }

    /// Writes the components of `value` into components 3, 1, 0, in
    /// that order.
    pub fn set_agr(&mut self, value: V3<T>)
        ensures
            *final(self) == V4(value.2, value.1, old(self).2, value.0),
    {
        self.3 = value.0;
        self.1 = value.1;
        self.0 = value.2;
    }

    /// Components 3, 1, 1, in that order.
    pub fn agg(&self) -> (ret: V3<T>)
        ensures
            ret == V3(self.3, self.1, self.1),
    {
        V3(self.3, self.1, self.1)
    }

    /// Components 3, 1, 2, in that order.
    pub fn agb(&self) -> (ret: V3<T>)
        ensures
            ret == V3(self.3, self.1, self.2),
    {
        V3(self.3, self.1, self.2)
    }

    /// Writes the components of `value` into components 3, 1, 2, in
    /// that order.
    pub fn set_agb(&mut self, value: V3<T>)
        ensures
            *final(self) == V4(old(self).0, value.1, value.2, value.0),
    {
        self.3 = value.0;
        self.1 = value.1;
        self.2 = value.2;
    }

    /// Components 3, 1, 3, in that order.
    pub fn aga(&self) -> (ret: V3<T>)
        ensures
            ret == V3(self.3, self.1, self.3),
    {
        V3(self.3, self.1, self.3)
    }

    /// Components 3, 2, 0, in that order.
    pub fn abr(&self) -> (ret: V3<T>)
        ensures
            ret == V3(self.3, self.2, self.0),
    {
        V3(self.3, self.2, self.0)
    }

    /// Writes the components of `value` into components 3, 2, 0, in
    /// that order.
    pub fn set_abr(&mut self, value: V3<T>)
        ensures
            *final(self) == V4(value.2, old(self).1, value.1, value.0),
    {
        self.3 = value.0;
        self.2 = value.1;
        self.0 = value.2;
    }

    /// Components 3, 2, 1, in that order.
    pub fn abg(&self) -> (ret: V3<T>)
        ensures
            ret == V3(self.3, self.2, self.1),
    {
        V3(self.3, self.2, self.1)
    }

    /// Writes the components of `value` into components 3, 2, 1, in
    /// that order.
    pub fn set_abg(&mut self, value: V3<T>)
        ensures
            *final(self) == V4(old(self).0, value.2, value.1, value.0),
    {
        self.3 = value.0;
        self.2 = value.1;
        self.1 = value.2;
    }

    /// Components 3, 2, 2, in that order.
    pub fn abb(&self) -> (ret: V3<T>)
        ensures
            ret == V3(self.3, self.2, self.2),
    {
        V3(self.3, self.2, self.2)
    }

    /// Components 3, 2, 3, in that order.
    pub fn aba(&self) -> (ret: V3<T>)
        ensures
            ret == V3(self.3, self.2, self.3),
    {
        V3(self.3, self.2, self.3)
    }

    /// Components 3, 3, 0, in that order.
    pub fn aar(&self) -> (ret: V3<T>)
        ensures
            ret == V3(self.3, self.3, self.0),
    {
        V3(self.3, self.3, self.0)
    }

    /// Components 3, 3, 1, in that order.
    pub fn aag(&self) -> (ret: V3<T>)
        ensures
            ret == V3(self.3, self.3, self.1),
    {
        V3(self.3, self.3, self.1)
    }

    /// Components 3, 3, 2, in that order.
    pub fn aab(&self) -> (ret: V3<T>)
        ensures
            ret == V3(self.3, self.3, self.2),
    {
        V3(self.3, self.3, self.2)
    }

    /// Components 3, 3, 3, in that order.
    pub fn aaa(&self) -> (ret: V3<T>)
        ensures
            ret == V3(self.3, self.3, self.3),
    {
        V3(self.3, self.3, self.3)
    }

    /// Components 0, 0, 0, 0, in that order.
    pub fn rrrr(&self) -> (ret: V4<T>)
        ensures
            ret == V4(self.0, self.0, self.0, self.0),
    {
        V4(self.0, self.0, self.0, self.0)
    }

    /// Components 0, 0, 0, 1, in that order.
    pub fn rrrg(&self) -> (ret: V4<T>)
        ensures
            ret == V4(self.0, self.0, self.0, self.1),
    {
        V4(self.0, self.0, self.0, self.1)
    }

    /// Components 0, 0, 0, 2, in that order.
    pub fn rrrb(&self) -> (ret: V4<T>)
        ensures
            ret == V4(self.0, self.0, self.0, self.2),
    {
        V4(self.0, self.0, self.0, self.2)
    }

    /// Components 0, 0, 0, 3, in that order.
    pub fn rrra(&self) -> (ret: V4<T>)
        ensures
            ret == V4(self.0, self.0, self.0, self.3),
    {
        V4(self.0, self.0, self.0, self.3)
    }

    /// Components 0, 0, 1, 0, in that order.
    pub fn rrgr(&self) -> (ret: V4<T>)
        ensures
            ret == V4(self.0, self.0, self.1, self.0),
    {
        V4(self.0, self.0, self.1, self.0)
    }

    /// Components 0, 0, 1, 1, in that order.
    pub fn rrgg(&self) -> (ret: V4<T>)
        ensures
            ret == V4(self.0, self.0, self.1, self.1),
    {
        V4(self.0, self.0, self.1, self.1)
    }

    /// Components 0, 0, 1, 2, in that order.
    pub fn rrgb(&self) -> (ret: V4<T>)
        ensures
            ret == V4(self.0, self.0, self.1, self.2),
    {
        V4(self.0, self.0, self.1, self.2)
    }

    /// Components 0, 0, 1, 3, in that order.
    pub fn rrga(&self) -> (ret: V4<T>)
        ensures
            ret == V4(self.0, self.0, self.1, self.3),
    {
        V4(self.0, self.0, self.1, self.3)
    }

    /// Components 0, 0, 2, 0, in that order.
    pub fn rrbr(&self) -> (ret: V4<T>)
        ensures
            ret == V4(self.0, self.0, self.2, self.0),
    {
        V4(self.0, self.0, self.2, self.0)
    }

    /// Components 0, 0, 2, 1, in that order.
    pub fn rrbg(&self) -> (ret: V4<T>)
        ensures
            ret == V4(self.0, self.0, self.2, self.1),
    {
        V4(self.0, self.0, self.2, self.1)
    }

    /// Components 0, 0, 2, 2, in that order.
    pub fn rrbb(&self) -> (ret: V4<T>)
        ensures
            ret == V4(self.0, self.0, self.2, self.2),
    {
        V4(self.0, self.0, self.2, self.2)
    }

    /// Components 0, 0, 2, 3, in that order.
    pub fn rrba(&self) -> (ret: V4<T>)
        ensures
            ret == V4(self.0, self.0, self.2, self.3),
    {
        V4(self.0, self.0, self.2, self.3)
    }

    /// Components 0, 0, 3, 0, in that order.
    pub fn rrar(&self) -> (ret: V4<T>)
        ensures
            ret == V4(self.0, self.0, self.3, self.0),
    {
        V4(self.0, self.0, self.3, self.0)
    }

    /// Components 0, 0, 3, 1, in that order.
    pub fn rrag(&self) -> (ret: V4<T>)
        ensures
            ret == V4(self.0, self.0, self.3, self.1),
    {
        V4(self.0, self.0, self.3, self.1)
    }

    /// Components 0, 0, 3, 2, in that order.
    pub fn rrab(&self) -> (ret: V4<T>)
        ensures
            ret == V4(self.0, self.0, self.3, self.2),
    {
        V4(self.0, self.0, self.3, self.2)
    }

    /// Components 0, 0, 3, 3, in that order.
    pub fn rraa(&self) -> (ret: V4<T>)
        ensures
            ret == V4(self.0, self.0, self.3, self.3),
    {
        V4(self.0, self.0, self.3, self.3)
    }

    /// Components 0, 1, 0, 0, in that order.
    pub fn rgrr(&self) -> (ret: V4<T>)
        ensures
            ret == V4(self.0, self.1, self.0, self.0),
    {
        V4(self.0, self.1, self.0, self.0)
    }

    /// Components 0, 1, 0, 1, in that order.
    pub fn rgrg(&self) -> (ret: V4<T>)
        ensures
            ret == V4(self.0, self.1, self.0, self.1),
    {
        V4(self.0, self.1, self.0, self.1)
    }

    /// Components 0, 1, 0, 2, in that order.
    pub fn rgrb(&self) -> (ret: V4<T>)
        ensures
            ret == V4(self.0, self.1, self.0, self.2),
    {
        V4(self.0, self.1, self.0, self.2)
    }

    /// Components 0, 1, 0, 3, in that order.
    pub fn rgra(&self) -> (ret: V4<T>)
        ensures
            ret == V4(self.0, self.1, self.0, self.3),
    {
        V4(self.0, self.1, self.0, self.3)
    }

    /// Components 0, 1, 1, 0, in that order.
    pub fn rggr(&self) -> (ret: V4<T>)
        ensures
            ret == V4(self.0, self.1, self.1, self.0),
    {
        V4(self.0, self.1, self.1, self.0)
    }

    /// Components 0, 1, 1, 1, in that order.
    pub fn rggg(&self) -> (ret: V4<T>)
        ensures
            ret == V4(self.0, self.1, self.1, self.1),
    {
        V4(self.0, self.1, self.1, self.1)
    }

    /// Components 0, 1, 1, 2, in that order.
    pub fn rggb(&self) -> (ret: V4<T>)
        ensures
            ret == V4(self.0, self.1, self.1, self.2),
    {
        V4(self.0, self.1, self.1, self.2)
    }

    /// Components 0, 1, 1, 3, in that order.
    pub fn rgga(&self) -> (ret: V4<T>)
        ensures
            ret == V4(self.0, self.1, self.1, self.3),
    {
        V4(self.0, self.1, self.1, self.3)
    }

    /// Components 0, 1, 2, 0, in that order.
    pub fn rgbr(&self) -> (ret: V4<T>)
        ensures
            ret == V4(self.0, self.1, self.2, self.0),
    {
        V4(self.0, self.1, self.2, self.0)
    }

    /// Components 0, 1, 2, 1, in that order.
    pub fn rgbg(&self) -> (ret: V4<T>)
        ensures
            ret == V4(self.0, self.1, self.2, self.1),
    {
        V4(self.0, self.1, self.2, self.1)
    }

    /// Components 0, 1, 2, 2, in that order.
    pub fn rgbb(&self) -> (ret: V4<T>)
        ensures
            ret == V4(self.0, self.1, self.2, self.2),
    {
        V4(self.0, self.1, self.2, self.2)
    }

    /// Components 0, 1, 2, 3, in that order.
    pub fn rgba(&self) -> (ret: V4<T>)
        ensures
            ret == V4(self.0, self.1, self.2, self.3),
    {
        V4(self.0, self.1, self.2, self.3)
    }

    /// Writes the components of `value` into components 0, 1, 2, 3, in
    /// that order.
    pub fn set_rgba(&mut self, value: V4<T>)
        ensures
            *final(self) == V4(value.0, value.1, value.2, value.3),
    {
        self.0 = value.0;
        self.1 = value.1;
        self.2 = value.2;
        self.3 = value.3;
    }

    /// Components 0, 1, 3, 0, in that order.
    pub fn rgar(&self) -> (ret: V4<T>)
        ensures
            ret == V4(self.0, self.1, self.3, self.0),
    {
        V4(self.0, self.1, self.3, self.0)
    }

    /// Components 0, 1, 3, 1, in that order.
    pub fn rgag(&self) -> (ret: V4<T>)
        ensures
            ret == V4(self.0, self.1, self.3, self.1),
    {
        V4(self.0, self.1, self.3, self.1)
    }

    /// Components 0, 1, 3, 2, in that order.
    pub fn rgab(&self) -> (ret: V4<T>)
        ensures
            ret == V4(self.0, self.1, self.3, self.2),
    {
        V4(self.0, self.1, self.3, self.2)
    }

    /// Writes the components of `value` into components 0, 1, 3, 2, in
    /// that order.
    pub fn set_rgab(&mut self, value: V4<T>)
        ensures
            *final(self) == V4(value.0, value.1, value.3, value.2),
    {
        self.0 = value.0;
        self.1 = value.1;
        self.3 = value.2;
        self.2 = value.3;
    }

    /// Components 0, 1, 3, 3, in that order.
    pub fn rgaa(&self) -> (ret: V4<T>)
        ensures
            ret == V4(self.0, self.1, self.3, self.3),
    {
        V4(self.0, self.1, self.3, self.3)
    }

    /// Components 0, 2, 0, 0, in that order.
    pub fn rbrr(&self) -> (ret: V4<T>)
        ensures
            ret == V4(self.0, self.2, self.0, self.0),
    {
        V4(self.0, self.2, self.0, self.0)
    }

    /// Components 0, 2, 0, 1, in that order.
    pub fn rbrg(&self) -> (ret: V4<T>)
        ensures
            ret == V4(self.0, self.2, self.0, self.1),
    {
        V4(self.0, self.2, self.0, self.1)
    }

    /// Components 0, 2, 0, 2, in that order.
    pub fn rbrb(&self) -> (ret: V4<T>)
        ensures
            ret == V4(self.0, self.2, self.0, self.2),
    {
        V4(self.0, self.2, self.0, self.2)
    }

    /// Components 0, 2, 0, 3, in that order.
    pub fn rbra(&self) -> (ret: V4<T>)
        ensures
            ret == V4(self.0, self.2, self.0, self.3),
    {
        V4(self.0, self.2, self.0, self.3)
    }

    /// Components 0, 2, 1, 0, in that order.
    pub fn rbgr(&self) -> (ret: V4<T>)
        ensures
            ret == V4(self.0, self.2, self.1, self.0),
    {
        V4(self.0, self.2, self.1, self.0)
    }

    /// Components 0, 2, 1, 1, in that order.
    pub fn rbgg(&self) -> (ret: V4<T>)
        ensures
            ret == V4(self.0, self.2, self.1, self.1),
    {
        V4(self.0, self.2, self.1, self.1)
    }

    /// Components 0, 2, 1, 2, in that order.
    pub fn rbgb(&self) -> (ret: V4<T>)
        ensures
            ret == V4(self.0, self.2, self.1, self.2),
    {
        V4(self.0, self.2, self.1, self.2)
    }

    /// Components 0, 2, 1, 3, in that order.
    pub fn rbga(&self) -> (ret: V4<T>)
        ensures
            ret == V4(self.0, self.2, self.1, self.3),
    {
        V4(self.0, self.2, self.1, self.3)
    }

    /// Writes the components of `value` into components 0, 2, 1, 3, in
    /// that order.
    pub fn set_rbga(&mut self, value: V4<T>)
        ensures
            *final(self) == V4(value.0, value.2, value.1, value.3),
    {
        self.0 = value.0;
        self.2 = value.1;
        self.1 = value.2;
        self.3 = value.3;
    }

    /// Components 0, 2, 2, 0, in that order.
    pub fn rbbr(&self) -> (ret: V4<T>)
        ensures
            ret == V4(self.0, self.2, self.2, self.0),
    {
        V4(self.0, self.2, self.2, self.0)
    }

    /// Components 0, 2, 2, 1, in that order.
    pub fn rbbg(&self) -> (ret: V4<T>)
        ensures
            ret == V4(self.0, self.2, self.2, self.1),
    {
        V4(self.0, self.2, self.2, self.1)
    }

    /// Components 0, 2, 2, 2, in that order.
    pub fn rbbb(&self) -> (ret: V4<T>)
        ensures
            ret == V4(self.0, self.2, self.2, self.2),
    {
        V4(self.0, self.2, self.2, self.2)
    }

    /// Components 0, 2, 2, 3, in that order.
    pub fn rbba(&self) -> (ret: V4<T>)
        ensures
            ret == V4(self.0, self.2, self.2, self.3),
    {
        V4(self.0, self.2, self.2, self.3)
    }

    /// Components 0, 2, 3, 0, in that order.
    pub fn rbar(&self) -> (ret: V4<T>)
        ensures
            ret == V4(self.0, self.2, self.3, self.0),
    {
        V4(self.0, self.2, self.3, self.0)
    }

    /// Components 0, 2, 3, 1, in that order.
    pub fn rbag(&self) -> (ret: V4<T>)
        ensures
            ret == V4(self.0, self.2, self.3, self.1),
    {
        V4(self.0, self.2, self.3, self.1)
    }

    /// Writes the components of `value` into components 0, 2, 3, 1, in
    /// that order.
    pub fn set_rbag(&mut self, value: V4<T>)
        ensures
            *final(self) == V4(value.0, value.3, value.1, value.2),
    {
        self.0 = value.0;
        self.2 = value.1;
        self.3 = value.2;
        self.1 = value.3;
    }

    /// Components 0, 2, 3, 2, in that order.
    pub fn rbab(&self) -> (ret: V4<T>)
        ensures
            ret == V4(self.0, self.2, self.3, self.2),
    {
        V4(self.0, self.2, self.3, self.2)
    }

    /// Components 0, 2, 3, 3, in that order.
    pub fn rbaa(&self) -> (ret: V4<T>)
        ensures
            ret == V4(self.0, self.2, self.3, self.3),
    {
        V4(self.0, self.2, self.3, self.3)
    }

    /// Components 0, 3, 0, 0, in that order.
    pub fn rarr(&self) -> (ret: V4<T>)
        ensures
            ret == V4(self.0, self.3, self.0, self.0),
    {
        V4(self.0, self.3, self.0, self.0)
    }

    /// Components 0, 3, 0, 1, in that order.
    pub fn rarg(&self) -> (ret: V4<T>)
        ensures
            ret == V4(self.0, self.3, self.0, self.1),
    {
        V4(self.0, self.3, self.0, self.1)
    }

    /// Components 0, 3, 0, 2, in that order.
    pub fn rarb(&self) -> (ret: V4<T>)
        ensures
            ret == V4(self.0, self.3, self.0, self.2),
    {
        V4(self.0, self.3, self.0, self.2)
    }

    /// Components 0, 3, 0, 3, in that order.
    pub fn rara(&self) -> (ret: V4<T>)
        ensures
            ret == V4(self.0, self.3, self.0, self.3),
    {
        V4(self.0, self.3, self.0, self.3)
    }

    /// Components 0, 3, 1, 0, in that order.
    pub fn ragr(&self) -> (ret: V4<T>)
        ensures
            ret == V4(self.0, self.3, self.1, self.0),
    {
        V4(self.0, self.3, self.1, self.0)
    }

    /// Components 0, 3, 1, 1, in that order.
    pub fn ragg(&self) -> (ret: V4<T>)
        ensures
            ret == V4(self.0, self.3, self.1, self.1),
    {
        V4(self.0, self.3, self.1, self.1)
    }

    /// Components 0, 3, 1, 2, in that order.
    pub fn ragb(&self) -> (ret: V4<T>)
        ensures
            ret == V4(self.0, self.3, self.1, self.2),
    {
        V4(self.0, self.3, self.1, self.2)
    }

    /// Writes the components of `value` into components 0, 3, 1, 2, in
    /// that order.
    pub fn set_ragb(&mut self, value: V4<T>)
        ensures
            *final(self) == V4(value.0, value.2, value.3, value.1),
    {
        self.0 = value.0;
        self.3 = value.1;
        self.1 = value.2;
        self.2 = value.3;
    }

    /// Components 0, 3, 1, 3, in that order.
    pub fn raga(&self) -> (ret: V4<T>)
        ensures
            ret == V4(self.0, self.3, self.1, self.3),
    {
        V4(self.0, self.3, self.1, self.3)
    }

    /// Components 0, 3, 2, 0, in that order.
    pub fn rabr(&self) -> (ret: V4<T>)
        ensures
            ret == V4(self.0, self.3, self.2, self.0),
    {
        V4(self.0, self.3, self.2, self.0)
    }

    /// Components 0, 3, 2, 1, in that order.
    pub fn rabg(&self) -> (ret: V4<T>)
        ensures
            ret == V4(self.0, self.3, self.2, self.1),
    {
        V4(self.0, self.3, self.2, self.1)
    }

    /// Writes the components of `value` into components 0, 3, 2, 1, in
    /// that order.
    pub fn set_rabg(&mut self, value: V4<T>)
        ensures
            *final(self) == V4(value.0, value.3, value.2, value.1),
    {
        self.0 = value.0;
        self.3 = value.1;
        self.2 = value.2;
        self.1 = value.3;
    }

    /// Components 0, 3, 2, 2, in that order.
    pub fn rabb(&self) -> (ret: V4<T>)
        ensures
            ret == V4(self.0, self.3, self.2, self.2),
    {
        V4(self.0, self.3, self.2, self.2)
    }

    /// Components 0, 3, 2, 3, in that order.
    pub fn raba(&self) -> (ret: V4<T>)
        ensures
            ret == V4(self.0, self.3, self.2, self.3),
    {
        V4(self.0, self.3, self.2, self.3)
    }

    /// Components 0, 3, 3, 0, in that order.
    pub fn raar(&self) -> (ret: V4<T>)
        ensures
            ret == V4(self.0, self.3, self.3, self.0),
    {
        V4(self.0, self.3, self.3, self.0)
    }

    /// Components 0, 3, 3, 1, in that order.
    pub fn raag(&self) -> (ret: V4<T>)
        ensures
            ret == V4(self.0, self.3, self.3, self.1),
    {
        V4(self.0, self.3, self.3, self.1)
    }

    /// Components 0, 3, 3, 2, in that order.
    pub fn raab(&self) -> (ret: V4<T>)
        ensures
            ret == V4(self.0, self.3, self.3, self.2),
    {
        V4(self.0, self.3, self.3, self.2)
    }

    /// Components 0, 3, 3, 3, in that order.
    pub fn raaa(&self) -> (ret: V4<T>)
        ensures
            ret == V4(self.0, self.3, self.3, self.3),
    {
        V4(self.0, self.3, self.3, self.3)
    }

    /// Components 1, 0, 0, 0, in that order.
    pub fn grrr(&self) -> (ret: V4<T>)
        ensures
            ret == V4(self.1, self.0, self.0, self.0),
    {
        V4(self.1, self.0, self.0, self.0)
    }

    /// Components 1, 0, 0, 1, in that order.
    pub fn grrg(&self) -> (ret: V4<T>)
        ensures
            ret == V4(self.1, self.0, self.0, self.1),
    {
        V4(self.1, self.0, self.0, self.1)
    }

    /// Components 1, 0, 0, 2, in that order.
    pub fn grrb(&self) -> (ret: V4<T>)
        ensures
            ret == V4(self.1, self.0, self.0, self.2),
    {
        V4(self.1, self.0, self.0, self.2)
    }

    /// Components 1, 0, 0, 3, in that order.
    pub fn grra(&self) -> (ret: V4<T>)
        ensures
            ret == V4(self.1, self.0, self.0, self.3),
    {
        V4(self.1, self.0, self.0, self.3)
    }

    /// Components 1, 0, 1, 0, in that order.
    pub fn grgr(&self) -> (ret: V4<T>)
        ensures
            ret == V4(self.1, self.0, self.1, self.0),
    {
        V4(self.1, self.0, self.1, self.0)
    }

    /// Components 1, 0, 1, 1, in that order.
    pub fn grgg(&self) -> (ret: V4<T>)
        ensures
            ret == V4(self.1, self.0, self.1, self.1),
    {
        V4(self.1, self.0, self.1, self.1)
    }

    /// Components 1, 0, 1, 2, in that order.
    pub fn grgb(&self) -> (ret: V4<T>)
        ensures
            ret == V4(self.1, self.0, self.1, self.2),
    {
        V4(self.1, self.0, self.1, self.2)
    }

    /// Components 1, 0, 1, 3, in that order.
    pub fn grga(&self) -> (ret: V4<T>)
        ensures
            ret == V4(self.1, self.0, self.1, self.3),
    {
        V4(self.1, self.0, self.1, self.3)
    }

    /// Components 1, 0, 2, 0, in that order.
    pub fn grbr(&self) -> (ret: V4<T>)
        ensures
            ret == V4(self.1, self.0, self.2, self.0),
    {
        V4(self.1, self.0, self.2, self.0)
    }

    /// Components 1, 0, 2, 1, in that order.
    pub fn grbg(&self) -> (ret: V4<T>)
        ensures
            ret == V4(self.1, self.0, self.2, self.1),
    {
        V4(self.1, self.0, self.2, self.1)
    }

    /// Components 1, 0, 2, 2, in that order.
    pub fn grbb(&self) -> (ret: V4<T>)
        ensures
            ret == V4(self.1, self.0, self.2, self.2),
    {
        V4(self.1, self.0, self.2, self.2)
    }

    /// Components 1, 0, 2, 3, in that order.
    pub fn grba(&self) -> (ret: V4<T>)
        ensures
            ret == V4(self.1, self.0, self.2, self.3),
    {
        V4(self.1, self.0, self.2, self.3)
    }

    /// Writes the components of `value` into components 1, 0, 2, 3, in
    /// that order.
    pub fn set_grba(&mut self, value: V4<T>)
        ensures
            *final(self) == V4(value.1, value.0, value.2, value.3),
    {
        self.1 = value.0;
        self.0 = value.1;
        self.2 = value.2;
        self.3 = value.3;
    }

    /// Components 1, 0, 3, 0, in that order.
    pub fn grar(&self) -> (ret: V4<T>)
        ensures
            ret == V4(self.1, self.0, self.3, self.0),
    {
        V4(self.1, self.0, self.3, self.0)
    }

    /// Components 1, 0, 3, 1, in that order.
    pub fn grag(&self) -> (ret: V4<T>)
        ensures
            ret == V4(self.1, self.0, self.3, self.1),
    {
        V4(self.1, self.0, self.3, self.1)
    }

    /// Components 1, 0, 3, 2, in that order.
    pub fn grab(&self) -> (ret: V4<T>)
        ensures
            ret == V4(self.1, self.0, self.3, self.2),
    {
        V4(self.1, self.0, self.3, self.2)
    }

    /// Writes the components of `value` into components 1, 0, 3, 2, in
    /// that order.
    pub fn set_grab(&mut self, value: V4<T>)
        ensures
            *final(self) == V4(value.1, value.0, value.3, value.2),
    {
        self.1 = value.0;
        self.0 = value.1;
        self.3 = value.2;
        self.2 = value.3;
    }

    /// Components 1, 0, 3, 3, in that order.
    pub fn graa(&self) -> (ret: V4<T>)
        ensures
            ret == V4(self.1, self.0, self.3, self.3),
    {
        V4(self.1, self.0, self.3, self.3)
    }

    /// Components 1, 1, 0, 0, in that order.
    pub fn ggrr(&self) -> (ret: V4<T>)
        ensures
            ret == V4(self.1, self.1, self.0, self.0),
    {
        V4(self.1, self.1, self.0, self.0)
    }

    /// Components 1, 1, 0, 1, in that order.
    pub fn ggrg(&self) -> (ret: V4<T>)
        ensures
            ret == V4(self.1, self.1, self.0, self.1),
    {
        V4(self.1, self.1, self.0, self.1)
    }

    /// Components 1, 1, 0, 2, in that order.
    pub fn ggrb(&self) -> (ret: V4<T>)
        ensures
            ret == V4(self.1, self.1, self.0, self.2),
    {
        V4(self.1, self.1, self.0, self.2)
    }

    /// Components 1, 1, 0, 3, in that order.
    pub fn ggra(&self) -> (ret: V4<T>)
        ensures
            ret == V4(self.1, self.1, self.0, self.3),
    {
        V4(self.1, self.1, self.0, self.3)
    }

    /// Components 1, 1, 1, 0, in that order.
    pub fn gggr(&self) -> (ret: V4<T>)
        ensures
            ret == V4(self.1, self.1, self.1, self.0),
    {
        V4(self.1, self.1, self.1, self.0)
    }

    /// Components 1, 1, 1, 1, in that order.
    pub fn gggg(&self) -> (ret: V4<T>)
        ensures
            ret == V4(self.1, self.1, self.1, self.1),
    {
        V4(self.1, self.1, self.1, self.1)
    }

    /// Components 1, 1, 1, 2, in that order.
    pub fn gggb(&self) -> (ret: V4<T>)
        ensures
            ret == V4(self.1, self.1, self.1, self.2),
    {
        V4(self.1, self.1, self.1, self.2)
    }

    /// Components 1, 1, 1, 3, in that order.
    pub fn ggga(&self) -> (ret: V4<T>)
        ensures
            ret == V4(self.1, self.1, self.1, self.3),
    {
        V4(self.1, self.1, self.1, self.3)
    }

    /// Components 1, 1, 2, 0, in that order.
    pub fn ggbr(&self) -> (ret: V4<T>)
        ensures
            ret == V4(self.1, self.1, self.2, self.0),
    {
        V4(self.1, self.1, self.2, self.0)
    }

    /// Components 1, 1, 2, 1, in that order.
    pub fn ggbg(&self) -> (ret: V4<T>)
        ensures
            ret == V4(self.1, self.1, self.2, self.1),
    {
        V4(self.1, self.1, self.2, self.1)
    }

    /// Components 1, 1, 2, 2, in that order.
    pub fn ggbb(&self) -> (ret: V4<T>)
        ensures
            ret == V4(self.1, self.1, self.2, self.2),
    {
        V4(self.1, self.1, self.2, self.2)
    }

    /// Components 1, 1, 2, 3, in that order.
    pub fn ggba(&self) -> (ret: V4<T>)
        ensures
            ret == V4(self.1, self.1, self.2, self.3),
    {
        V4(self.1, self.1, self.2, self.3)
    }

    /// Components 1, 1, 3, 0, in that order.
    pub fn ggar(&self) -> (ret: V4<T>)
        ensures
            ret == V4(self.1, self.1, self.3, self.0),
    {
        V4(self.1, self.1, self.3, self.0)
    }

    /// Components 1, 1, 3, 1, in that order.
    pub fn ggag(&self) -> (ret: V4<T>)
        ensures
            ret == V4(self.1, self.1, self.3, self.1),
    {
        V4(self.1, self.1, self.3, self.1)
    }

    /// Components 1, 1, 3, 2, in that order.
    pub fn ggab(&self) -> (ret: V4<T>)
        ensures
            ret == V4(self.1, self.1, self.3, self.2),
    {
        V4(self.1, self.1, self.3, self.2)
    }

    /// Components 1, 1, 3, 3, in that order.
    pub fn ggaa(&self) -> (ret: V4<T>)
        ensures
            ret == V4(self.1, self.1, self.3, self.3),
    {
        V4(self.1, self.1, self.3, self.3)
    }

    /// Components 1, 2, 0, 0, in that order.
    pub fn gbrr(&self) -> (ret: V4<T>)
        ensures
            ret == V4(self.1, self.2, self.0, self.0),
    {
        V4(self.1, self.2, self.0, self.0)
    }

    /// Components 1, 2, 0, 1, in that order.
    pub fn gbrg(&self) -> (ret: V4<T>)
        ensures
            ret == V4(self.1, self.2, self.0, self.1),
    {
        V4(self.1, self.2, self.0, self.1)
    }

    /// Components 1, 2, 0, 2, in that order.
    pub fn gbrb(&self) -> (ret: V4<T>)
        ensures
            ret == V4(self.1, self.2, self.0, self.2),
    {
        V4(self.1, self.2, self.0, self.2)
    }

    /// Components 1, 2, 0, 3, in that order.
    pub fn gbra(&self) -> (ret: V4<T>)
        ensures
            ret == V4(self.1, self.2, self.0, self.3),
    {
        V4(self.1, self.2, self.0, self.3)
    }

    /// Writes the components of `value` into components 1, 2, 0, 3, in
    /// that order.
    pub fn set_gbra(&mut self, value: V4<T>)
        ensures
            *final(self) == V4(value.2, value.0, value.1, value.3),
    {
        self.1 = value.0;
        self.2 = value.1;
        self.0 = value.2;
        self.3 = value.3;
    }

    /// Components 1, 2, 1, 0, in that order.
    pub fn gbgr(&self) -> (ret: V4<T>)
        ensures
            ret == V4(self.1, self.2, self.1, self.0),
    {
        V4(self.1, self.2, self.1, self.0)
    }

    /// Components 1, 2, 1, 1, in that order.
    pub fn gbgg(&self) -> (ret: V4<T>)
        ensures
            ret == V4(self.1, self.2, self.1, self.1),
    {
        V4(self.1, self.2, self.1, self.1)
    }

    /// Components 1, 2, 1, 2, in that order.
    pub fn gbgb(&self) -> (ret: V4<T>)
        ensures
            ret == V4(self.1, self.2, self.1, self.2),
    {
        V4(self.1, self.2, self.1, self.2)
    }

    /// Components 1, 2, 1, 3, in that order.
    pub fn gbga(&self) -> (ret: V4<T>)
        ensures
            ret == V4(self.1, self.2, self.1, self.3),
    {
        V4(self.1, self.2, self.1, self.3)
    }

    /// Components 1, 2, 2, 0, in that order.
    pub fn gbbr(&self) -> (ret: V4<T>)
        ensures
            ret == V4(self.1, self.2, self.2, self.0),
    {
        V4(self.1, self.2, self.2, self.0)
    }

    /// Components 1, 2, 2, 1, in that order.
    pub fn gbbg(&self) -> (ret: V4<T>)
        ensures
            ret == V4(self.1, self.2, self.2, self.1),
    {
        V4(self.1, self.2, self.2, self.1)
    }

    /// Components 1, 2, 2, 2, in that order.
    pub fn gbbb(&self) -> (ret: V4<T>)
        ensures
            ret == V4(self.1, self.2, self.2, self.2),
    {
        V4(self.1, self.2, self.2, self.2)
    }

    /// Components 1, 2, 2, 3, in that order.
    pub fn gbba(&self) -> (ret: V4<T>)
        ensures
            ret == V4(self.1, self.2, self.2, self.3),
    {
        V4(self.1, self.2, self.2, self.3)
    }

    /// Components 1, 2, 3, 0, in that order.
    pub fn gbar(&self) -> (ret: V4<T>)
        ensures
            ret == V4(self.1, self.2, self.3, self.0),
    {
        V4(self.1, self.2, self.3, self.0)
    }

    /// Writes the components of `value` into components 1, 2, 3, 0, in
    /// that order.
    pub fn set_gbar(&mut self, value: V4<T>)
        ensures
            *final(self) == V4(value.3, value.0, value.1, value.2),
    {
        self.1 = value.0;
        self.2 = value.1;
        self.3 = value.2;
        self.0 = value.3;
    }

    /// Components 1, 2, 3, 1, in that order.
    pub fn gbag(&self) -> (ret: V4<T>)
        ensures
            ret == V4(self.1, self.2, self.3, self.1),
    {
        V4(self.1, self.2, self.3, self.1)
    }

    /// Components 1, 2, 3, 2, in that order.
    pub fn gbab(&self) -> (ret: V4<T>)
        ensures
            ret == V4(self.1, self.2, self.3, self.2),
    {
        V4(self.1, self.2, self.3, self.2)
    }

    /// Components 1, 2, 3, 3, in that order.
    pub fn gbaa(&self) -> (ret: V4<T>)
        ensures
            ret == V4(self.1, self.2, self.3, self.3),
    {
        V4(self.1, self.2, self.3, self.3)
    }

    /// Components 1, 3, 0, 0, in that order.
    pub fn garr(&self) -> (ret: V4<T>)
        ensures
            ret == V4(self.1, self.3, self.0, self.0),
    {
        V4(self.1, self.3, self.0, self.0)
    }

    /// Components 1, 3, 0, 1, in that order.
    pub fn garg(&self) -> (ret: V4<T>)
        ensures
            ret == V4(self.1, self.3, self.0, self.1),
    {
        V4(self.1, self.3, self.0, self.1)
    }

    /// Components 1, 3, 0, 2, in that order.
    pub fn garb(&self) -> (ret: V4<T>)
        ensures
            ret == V4(self.1, self.3, self.0, self.2),
    {
        V4(self.1, self.3, self.0, self.2)
    }

    /// Writes the components of `value` into components 1, 3, 0, 2, in
    /// that order.
    pub fn set_garb(&mut self, value: V4<T>)
        ensures
            *final(self) == V4(value.2, value.0, value.3, value.1),
    {
        self.1 = value.0;
        self.3 = value.1;
        self.0 = value.2;
        self.2 = value.3;
    }

    /// Components 1, 3, 0, 3, in that order.
    pub fn gara(&self) -> (ret: V4<T>)
        ensures
            ret == V4(self.1, self.3, self.0, self.3),
    {
        V4(self.1, self.3, self.0, self.3)
    }

    /// Components 1, 3, 1, 0, in that order.
    pub fn gagr(&self) -> (ret: V4<T>)
        ensures
            ret == V4(self.1, self.3, self.1, self.0),
    {
        V4(self.1, self.3, self.1, self.0)
    }

    /// Components 1, 3, 1, 1, in that order.
    pub fn gagg(&self) -> (ret: V4<T>)
        ensures
            ret == V4(self.1, self.3, self.1, self.1),
    {
        V4(self.1, self.3, self.1, self.1)
    }

    /// Components 1, 3, 1, 2, in that order.
    pub fn gagb(&self) -> (ret: V4<T>)
        ensures
            ret == V4(self.1, self.3, self.1, self.2),
    {
        V4(self.1, self.3, self.1, self.2)
    }

    /// Components 1, 3, 1, 3, in that order.
    pub fn gaga(&self) -> (ret: V4<T>)
        ensures
            ret == V4(self.1, self.3, self.1, self.3),
    {
        V4(self.1, self.3, self.1, self.3)
    }

    /// Components 1, 3, 2, 0, in that order.
    pub fn gabr(&self) -> (ret: V4<T>)
        ensures
            ret == V4(self.1, self.3, self.2, self.0),
    {
        V4(self.1, self.3, self.2, self.0)
    }

    /// Writes the components of `value` into components 1, 3, 2, 0, in
    /// that order.
    pub fn set_gabr(&mut self, value: V4<T>)
        ensures
            *final(self) == V4(value.3, value.0, value.2, value.1),
    {
        self.1 = value.0;
        self.3 = value.1;
        self.2 = value.2;
        self.0 = value.3;
    }

    /// Components 1, 3, 2, 1, in that order.
    pub fn gabg(&self) -> (ret: V4<T>)
        ensures
            ret == V4(self.1, self.3, self.2, self.1),
    {
        V4(self.1, self.3, self.2, self.1)
    }

    /// Components 1, 3, 2, 2, in that order.
    pub fn gabb(&self) -> (ret: V4<T>)
        ensures
            ret == V4(self.1, self.3, self.2, self.2),
    {
        V4(self.1, self.3, self.2, self.2)
    }

    /// Components 1, 3, 2, 3, in that order.
    pub fn gaba(&self) -> (ret: V4<T>)
        ensures
            ret == V4(self.1, self.3, self.2, self.3),
    {
        V4(self.1, self.3, self.2, self.3)
    }

    /// Components 1, 3, 3, 0, in that order.
    pub fn gaar(&self) -> (ret: V4<T>)
        ensures
            ret == V4(self.1, self.3, self.3, self.0),
    {
        V4(self.1, self.3, self.3, self.0)
    }

    /// Components 1, 3, 3, 1, in that order.
    pub fn gaag(&self) -> (ret: V4<T>)
        ensures
            ret == V4(self.1, self.3, self.3, self.1),
    {
        V4(self.1, self.3, self.3, self.1)
    }

    /// Components 1, 3, 3, 2, in that order.
    pub fn gaab(&self) -> (ret: V4<T>)
        ensures
            ret == V4(self.1, self.3, self.3, self.2),
    {
        V4(self.1, self.3, self.3, self.2)
    }

    /// Components 1, 3, 3, 3, in that order.
    pub fn gaaa(&self) -> (ret: V4<T>)
        ensures
            ret == V4(self.1, self.3, self.3, self.3),
    {
        V4(self.1, self.3, self.3, self.3)
    }

    /// Components 2, 0, 0, 0, in that order.
    pub fn brrr(&self) -> (ret: V4<T>)
        ensures
            ret == V4(self.2, self.0, self.0, self.0),
    {
        V4(self.2, self.0, self.0, self.0)
    }

    /// Components 2, 0, 0, 1, in that order.
    pub fn brrg(&self) -> (ret: V4<T>)
        ensures
            ret == V4(self.2, self.0, self.0, self.1),
    {
        V4(self.2, self.0, self.0, self.1)
    }

    /// Components 2, 0, 0, 2, in that order.
    pub fn brrb(&self) -> (ret: V4<T>)
        ensures
            ret == V4(self.2, self.0, self.0, self.2),
    {
        V4(self.2, self.0, self.0, self.2)
    }

    /// Components 2, 0, 0, 3, in that order.
    pub fn brra(&self) -> (ret: V4<T>)
        ensures
            ret == V4(self.2, self.0, self.0, self.3),
    {
        V4(self.2, self.0, self.0, self.3)
    }

    /// Components 2, 0, 1, 0, in that order.
    pub fn brgr(&self) -> (ret: V4<T>)
        ensures
            ret == V4(self.2, self.0, self.1, self.0),
    {
        V4(self.2, self.0, self.1, self.0)
    }

    /// Components 2, 0, 1, 1, in that order.
    pub fn brgg(&self) -> (ret: V4<T>)
        ensures
            ret == V4(self.2, self.0, self.1, self.1),
    {
        V4(self.2, self.0, self.1, self.1)
    }

    /// Components 2, 0, 1, 2, in that order.
    pub fn brgb(&self) -> (ret: V4<T>)
        ensures
            ret == V4(self.2, self.0, self.1, self.2),
    {
        V4(self.2, self.0, self.1, self.2)
    }

    /// Components 2, 0, 1, 3, in that order.
    pub fn brga(&self) -> (ret: V4<T>)
        ensures
            ret == V4(self.2, self.0, self.1, self.3),
    {
        V4(self.2, self.0, self.1, self.3)
    }

    /// Writes the components of `value` into components 2, 0, 1, 3, in
    /// that order.
    pub fn set_brga(&mut self, value: V4<T>)
        ensures
            *final(self) == V4(value.1, value.2, value.0, value.3),
    {
        self.2 = value.0;
        self.0 = value.1;
        self.1 = value.2;
        self.3 = value.3;
    }

    /// Components 2, 0, 2, 0, in that order.
    pub fn brbr(&self) -> (ret: V4<T>)
        ensures
            ret == V4(self.2, self.0, self.2, self.0),
    {
        V4(self.2, self.0, self.2, self.0)
    }

    /// Components 2, 0, 2, 1, in that order.
    pub fn brbg(&self) -> (ret: V4<T>)
        ensures
            ret == V4(self.2, self.0, self.2, self.1),
    {
        V4(self.2, self.0, self.2, self.1)
    }

    /// Components 2, 0, 2, 2, in that order.
    pub fn brbb(&self) -> (ret: V4<T>)
        ensures
            ret == V4(self.2, self.0, self.2, self.2),
    {
        V4(self.2, self.0, self.2, self.2)
    }

    /// Components 2, 0, 2, 3, in that order.
    pub fn brba(&self) -> (ret: V4<T>)
        ensures
            ret == V4(self.2, self.0, self.2, self.3),
    {
        V4(self.2, self.0, self.2, self.3)
    }

    /// Components 2, 0, 3, 0, in that order.
    pub fn brar(&self) -> (ret: V4<T>)
        ensures
            ret == V4(self.2, self.0, self.3, self.0),
    {
        V4(self.2, self.0, self.3, self.0)
    }

    /// Components 2, 0, 3, 1, in that order.
    pub fn brag(&self) -> (ret: V4<T>)
        ensures
            ret == V4(self.2, self.0, self.3, self.1),
    {
        V4(self.2, self.0, self.3, self.1)
    }

    /// Writes the components of `value` into components 2, 0, 3, 1, in
    /// that order.
    pub fn set_brag(&mut self, value: V4<T>)
        ensures
            *final(self) == V4(value.1, value.3, value.0, value.2),
    {
        self.2 = value.0;
        self.0 = value.1;
        self.3 = value.2;
        self.1 = value.3;
    }

    /// Components 2, 0, 3, 2, in that order.
    pub fn brab(&self) -> (ret: V4<T>)
        ensures
            ret == V4(self.2, self.0, self.3, self.2),
    {
        V4(self.2, self.0, self.3, self.2)
    }

    /// Components 2, 0, 3, 3, in that order.
    pub fn braa(&self) -> (ret: V4<T>)
        ensures
            ret == V4(self.2, self.0, self.3, self.3),
    {
        V4(self.2, self.0, self.3, self.3)
    }

    /// Components 2, 1, 0, 0, in that order.
    pub fn bgrr(&self) -> (ret: V4<T>)
        ensures
            ret == V4(self.2, self.1, self.0, self.0),
    {
        V4(self.2, self.1, self.0, self.0)
    }

    /// Components 2, 1, 0, 1, in that order.
    pub fn bgrg(&self) -> (ret: V4<T>)
        ensures
            ret == V4(self.2, self.1, self.0, self.1),
    {
        V4(self.2, self.1, self.0, self.1)
    }

    /// Components 2, 1, 0, 2, in that order.
    pub fn bgrb(&self) -> (ret: V4<T>)
        ensures
            ret == V4(self.2, self.1, self.0, self.2),
    {
        V4(self.2, self.1, self.0, self.2)
    }

    /// Components 2, 1, 0, 3, in that order.
    pub fn bgra(&self) -> (ret: V4<T>)
        ensures
            ret == V4(self.2, self.1, self.0, self.3),
    {
        V4(self.2, self.1, self.0, self.3)
    }

    /// Writes the components of `value` into components 2, 1, 0, 3, in
    /// that order.
    pub fn set_bgra(&mut self, value: V4<T>)
        ensures
            *final(self) == V4(value.2, value.1, value.0, value.3),
    {
        self.2 = value.0;
        self.1 = value.1;
        self.0 = value.2;
        self.3 = value.3;
    }

    /// Components 2, 1, 1, 0, in that order.
    pub fn bggr(&self) -> (ret: V4<T>)
        ensures
            ret == V4(self.2, self.1, self.1, self.0),
    {
        V4(self.2, self.1, self.1, self.0)
    }

    /// Components 2, 1, 1, 1, in that order.
    pub fn bggg(&self) -> (ret: V4<T>)
        ensures
            ret == V4(self.2, self.1, self.1, self.1),
    {
        V4(self.2, self.1, self.1, self.1)
    }

    /// Components 2, 1, 1, 2, in that order.
    pub fn bggb(&self) -> (ret: V4<T>)
        ensures
            ret == V4(self.2, self.1, self.1, self.2),
    {
        V4(self.2, self.1, self.1, self.2)
    }

    /// Components 2, 1, 1, 3, in that order.
    pub fn bgga(&self) -> (ret: V4<T>)
        ensures
            ret == V4(self.2, self.1, self.1, self.3),
    {
        V4(self.2, self.1, self.1, self.3)
    }

    /// Components 2, 1, 2, 0, in that order.
    pub fn bgbr(&self) -> (ret: V4<T>)
        ensures
            ret == V4(self.2, self.1, self.2, self.0),
    {
        V4(self.2, self.1, self.2, self.0)
    }

    /// Components 2, 1, 2, 1, in that order.
    pub fn bgbg(&self) -> (ret: V4<T>)
        ensures
            ret == V4(self.2, self.1, self.2, self.1),
    {
        V4(self.2, self.1, self.2, self.1)
    }

    /// Components 2, 1, 2, 2, in that order.
    pub fn bgbb(&self) -> (ret: V4<T>)
        ensures
            ret == V4(self.2, self.1, self.2, self.2),
    {
        V4(self.2, self.1, self.2, self.2)
    }

    /// Components 2, 1, 2, 3, in that order.
    pub fn bgba(&self) -> (ret: V4<T>)
        ensures
            ret == V4(self.2, self.1, self.2, self.3),
    {
        V4(self.2, self.1, self.2, self.3)
    }

    /// Components 2, 1, 3, 0, in that order.
    pub fn bgar(&self) -> (ret: V4<T>)
        ensures
            ret == V4(self.2, self.1, self.3, self.0),
    {
        V4(self.2, self.1, self.3, self.0)
    }

    /// Writes the components of `value` into components 2, 1, 3, 0, in
    /// that order.
    pub fn set_bgar(&mut self, value: V4<T>)
        ensures
            *final(self) == V4(value.3, value.1, value.0, value.2),
    {
        self.2 = value.0;
        self.1 = value.1;
        self.3 = value.2;
        self.0 = value.3;
    }

    /// Components 2, 1, 3, 1, in that order.
    pub fn bgag(&self) -> (ret: V4<T>)
        ensures
            ret == V4(self.2, self.1, self.3, self.1),
    {
        V4(self.2, self.1, self.3, self.1)
    }

    /// Components 2, 1, 3, 2, in that order.
    pub fn bgab(&self) -> (ret: V4<T>)
        ensures
            ret == V4(self.2, self.1, self.3, self.2),
    {
        V4(self.2, self.1, self.3, self.2)
    }

    /// Components 2, 1, 3, 3, in that order.
    pub fn bgaa(&self) -> (ret: V4<T>)
        ensures
            ret == V4(self.2, self.1, self.3, self.3),
    {
        V4(self.2, self.1, self.3, self.3)
    }

    /// Components 2, 2, 0, 0, in that order.
    pub fn bbrr(&self) -> (ret: V4<T>)
        ensures
            ret == V4(self.2, self.2, self.0, self.0),
    {
        V4(self.2, self.2, self.0, self.0)
    }

    /// Components 2, 2, 0, 1, in that order.
    pub fn bbrg(&self) -> (ret: V4<T>)
        ensures
            ret == V4(self.2, self.2, self.0, self.1),
    {
        V4(self.2, self.2, self.0, self.1)
    }

    /// Components 2, 2, 0, 2, in that order.
    pub fn bbrb(&self) -> (ret: V4<T>)
        ensures
            ret == V4(self.2, self.2, self.0, self.2),
    {
        V4(self.2, self.2, self.0, self.2)
    }

    /// Components 2, 2, 0, 3, in that order.
    pub fn bbra(&self) -> (ret: V4<T>)
        ensures
            ret == V4(self.2, self.2, self.0, self.3),
    {
        V4(self.2, self.2, self.0, self.3)
    }

    /// Components 2, 2, 1, 0, in that order.
    pub fn bbgr(&self) -> (ret: V4<T>)
        ensures
            ret == V4(self.2, self.2, self.1, self.0),
    {
        V4(self.2, self.2, self.1, self.0)
    }

    /// Components 2, 2, 1, 1, in that order.
    pub fn bbgg(&self) -> (ret: V4<T>)
        ensures
            ret == V4(self.2, self.2, self.1, self.1),
    {
        V4(self.2, self.2, self.1, self.1)
    }

    /// Components 2, 2, 1, 2, in that order.
    pub fn bbgb(&self) -> (ret: V4<T>)
        ensures
            ret == V4(self.2, self.2, self.1, self.2),
    {
        V4(self.2, self.2, self.1, self.2)
    }

    /// Components 2, 2, 1, 3, in that order.
    pub fn bbga(&self) -> (ret: V4<T>)
        ensures
            ret == V4(self.2, self.2, self.1, self.3),
    {
        V4(self.2, self.2, self.1, self.3)
    }

    /// Components 2, 2, 2, 0, in that order.
    pub fn bbbr(&self) -> (ret: V4<T>)
        ensures
            ret == V4(self.2, self.2, self.2, self.0),
    {
        V4(self.2, self.2, self.2, self.0)
    }

    /// Components 2, 2, 2, 1, in that order.
    pub fn bbbg(&self) -> (ret: V4<T>)
        ensures
            ret == V4(self.2, self.2, self.2, self.1),
    {
        V4(self.2, self.2, self.2, self.1)
    }

    /// Components 2, 2, 2, 2, in that order.
    pub fn bbbb(&self) -> (ret: V4<T>)
        ensures
            ret == V4(self.2, self.2, self.2, self.2),
    {
        V4(self.2, self.2, self.2, self.2)
    }

    /// Components 2, 2, 2, 3, in that order.
    pub fn bbba(&self) -> (ret: V4<T>)
        ensures
            ret == V4(self.2, self.2, self.2, self.3),
    {
        V4(self.2, self.2, self.2, self.3)
    }

    /// Components 2, 2, 3, 0, in that order.
    pub fn bbar(&self) -> (ret: V4<T>)
        ensures
            ret == V4(self.2, self.2, self.3, self.0),
    {
        V4(self.2, self.2, self.3, self.0)
    }

    /// Components 2, 2, 3, 1, in that order.
    pub fn bbag(&self) -> (ret: V4<T>)
        ensures
            ret == V4(self.2, self.2, self.3, self.1),
    {
        V4(self.2, self.2, self.3, self.1)
    }

    /// Components 2, 2, 3, 2, in that order.
    pub fn bbab(&self) -> (ret: V4<T>)
        ensures
            ret == V4(self.2, self.2, self.3, self.2),
    {
        V4(self.2, self.2, self.3, self.2)
    }

    /// Components 2, 2, 3, 3, in that order.
    pub fn bbaa(&self) -> (ret: V4<T>)
        ensures
            ret == V4(self.2, self.2, self.3, self.3),
    {
        V4(self.2, self.2, self.3, self.3)
    }

    /// Components 2, 3, 0, 0, in that order.
    pub fn barr(&self) -> (ret: V4<T>)
        ensures
            ret == V4(self.2, self.3, self.0, self.0),
    {
        V4(self.2, self.3, self.0, self.0)
    }

    /// Components 2, 3, 0, 1, in that order.
    pub fn barg(&self) -> (ret: V4<T>)
        ensures
            ret == V4(self.2, self.3, self.0, self.1),
    {
        V4(self.2, self.3, self.0, self.1)
    }

    /// Writes the components of `value` into components 2, 3, 0, 1, in
    /// that order.
    pub fn set_barg(&mut self, value: V4<T>)
        ensures
            *final(self) == V4(value.2, value.3, value.0, value.1),
    {
        self.2 = value.0;
        self.3 = value.1;
        self.0 = value.2;
        self.1 = value.3;
    }

    /// Components 2, 3, 0, 2, in that order.
    pub fn barb(&self) -> (ret: V4<T>)
        ensures
            ret == V4(self.2, self.3, self.0, self.2),
    {
        V4(self.2, self.3, self.0, self.2)
    }

    /// Components 2, 3, 0, 3, in that order.
    pub fn bara(&self) -> (ret: V4<T>)
        ensures
            ret == V4(self.2, self.3, self.0, self.3),
    {
        V4(self.2, self.3, self.0, self.3)
    }

    /// Components 2, 3, 1, 0, in that order.
    pub fn bagr(&self) -> (ret: V4<T>)
        ensures
            ret == V4(self.2, self.3, self.1, self.0),
    {
        V4(self.2, self.3, self.1, self.0)
    }

    /// Writes the components of `value` into components 2, 3, 1, 0, in
    /// that order.
    pub fn set_bagr(&mut self, value: V4<T>)
        ensures
            *final(self) == V4(value.3, value.2, value.0, value.1),
    {
        self.2 = value.0;
        self.3 = value.1;
        self.1 = value.2;
        self.0 = value.3;
    }

    /// Components 2, 3, 1, 1, in that order.
    pub fn bagg(&self) -> (ret: V4<T>)
        ensures
            ret == V4(self.2, self.3, self.1, self.1),
    {
        V4(self.2, self.3, self.1, self.1)
    }

    /// Components 2, 3, 1, 2, in that order.
    pub fn bagb(&self) -> (ret: V4<T>)
        ensures
            ret == V4(self.2, self.3, self.1, self.2),
    {
        V4(self.2, self.3, self.1, self.2)
    }

    /// Components 2, 3, 1, 3, in that order.
    pub fn baga(&self) -> (ret: V4<T>)
        ensures
            ret == V4(self.2, self.3, self.1, self.3),
    {
        V4(self.2, self.3, self.1, self.3)
    }

    /// Components 2, 3, 2, 0, in that order.
    pub fn babr(&self) -> (ret: V4<T>)
        ensures
            ret == V4(self.2, self.3, self.2, self.0),
    {
        V4(self.2, self.3, self.2, self.0)
    }

    /// Components 2, 3, 2, 1, in that order.
    pub fn babg(&self) -> (ret: V4<T>)
        ensures
            ret == V4(self.2, self.3, self.2, self.1),
    {
        V4(self.2, self.3, self.2, self.1)
    }

    /// Components 2, 3, 2, 2, in that order.
    pub fn babb(&self) -> (ret: V4<T>)
        ensures
            ret == V4(self.2, self.3, self.2, self.2),
    {
        V4(self.2, self.3, self.2, self.2)
    }

    /// Components 2, 3, 2, 3, in that order.
    pub fn baba(&self) -> (ret: V4<T>)
        ensures
            ret == V4(self.2, self.3, self.2, self.3),
    {
        V4(self.2, self.3, self.2, self.3)
    }

    /// Components 2, 3, 3, 0, in that order.
    pub fn baar(&self) -> (ret: V4<T>)
        ensures
            ret == V4(self.2, self.3, self.3, self.0),
    {
        V4(self.2, self.3, self.3, self.0)
    }

    /// Components 2, 3, 3, 1, in that order.
    pub fn baag(&self) -> (ret: V4<T>)
        ensures
            ret == V4(self.2, self.3, self.3, self.1),
    {
        V4(self.2, self.3, self.3, self.1)
    }

    /// Components 2, 3, 3, 2, in that order.
    pub fn baab(&self) -> (ret: V4<T>)
        ensures
            ret == V4(self.2, self.3, self.3, self.2),
    {
        V4(self.2, self.3, self.3, self.2)
    }

    /// Components 2, 3, 3, 3, in that order.
    pub fn baaa(&self) -> (ret: V4<T>)
        ensures
            ret == V4(self.2, self.3, self.3, self.3),
    {
        V4(self.2, self.3, self.3, self.3)
    }

    /// Components 3, 0, 0, 0, in that order.
    pub fn arrr(&self) -> (ret: V4<T>)
        ensures
            ret == V4(self.3, self.0, self.0, self.0),
    {
        V4(self.3, self.0, self.0, self.0)
    }

    /// Components 3, 0, 0, 1, in that order.
    pub fn arrg(&self) -> (ret: V4<T>)
        ensures
            ret == V4(self.3, self.0, self.0, self.1),
    {
        V4(self.3, self.0, self.0, self.1)
    }

    /// Components 3, 0, 0, 2, in that order.
    pub fn arrb(&self) -> (ret: V4<T>)
        ensures
            ret == V4(self.3, self.0, self.0, self.2),
    {
        V4(self.3, self.0, self.0, self.2)
    }

    /// Components 3, 0, 0, 3, in that order.
    pub fn arra(&self) -> (ret: V4<T>)
        ensures
            ret == V4(self.3, self.0, self.0, self.3),
    {
        V4(self.3, self.0, self.0, self.3)
    }

    /// Components 3, 0, 1, 0, in that order.
    pub fn argr(&self) -> (ret: V4<T>)
        ensures
            ret == V4(self.3, self.0, self.1, self.0),
    {
        V4(self.3, self.0, self.1, self.0)
    }

    /// Components 3, 0, 1, 1, in that order.
    pub fn argg(&self) -> (ret: V4<T>)
        ensures
            ret == V4(self.3, self.0, self.1, self.1),
    {
        V4(self.3, self.0, self.1, self.1)
    }

    /// Components 3, 0, 1, 2, in that order.
    pub fn argb(&self) -> (ret: V4<T>)
        ensures
            ret == V4(self.3, self.0, self.1, self.2),
    {
        V4(self.3, self.0, self.1, self.2)
    }

    /// Writes the components of `value` into components 3, 0, 1, 2, in
    /// that order.
    pub fn set_argb(&mut self, value: V4<T>)
        ensures
            *final(self) == V4(value.1, value.2, value.3, value.0),
    {
        self.3 = value.0;
        self.0 = value.1;
        self.1 = value.2;
        self.2 = value.3;
    }

    /// Components 3, 0, 1, 3, in that order.
    pub fn arga(&self) -> (ret: V4<T>)
        ensures
            ret == V4(self.3, self.0, self.1, self.3),
    {
        V4(self.3, self.0, self.1, self.3)
    }

    /// Components 3, 0, 2, 0, in that order.
    pub fn arbr(&self) -> (ret: V4<T>)
        ensures
            ret == V4(self.3, self.0, self.2, self.0),
    {
        V4(self.3, self.0, self.2, self.0)
    }

    /// Components 3, 0, 2, 1, in that order.
    pub fn arbg(&self) -> (ret: V4<T>)
        ensures
            ret == V4(self.3, self.0, self.2, self.1),
    {
        V4(self.3, self.0, self.2, self.1)
    }

    /// Writes the components of `value` into components 3, 0, 2, 1, in
    /// that order.
    pub fn set_arbg(&mut self, value: V4<T>)
        ensures
            *final(self) == V4(value.1, value.3, value.2, value.0),
    {
        self.3 = value.0;
        self.0 = value.1;
        self.2 = value.2;
        self.1 = value.3;
    }

    /// Components 3, 0, 2, 2, in that order.
    pub fn arbb(&self) -> (ret: V4<T>)
        ensures
            ret == V4(self.3, self.0, self.2, self.2),
    {
        V4(self.3, self.0, self.2, self.2)
    }

    /// Components 3, 0, 2, 3, in that order.
    pub fn arba(&self) -> (ret: V4<T>)
        ensures
            ret == V4(self.3, self.0, self.2, self.3),
    {
        V4(self.3, self.0, self.2, self.3)
    }

    /// Components 3, 0, 3, 0, in that order.
    pub fn arar(&self) -> (ret: V4<T>)
        ensures
            ret == V4(self.3, self.0, self.3, self.0),
    {
        V4(self.3, self.0, self.3, self.0)
    }

    /// Components 3, 0, 3, 1, in that order.
    pub fn arag(&self) -> (ret: V4<T>)
        ensures
            ret == V4(self.3, self.0, self.3, self.1),
    {
        V4(self.3, self.0, self.3, self.1)
    }

    /// Components 3, 0, 3, 2, in that order.
    pub fn arab(&self) -> (ret: V4<T>)
        ensures
            ret == V4(self.3, self.0, self.3, self.2),
    {
        V4(self.3, self.0, self.3, self.2)
    }

    /// Components 3, 0, 3, 3, in that order.
    pub fn araa(&self) -> (ret: V4<T>)
        ensures
            ret == V4(self.3, self.0, self.3, self.3),
    {
        V4(self.3, self.0, self.3, self.3)
    }

    /// Components 3, 1, 0, 0, in that order.
    pub fn agrr(&self) -> (ret: V4<T>)
        ensures
            ret == V4(self.3, self.1, self.0, self.0),
    {
        V4(self.3, self.1, self.0, self.0)
    }

    /// Components 3, 1, 0, 1, in that order.
    pub fn agrg(&self) -> (ret: V4<T>)
        ensures
            ret == V4(self.3, self.1, self.0, self.1),
    {
        V4(self.3, self.1, self.0, self.1)
    }

    /// Components 3, 1, 0, 2, in that order.
    pub fn agrb(&self) -> (ret: V4<T>)
        ensures
            ret == V4(self.3, self.1, self.0, self.2),
    {
        V4(self.3, self.1, self.0, self.2)
    }

    /// Writes the components of `value` into components 3, 1, 0, 2, in
    /// that order.
    pub fn set_agrb(&mut self, value: V4<T>)
        ensures
            *final(self) == V4(value.2, value.1, value.3, value.0),
    {
        self.3 = value.0;
        self.1 = value.1;
        self.0 = value.2;
        self.2 = value.3;
    }

    /// Components 3, 1, 0, 3, in that order.
    pub fn agra(&self) -> (ret: V4<T>)
        ensures
            ret == V4(self.3, self.1, self.0, self.3),
    {
        V4(self.3, self.1, self.0, self.3)
    }

    /// Components 3, 1, 1, 0, in that order.
    pub fn aggr(&self) -> (ret: V4<T>)
        ensures
            ret == V4(self.3, self.1, self.1, self.0),
    {
        V4(self.3, self.1, self.1, self.0)
    }

    /// Components 3, 1, 1, 1, in that order.
    pub fn aggg(&self) -> (ret: V4<T>)
        ensures
            ret == V4(self.3, self.1, self.1, self.1),
    {
        V4(self.3, self.1, self.1, self.1)
    }

    /// Components 3, 1, 1, 2, in that order.
    pub fn aggb(&self) -> (ret: V4<T>)
        ensures
            ret == V4(self.3, self.1, self.1, self.2),
    {
        V4(self.3, self.1, self.1, self.2)
    }

    /// Components 3, 1, 1, 3, in that order.
    pub fn agga(&self) -> (ret: V4<T>)
        ensures
            ret == V4(self.3, self.1, self.1, self.3),
    {
        V4(self.3, self.1, self.1, self.3)
    }

    /// Components 3, 1, 2, 0, in that order.
    pub fn agbr(&self) -> (ret: V4<T>)
        ensures
            ret == V4(self.3, self.1, self.2, self.0),
    {
        V4(self.3, self.1, self.2, self.0)
    }

    /// Writes the components of `value` into components 3, 1, 2, 0, in
    /// that order.
    pub fn set_agbr(&mut self, value: V4<T>)
        ensures
            *final(self) == V4(value.3, value.1, value.2, value.0),
    {
        self.3 = value.0;
        self.1 = value.1;
        self.2 = value.2;
        self.0 = value.3;
    }

    /// Components 3, 1, 2, 1, in that order.
    pub fn agbg(&self) -> (ret: V4<T>)
        ensures
            ret == V4(self.3, self.1, self.2, self.1),
    {
        V4(self.3, self.1, self.2, self.1)
    }

    /// Components 3, 1, 2, 2, in that order.
    pub fn agbb(&self) -> (ret: V4<T>)
        ensures
            ret == V4(self.3, self.1, self.2, self.2),
    {
        V4(self.3, self.1, self.2, self.2)
    }

    /// Components 3, 1, 2, 3, in that order.
    pub fn agba(&self) -> (ret: V4<T>)
        ensures
            ret == V4(self.3, self.1, self.2, self.3),
    {
        V4(self.3, self.1, self.2, self.3)
    }

    /// Components 3, 1, 3, 0, in that order.
    pub fn agar(&self) -> (ret: V4<T>)
        ensures
            ret == V4(self.3, self.1, self.3, self.0),
    {
        V4(self.3, self.1, self.3, self.0)
    }

    /// Components 3, 1, 3, 1, in that order.
    pub fn agag(&self) -> (ret: V4<T>)
        ensures
            ret == V4(self.3, self.1, self.3, self.1),
    {
        V4(self.3, self.1, self.3, self.1)
    }

    /// Components 3, 1, 3, 2, in that order.
    pub fn agab(&self) -> (ret: V4<T>)
        ensures
            ret == V4(self.3, self.1, self.3, self.2),
    {
        V4(self.3, self.1, self.3, self.2)
    }

    /// Components 3, 1, 3, 3, in that order.
    pub fn agaa(&self) -> (ret: V4<T>)
        ensures
            ret == V4(self.3, self.1, self.3, self.3),
    {
        V4(self.3, self.1, self.3, self.3)
    }

    /// Components 3, 2, 0, 0, in that order.
    pub fn abrr(&self) -> (ret: V4<T>)
        ensures
            ret == V4(self.3, self.2, self.0, self.0),
    {
        V4(self.3, self.2, self.0, self.0)
    }

    /// Components 3, 2, 0, 1, in that order.
    pub fn abrg(&self) -> (ret: V4<T>)
        ensures
            ret == V4(self.3, self.2, self.0, self.1),
    {
        V4(self.3, self.2, self.0, self.1)
    }

    /// Writes the components of `value` into components 3, 2, 0, 1, in
    /// that order.
    pub fn set_abrg(&mut self, value: V4<T>)
        ensures
            *final(self) == V4(value.2, value.3, value.1, value.0),
    {
        self.3 = value.0;
        self.2 = value.1;
        self.0 = value.2;
        self.1 = value.3;
    }

    /// Components 3, 2, 0, 2, in that order.
    pub fn abrb(&self) -> (ret: V4<T>)
        ensures
            ret == V4(self.3, self.2, self.0, self.2),
    {
        V4(self.3, self.2, self.0, self.2)
    }

    /// Components 3, 2, 0, 3, in that order.
    pub fn abra(&self) -> (ret: V4<T>)
        ensures
            ret == V4(self.3, self.2, self.0, self.3),
    {
        V4(self.3, self.2, self.0, self.3)
    }

    /// Components 3, 2, 1, 0, in that order.
    pub fn abgr(&self) -> (ret: V4<T>)
        ensures
            ret == V4(self.3, self.2, self.1, self.0),
    {
        V4(self.3, self.2, self.1, self.0)
    }

    /// Writes the components of `value` into components 3, 2, 1, 0, in
    /// that order.
    pub fn set_abgr(&mut self, value: V4<T>)
        ensures
            *final(self) == V4(value.3, value.2, value.1, value.0),
    {
        self.3 = value.0;
        self.2 = value.1;
        self.1 = value.2;
        self.0 = value.3;
    }

    /// Components 3, 2, 1, 1, in that order.
    pub fn abgg(&self) -> (ret: V4<T>)
        ensures
            ret == V4(self.3, self.2, self.1, self.1),
    {
        V4(self.3, self.2, self.1, self.1)
    }

    /// Components 3, 2, 1, 2, in that order.
    pub fn abgb(&self) -> (ret: V4<T>)
        ensures
            ret == V4(self.3, self.2, self.1, self.2),
    {
        V4(self.3, self.2, self.1, self.2)
    }

    /// Components 3, 2, 1, 3, in that order.
    pub fn abga(&self) -> (ret: V4<T>)
        ensures
            ret == V4(self.3, self.2, self.1, self.3),
    {
        V4(self.3, self.2, self.1, self.3)
    }

    /// Components 3, 2, 2, 0, in that order.
    pub fn abbr(&self) -> (ret: V4<T>)
        ensures
            ret == V4(self.3, self.2, self.2, self.0),
    {
        V4(self.3, self.2, self.2, self.0)
    }

    /// Components 3, 2, 2, 1, in that order.
    pub fn abbg(&self) -> (ret: V4<T>)
        ensures
            ret == V4(self.3, self.2, self.2, self.1),
    {
        V4(self.3, self.2, self.2, self.1)
    }

    /// Components 3, 2, 2, 2, in that order.
    pub fn abbb(&self) -> (ret: V4<T>)
        ensures
            ret == V4(self.3, self.2, self.2, self.2),
    {
        V4(self.3, self.2, self.2, self.2)
    }

    /// Components 3, 2, 2, 3, in that order.
    pub fn abba(&self) -> (ret: V4<T>)
        ensures
            ret == V4(self.3, self.2, self.2, self.3),
    {
        V4(self.3, self.2, self.2, self.3)
    }

    /// Components 3, 2, 3, 0, in that order.
    pub fn abar(&self) -> (ret: V4<T>)
        ensures
            ret == V4(self.3, self.2, self.3, self.0),
    {
        V4(self.3, self.2, self.3, self.0)
    }

    /// Components 3, 2, 3, 1, in that order.
    pub fn abag(&self) -> (ret: V4<T>)
        ensures
            ret == V4(self.3, self.2, self.3, self.1),
    {
        V4(self.3, self.2, self.3, self.1)
    }

    /// Components 3, 2, 3, 2, in that order.
    pub fn abab(&self) -> (ret: V4<T>)
        ensures
            ret == V4(self.3, self.2, self.3, self.2),
    {
        V4(self.3, self.2, self.3, self.2)
    }

    /// Components 3, 2, 3, 3, in that order.
    pub fn abaa(&self) -> (ret: V4<T>)
        ensures
            ret == V4(self.3, self.2, self.3, self.3),
    {
        V4(self.3, self.2, self.3, self.3)
    }

    /// Components 3, 3, 0, 0, in that order.
    pub fn aarr(&self) -> (ret: V4<T>)
        ensures
            ret == V4(self.3, self.3, self.0, self.0),
    {
        V4(self.3, self.3, self.0, self.0)
    }

    /// Components 3, 3, 0, 1, in that order.
    pub fn aarg(&self) -> (ret: V4<T>)
        ensures
            ret == V4(self.3, self.3, self.0, self.1),
    {
        V4(self.3, self.3, self.0, self.1)
    }

    /// Components 3, 3, 0, 2, in that order.
    pub fn aarb(&self) -> (ret: V4<T>)
        ensures
            ret == V4(self.3, self.3, self.0, self.2),
    {
        V4(self.3, self.3, self.0, self.2)
    }

    /// Components 3, 3, 0, 3, in that order.
    pub fn aara(&self) -> (ret: V4<T>)
        ensures
            ret == V4(self.3, self.3, self.0, self.3),
    {
        V4(self.3, self.3, self.0, self.3)
    }

    /// Components 3, 3, 1, 0, in that order.
    pub fn aagr(&self) -> (ret: V4<T>)
        ensures
            ret == V4(self.3, self.3, self.1, self.0),
    {
        V4(self.3, self.3, self.1, self.0)
    }

    /// Components 3, 3, 1, 1, in that order.
    pub fn aagg(&self) -> (ret: V4<T>)
        ensures
            ret == V4(self.3, self.3, self.1, self.1),
    {
        V4(self.3, self.3, self.1, self.1)
    }

    /// Components 3, 3, 1, 2, in that order.
    pub fn aagb(&self) -> (ret: V4<T>)
        ensures
            ret == V4(self.3, self.3, self.1, self.2),
    {
        V4(self.3, self.3, self.1, self.2)
    }

    /// Components 3, 3, 1, 3, in that order.
    pub fn aaga(&self) -> (ret: V4<T>)
        ensures
            ret == V4(self.3, self.3, self.1, self.3),
    {
        V4(self.3, self.3, self.1, self.3)
    }

    /// Components 3, 3, 2, 0, in that order.
    pub fn aabr(&self) -> (ret: V4<T>)
        ensures
            ret == V4(self.3, self.3, self.2, self.0),
    {
        V4(self.3, self.3, self.2, self.0)
    }

    /// Components 3, 3, 2, 1, in that order.
    pub fn aabg(&self) -> (ret: V4<T>)
        ensures
            ret == V4(self.3, self.3, self.2, self.1),
    {
        V4(self.3, self.3, self.2, self.1)
    }

    /// Components 3, 3, 2, 2, in that order.
    pub fn aabb(&self) -> (ret: V4<T>)
        ensures
            ret == V4(self.3, self.3, self.2, self.2),
    {
        V4(self.3, self.3, self.2, self.2)
    }

    /// Components 3, 3, 2, 3, in that order.
    pub fn aaba(&self) -> (ret: V4<T>)
        ensures
            ret == V4(self.3, self.3, self.2, self.3),
    {
        V4(self.3, self.3, self.2, self.3)
    }

    /// Components 3, 3, 3, 0, in that order.
    pub fn aaar(&self) -> (ret: V4<T>)
        ensures
            ret == V4(self.3, self.3, self.3, self.0),
    {
        V4(self.3, self.3, self.3, self.0)
    }

    /// Components 3, 3, 3, 1, in that order.
    pub fn aaag(&self) -> (ret: V4<T>)
        ensures
            ret == V4(self.3, self.3, self.3, self.1),
    {
        V4(self.3, self.3, self.3, self.1)
    }

    /// Components 3, 3, 3, 2, in that order.
    pub fn aaab(&self) -> (ret: V4<T>)
        ensures
            ret == V4(self.3, self.3, self.3, self.2),
    {
        V4(self.3, self.3, self.3, self.2)
    }

    /// Components 3, 3, 3, 3, in that order.
    pub fn aaaa(&self) -> (ret: V4<T>)
        ensures
            ret == V4(self.3, self.3, self.3, self.3),
    {
        V4(self.3, self.3, self.3, self.3)
    }

    /// Component 0.
    pub fn s(&self) -> (ret: T)
        ensures
            ret == self.0,
    {
        self.0
    }

    /// Writes `value` into component 0.
    pub fn set_s(&mut self, value: T)
        ensures
            *final(self) == V4(value, old(self).1, old(self).2, old(self).3),
    {
        self.0 = value;
    }

    /// Component 1.
    pub fn t(&self) -> (ret: T)
        ensures
            ret == self.1,
    {
        self.1
    }

    /// Writes `value` into component 1.
    pub fn set_t(&mut self, value: T)
        ensures
            *final(self) == V4(old(self).0, value, old(self).2, old(self).3),
    {
        self.1 = value;
    }

    /// Component 2.
    pub fn p(&self) -> (ret: T)
        ensures
            ret == self.2,
    {
        self.2
    }

    /// Writes `value` into component 2.
    pub fn set_p(&mut self, value: T)
        ensures
            *final(self) == V4(old(self).0, old(self).1, value, old(self).3),
    {
        self.2 = value;
    }

    /// Component 3.
    pub fn q(&self) -> (ret: T)
        ensures
            ret == self.3,
    {
        self.3
    }

    /// Writes `value` into component 3.
    pub fn set_q(&mut self, value: T)
        ensures
            *final(self) == V4(old(self).0, old(self).1, old(self).2, value),
    {
        self.3 = value;
    }

    /// Components 0, 0, in that order.
    pub fn ss(&self) -> (ret: V2<T>)
        ensures
            ret == V2(self.0, self.0),
    {
        V2(self.0, self.0)
    }

    /// Components 0, 1, in that order.
    pub fn st(&self) -> (ret: V2<T>)
        ensures
            ret == V2(self.0, self.1),
    {
        V2(self.0, self.1)
    }

    /// Writes the components of `value` into components 0, 1, in
    /// that order.
    pub fn set_st(&mut self, value: V2<T>)
        ensures
            *final(self) == V4(value.0, value.1, old(self).2, old(self).3),
    {
        self.0 = value.0;
        self.1 = value.1;
    }

    /// Components 0, 2, in that order.
    pub fn sp(&self) -> (ret: V2<T>)
        ensures
            ret == V2(self.0, self.2),
    {
        V2(self.0, self.2)
    }

    /// Writes the components of `value` into components 0, 2, in
    /// that order.
    pub fn set_sp(&mut self, value: V2<T>)
        ensures
            *final(self) == V4(value.0, old(self).1, value.1, old(self).3),
    {
        self.0 = value.0;
        self.2 = value.1;
    }

    /// Components 0, 3, in that order.
    pub fn sq(&self) -> (ret: V2<T>)
        ensures
            ret == V2(self.0, self.3),
    {
        V2(self.0, self.3)
    }

    /// Writes the components of `value` into components 0, 3, in
    /// that order.
    pub fn set_sq(&mut self, value: V2<T>)
        ensures
            *final(self) == V4(value.0, old(self).1, old(self).2, value.1),
    {
        self.0 = value.0;
        self.3 = value.1;
    }

    /// Components 1, 0, in that order.
    pub fn ts(&self) -> (ret: V2<T>)
        ensures
            ret == V2(self.1, self.0),
    {
        V2(self.1, self.0)
    }

    /// Writes the components of `value` into components 1, 0, in
    /// that order.
    pub fn set_ts(&mut self, value: V2<T>)
        ensures
            *final(self) == V4(value.1, value.0, old(self).2, old(self).3),
    {
        self.1 = value.0;
        self.0 = value.1;
    }

    /// Components 1, 1, in that order.
    pub fn tt(&self) -> (ret: V2<T>)
        ensures
            ret == V2(self.1, self.1),
    {
        V2(self.1, self.1)
    }

    /// Components 1, 2, in that order.
    pub fn tp(&self) -> (ret: V2<T>)
        ensures
            ret == V2(self.1, self.2),
    {
        V2(self.1, self.2)
    }

    /// Writes the components of `value` into components 1, 2, in
    /// that order.
    pub fn set_tp(&mut self, value: V2<T>)
        ensures
            *final(self) == V4(old(self).0, value.0, value.1, old(self).3),
    {
        self.1 = value.0;
        self.2 = value.1;
    }

    /// Components 1, 3, in that order.
    pub fn tq(&self) -> (ret: V2<T>)
        ensures
            ret == V2(self.1, self.3),
    {
        V2(self.1, self.3)
    }

    /// Writes the components of `value` into components 1, 3, in
    /// that order.
    pub fn set_tq(&mut self, value: V2<T>)
        ensures
            *final(self) == V4(old(self).0, value.0, old(self).2, value.1),
    {
        self.1 = value.0;
        self.3 = value.1;
    }

    /// Components 2, 0, in that order.
    pub fn ps(&self) -> (ret: V2<T>)
        ensures
            ret == V2(self.2, self.0),
    {
        V2(self.2, self.0)
    }

    /// Writes the components of `value` into components 2, 0, in
    /// that order.
    pub fn set_ps(&mut self, value: V2<T>)
        ensures
            *final(self) == V4(value.1, old(self).1, value.0, old(self).3),
    {
        self.2 = value.0;
        self.0 = value.1;
    }

    /// Components 2, 1, in that order.
    pub fn pt(&self) -> (ret: V2<T>)
        ensures
            ret == V2(self.2, self.1),
    {
        V2(self.2, self.1)
    }

    /// Writes the components of `value` into components 2, 1, in
    /// that order.
    pub fn set_pt(&mut self, value: V2<T>)
        ensures
            *final(self) == V4(old(self).0, value.1, value.0, old(self).3),
    {
        self.2 = value.0;
        self.1 = value.1;
    }

    /// Components 2, 2, in that order.
    pub fn pp(&self) -> (ret: V2<T>)
        ensures
            ret == V2(self.2, self.2),
    {
        V2(self.2, self.2)
    }

    /// Components 2, 3, in that order.
    pub fn pq(&self) -> (ret: V2<T>)
        ensures
            ret == V2(self.2, self.3),
    {
        V2(self.2, self.3)
    }

    /// Writes the components of `value` into components 2, 3, in
    /// that order.
    pub fn set_pq(&mut self, value: V2<T>)
        ensures
            *final(self) == V4(old(self).0, old(self).1, value.0, value.1),
    {
        self.2 = value.0;
        self.3 = value.1;
    }

    /// Components 3, 0, in that order.
    pub fn qs(&self) -> (ret: V2<T>)
        ensures
            ret == V2(self.3, self.0),
    {
        V2(self.3, self.0)
    }

    /// Writes the components of `value` into components 3, 0, in
    /// that order.
    pub fn set_qs(&mut self, value: V2<T>)
        ensures
            *final(self) == V4(value.1, old(self).1, old(self).2, value.0),
    {
        self.3 = value.0;
        self.0 = value.1;
    }

    /// Components 3, 1, in that order.
    pub fn qt(&self) -> (ret: V2<T>)
        ensures
            ret == V2(self.3, self.1),
    {
        V2(self.3, self.1)
    }

    /// Writes the components of `value` into components 3, 1, in
    /// that order.
    pub fn set_qt(&mut self, value: V2<T>)
        ensures
            *final(self) == V4(old(self).0, value.1, old(self).2, value.0),
    {
        self.3 = value.0;
        self.1 = value.1;
    }

    /// Components 3, 2, in that order.
    pub fn qp(&self) -> (ret: V2<T>)
        ensures
            ret == V2(self.3, self.2),
    {
        V2(self.3, self.2)
    }

    /// Writes the components of `value` into components 3, 2, in
    /// that order.
    pub fn set_qp(&mut self, value: V2<T>)
        ensures
            *final(self) == V4(old(self).0, old(self).1, value.1, value.0),
    {
        self.3 = value.0;
        self.2 = value.1;
    }

    /// Components 3, 3, in that order.
    pub fn qq(&self) -> (ret: V2<T>)
        ensures
            ret == V2(self.3, self.3),
    {
        V2(self.3, self.3)
    }

    /// Components 0, 0, 0, in that order.
    pub fn sss(&self) -> (ret: V3<T>)
        ensures
            ret == V3(self.0, self.0, self.0),
    {
        V3(self.0, self.0, self.0)
    }

    /// Components 0, 0, 1, in that order.
    pub fn sst(&self) -> (ret: V3<T>)
        ensures
            ret == V3(self.0, self.0, self.1),
    {
        V3(self.0, self.0, self.1)
    }

    /// Components 0, 0, 2, in that order.
    pub fn ssp(&self) -> (ret: V3<T>)
        ensures
            ret == V3(self.0, self.0, self.2),
    {
        V3(self.0, self.0, self.2)
    }

    /// Components 0, 0, 3, in that order.
    pub fn ssq(&self) -> (ret: V3<T>)
        ensures
            ret == V3(self.0, self.0, self.3),
    {
        V3(self.0, self.0, self.3)
    }

    /// Components 0, 1, 0, in that order.
    pub fn sts(&self) -> (ret: V3<T>)
        ensures
            ret == V3(self.0, self.1, self.0),
    {
        V3(self.0, self.1, self.0)
    }

    /// Components 0, 1, 1, in that order.
    pub fn stt(&self) -> (ret: V3<T>)
        ensures
            ret == V3(self.0, self.1, self.1),
    {
        V3(self.0, self.1, self.1)
    }

    /// Components 0, 1, 2, in that order.
    pub fn stp(&self) -> (ret: V3<T>)
        ensures
            ret == V3(self.0, self.1, self.2),
    {
        V3(self.0, self.1, self.2)
    }

    /// Writes the components of `value` into components 0, 1, 2, in
    /// that order.
    pub fn set_stp(&mut self, value: V3<T>)
        ensures
            *final(self) == V4(value.0, value.1, value.2, old(self).3),
    {
        self.0 = value.0;
        self.1 = value.1;
        self.2 = value.2;
    }

    /// Components 0, 1, 3, in that order.
    pub fn stq(&self) -> (ret: V3<T>)
        ensures
            ret == V3(self.0, self.1, self.3),
    {
        V3(self.0, self.1, self.3)
    }

    /// Writes the components of `value` into components 0, 1, 3, in
    /// that order.
    pub fn set_stq(&mut self, value: V3<T>)
        ensures
            *final(self) == V4(value.0, value.1, old(self).2, value.2),
    {
        self.0 = value.0;
        self.1 = value.1;
        self.3 = value.2;
    }

    /// Components 0, 2, 0, in that order.
    pub fn sps(&self) -> (ret: V3<T>)
        ensures
            ret == V3(self.0, self.2, self.0),
    {
        V3(self.0, self.2, self.0)
    }

    /// Components 0, 2, 1, in that order.
    pub fn spt(&self) -> (ret: V3<T>)
        ensures
            ret == V3(self.0, self.2, self.1),
    {
        V3(self.0, self.2, self.1)
    }

    /// Writes the components of `value` into components 0, 2, 1, in
    /// that order.
    pub fn set_spt(&mut self, value: V3<T>)
        ensures
            *final(self) == V4(value.0, value.2, value.1, old(self).3),
    {
        self.0 = value.0;
        self.2 = value.1;
        self.1 = value.2;
    }

    /// Components 0, 2, 2, in that order.
    pub fn spp(&self) -> (ret: V3<T>)
        ensures
            ret == V3(self.0, self.2, self.2),
    {
        V3(self.0, self.2, self.2)
    }

    /// Components 0, 2, 3, in that order.
    pub fn spq(&self) -> (ret: V3<T>)
        ensures
            ret == V3(self.0, self.2, self.3),
    {
        V3(self.0, self.2, self.3)
    }

    /// Writes the components of `value` into components 0, 2, 3, in
    /// that order.
    pub fn set_spq(&mut self, value: V3<T>)
        ensures
            *final(self) == V4(value.0, old(self).1, value.1, value.2),
    {
        self.0 = value.0;
        self.2 = value.1;
        self.3 = value.2;
    }

    /// Components 0, 3, 0, in that order.
    pub fn sqs(&self) -> (ret: V3<T>)
        ensures
            ret == V3(self.0, self.3, self.0),
    {
        V3(self.0, self.3, self.0)
    }

    /// Components 0, 3, 1, in that order.
    pub fn sqt(&self) -> (ret: V3<T>)
        ensures
            ret == V3(self.0, self.3, self.1),
    {
        V3(self.0, self.3, self.1)
    }

    /// Writes the components of `value` into components 0, 3, 1, in
    /// that order.
    pub fn set_sqt(&mut self, value: V3<T>)
        ensures
            *final(self) == V4(value.0, value.2, old(self).2, value.1),
    {
        self.0 = value.0;
        self.3 = value.1;
        self.1 = value.2;
    }

    /// Components 0, 3, 2, in that order.
    pub fn sqp(&self) -> (ret: V3<T>)
        ensures
            ret == V3(self.0, self.3, self.2),
    {
        V3(self.0, self.3, self.2)
    }

    /// Writes the components of `value` into components 0, 3, 2, in
    /// that order.
    pub fn set_sqp(&mut self, value: V3<T>)
        ensures
            *final(self) == V4(value.0, old(self).1, value.2, value.1),
    {
        self.0 = value.0;
        self.3 = value.1;
        self.2 = value.2;
    }

    /// Components 0, 3, 3, in that order.
    pub fn sqq(&self) -> (ret: V3<T>)
        ensures
            ret == V3(self.0, self.3, self.3),
    {
        V3(self.0, self.3, self.3)
    }

    /// Components 1, 0, 0, in that order.
    pub fn tss(&self) -> (ret: V3<T>)
        ensures
            ret == V3(self.1, self.0, self.0),
    {
        V3(self.1, self.0, self.0)
    }

    /// Components 1, 0, 1, in that order.
    pub fn tst(&self) -> (ret: V3<T>)
        ensures
            ret == V3(self.1, self.0, self.1),
    {
        V3(self.1, self.0, self.1)
    }

    /// Components 1, 0, 2, in that order.
    pub fn tsp(&self) -> (ret: V3<T>)
        ensures
            ret == V3(self.1, self.0, self.2),
    {
        V3(self.1, self.0, self.2)
    }

    /// Writes the components of `value` into components 1, 0, 2, in
    /// that order.
    pub fn set_tsp(&mut self, value: V3<T>)
        ensures
            *final(self) == V4(value.1, value.0, value.2, old(self).3),
    {
        self.1 = value.0;
        self.0 = value.1;
        self.2 = value.2;
    }

    /// Components 1, 0, 3, in that order.
    pub fn tsq(&self) -> (ret: V3<T>)
        ensures
            ret == V3(self.1, self.0, self.3),
    {
        V3(self.1, self.0, self.3)
    }

    /// Writes the components of `value` into components 1, 0, 3, in
    /// that order.
    pub fn set_tsq(&mut self, value: V3<T>)
        ensures
            *final(self) == V4(value.1, value.0, old(self).2, value.2),
    {
        self.1 = value.0;
        self.0 = value.1;
        self.3 = value.2;
    }

    /// Components 1, 1, 0, in that order.
    pub fn tts(&self) -> (ret: V3<T>)
        ensures
            ret == V3(self.1, self.1, self.0),
    {
        V3(self.1, self.1, self.0)
    }

    /// Components 1, 1, 1, in that order.
    pub fn ttt(&self) -> (ret: V3<T>)
        ensures
            ret == V3(self.1, self.1, self.1),
    {
        V3(self.1, self.1, self.1)
    }

    /// Components 1, 1, 2, in that order.
    pub fn ttp(&self) -> (ret: V3<T>)
        ensures
            ret == V3(self.1, self.1, self.2),
    {
        V3(self.1, self.1, self.2)
    }

    /// Components 1, 1, 3, in that order.
    pub fn ttq(&self) -> (ret: V3<T>)
        ensures
            ret == V3(self.1, self.1, self.3),
    {
        V3(self.1, self.1, self.3)
    }

    /// Components 1, 2, 0, in that order.
    pub fn tps(&self) -> (ret: V3<T>)
        ensures
            ret == V3(self.1, self.2, self.0),
    {
        V3(self.1, self.2, self.0)
    }

    /// Writes the components of `value` into components 1, 2, 0, in
    /// that order.
    pub fn set_tps(&mut self, value: V3<T>)
        ensures
            *final(self) == V4(value.2, value.0, value.1, old(self).3),
    {
        self.1 = value.0;
        self.2 = value.1;
        self.0 = value.2;
    }

    /// Components 1, 2, 1, in that order.
    pub fn tpt(&self) -> (ret: V3<T>)
        ensures
            ret == V3(self.1, self.2, self.1),
    {
        V3(self.1, self.2, self.1)
    }

    /// Components 1, 2, 2, in that order.
    pub fn tpp(&self) -> (ret: V3<T>)
        ensures
            ret == V3(self.1, self.2, self.2),
    {
        V3(self.1, self.2, self.2)
    }

    /// Components 1, 2, 3, in that order.
    pub fn tpq(&self) -> (ret: V3<T>)
        ensures
            ret == V3(self.1, self.2, self.3),
    {
        V3(self.1, self.2, self.3)
    }

    /// Writes the components of `value` into components 1, 2, 3, in
    /// that order.
    pub fn set_tpq(&mut self, value: V3<T>)
        ensures
            *final(self) == V4(old(self).0, value.0, value.1, value.2),
    {
        self.1 = value.0;
        self.2 = value.1;
        self.3 = value.2;
    }

    /// Components 1, 3, 0, in that order.
    pub fn tqs(&self) -> (ret: V3<T>)
        ensures
            ret == V3(self.1, self.3, self.0),
    {
        V3(self.1, self.3, self.0)
    }

    /// Writes the components of `value` into components 1, 3, 0, in
    /// that order.
    pub fn set_tqs(&mut self, value: V3<T>)
        ensures
            *final(self) == V4(value.2, value.0, old(self).2, value.1),
    {
        self.1 = value.0;
        self.3 = value.1;
        self.0 = value.2;
    }

    /// Components 1, 3, 1, in that order.
    pub fn tqt(&self) -> (ret: V3<T>)
        ensures
            ret == V3(self.1, self.3, self.1),
    {
        V3(self.1, self.3, self.1)
    }

    /// Components 1, 3, 2, in that order.
    pub fn tqp(&self) -> (ret: V3<T>)
        ensures
            ret == V3(self.1, self.3, self.2),
    {
        V3(self.1, self.3, self.2)
    }

    /// Writes the components of `value` into components 1, 3, 2, in
    /// that order.
    pub fn set_tqp(&mut self, value: V3<T>)
        ensures
            *final(self) == V4(old(self).0, value.0, value.2, value.1),
    {
        self.1 = value.0;
        self.3 = value.1;
        self.2 = value.2;
    }

    /// Components 1, 3, 3, in that order.
    pub fn tqq(&self) -> (ret: V3<T>)
        ensures
            ret == V3(self.1, self.3, self.3),
    {
        V3(self.1, self.3, self.3)
    }

    /// Components 2, 0, 0, in that order.
    pub fn pss(&self) -> (ret: V3<T>)
        ensures
            ret == V3(self.2, self.0, self.0),
    {
        V3(self.2, self.0, self.0)
    }

    /// Components 2, 0, 1, in that order.
    pub fn pst(&self) -> (ret: V3<T>)
        ensures
            ret == V3(self.2, self.0, self.1),
    {
        V3(self.2, self.0, self.1)
    }

    /// Writes the components of `value` into components 2, 0, 1, in
    /// that order.
    pub fn set_pst(&mut self, value: V3<T>)
        ensures
            *final(self) == V4(value.1, value.2, value.0, old(self).3),
    {
        self.2 = value.0;
        self.0 = value.1;
        self.1 = value.2;
    }

    /// Components 2, 0, 2, in that order.
    pub fn psp(&self) -> (ret: V3<T>)
        ensures
            ret == V3(self.2, self.0, self.2),
    {
        V3(self.2, self.0, self.2)
    }

    /// Components 2, 0, 3, in that order.
    pub fn psq(&self) -> (ret: V3<T>)
        ensures
            ret == V3(self.2, self.0, self.3),
    {
        V3(self.2, self.0, self.3)
    }

    /// Writes the components of `value` into components 2, 0, 3, in
    /// that order.
    pub fn set_psq(&mut self, value: V3<T>)
        ensures
            *final(self) == V4(value.1, old(self).1, value.0, value.2),
    {
        self.2 = value.0;
        self.0 = value.1;
        self.3 = value.2;
    }

    /// Components 2, 1, 0, in that order.
    pub fn pts(&self) -> (ret: V3<T>)
        ensures
            ret == V3(self.2, self.1, self.0),
    {
        V3(self.2, self.1, self.0)
    }

    /// Writes the components of `value` into components 2, 1, 0, in
    /// that order.
    pub fn set_pts(&mut self, value: V3<T>)
        ensures
            *final(self) == V4(value.2, value.1, value.0, old(self).3),
    {
        self.2 = value.0;
        self.1 = value.1;
        self.0 = value.2;
    }

    /// Components 2, 1, 1, in that order.
    pub fn ptt(&self) -> (ret: V3<T>)
        ensures
            ret == V3(self.2, self.1, self.1),
    {
        V3(self.2, self.1, self.1)
    }

    /// Components 2, 1, 2, in that order.
    pub fn ptp(&self) -> (ret: V3<T>)
        ensures
            ret == V3(self.2, self.1, self.2),
    {
        V3(self.2, self.1, self.2)
    }

    /// Components 2, 1, 3, in that order.
    pub fn ptq(&self) -> (ret: V3<T>)
        ensures
            ret == V3(self.2, self.1, self.3),
    {
        V3(self.2, self.1, self.3)
    }

    /// Writes the components of `value` into components 2, 1, 3, in
    /// that order.
    pub fn set_ptq(&mut self, value: V3<T>)
        ensures
            *final(self) == V4(old(self).0, value.1, value.0, value.2),
    {
        self.2 = value.0;
        self.1 = value.1;
        self.3 = value.2;
    }

    /// Components 2, 2, 0, in that order.
    pub fn pps(&self) -> (ret: V3<T>)
        ensures
            ret == V3(self.2, self.2, self.0),
    {
        V3(self.2, self.2, self.0)
    }

    /// Components 2, 2, 1, in that order.
    pub fn ppt(&self) -> (ret: V3<T>)
        ensures
            ret == V3(self.2, self.2, self.1),
    {
        V3(self.2, self.2, self.1)
    }

    /// Components 2, 2, 2, in that order.
    pub fn ppp(&self) -> (ret: V3<T>)
        ensures
            ret == V3(self.2, self.2, self.2),
    {
        V3(self.2, self.2, self.2)
    }

    /// Components 2, 2, 3, in that order.
    pub fn ppq(&self) -> (ret: V3<T>)
        ensures
            ret == V3(self.2, self.2, self.3),
    {
        V3(self.2, self.2, self.3)
    }

    /// Components 2, 3, 0, in that order.
    pub fn pqs(&self) -> (ret: V3<T>)
        ensures
            ret == V3(self.2, self.3, self.0),
    {
        V3(self.2, self.3, self.0)
    }

    /// Writes the components of `value` into components 2, 3, 0, in
    /// that order.
    pub fn set_pqs(&mut self, value: V3<T>)
        ensures
            *final(self) == V4(value.2, old(self).1, value.0, value.1),
    {
        self.2 = value.0;
        self.3 = value.1;
        self.0 = value.2;
    }

    /// Components 2, 3, 1, in that order.
    pub fn pqt(&self) -> (ret: V3<T>)
        ensures
            ret == V3(self.2, self.3, self.1),
    {
        V3(self.2, self.3, self.1)
    }

    /// Writes the components of `value` into components 2, 3, 1, in
    /// that order.
    pub fn set_pqt(&mut self, value: V3<T>)
        ensures
            *final(self) == V4(old(self).0, value.2, value.0, value.1),
    {
        self.2 = value.0;
        self.3 = value.1;
        self.1 = value.2;
    }

    /// Components 2, 3, 2, in that order.
    pub fn pqp(&self) -> (ret: V3<T>)
        ensures
            ret == V3(self.2, self.3, self.2),
    {
        V3(self.2, self.3, self.2)
    }

    /// Components 2, 3, 3, in that order.
    pub fn pqq(&self) -> (ret: V3<T>)
        ensures
            ret == V3(self.2, self.3, self.3),
    {
        V3(self.2, self.3, self.3)
    }

    /// Components 3, 0, 0, in that order.
    pub fn qss(&self) -> (ret: V3<T>)
        ensures
            ret == V3(self.3, self.0, self.0),
    {
        V3(self.3, self.0, self.0)
    }

    /// Components 3, 0, 1, in that order.
    pub fn qst(&self) -> (ret: V3<T>)
        ensures
            ret == V3(self.3, self.0, self.1),
    {
        V3(self.3, self.0, self.1)
    }

    /// Writes the components of `value` into components 3, 0, 1, in
    /// that order.
    pub fn set_qst(&mut self, value: V3<T>)
        ensures
            *final(self) == V4(value.1, value.2, old(self).2, value.0),
    {
        self.3 = value.0;
        self.0 = value.1;
        self.1 = value.2;
    }

    /// Components 3, 0, 2, in that order.
    pub fn qsp(&self) -> (ret: V3<T>)
        ensures
            ret == V3(self.3, self.0, self.2),
    {
        V3(self.3, self.0, self.2)
    }

    /// Writes the components of `value` into components 3, 0, 2, in
    /// that order.
    pub fn set_qsp(&mut self, value: V3<T>)
        ensures
            *final(self) == V4(value.1, old(self).1, value.2, value.0),
    {
        self.3 = value.0;
        self.0 = value.1;
        self.2 = value.2;
    }

    /// Components 3, 0, 3, in that order.
    pub fn qsq(&self) -> (ret: V3<T>)
        ensures
            ret == V3(self.3, self.0, self.3),
    {
        V3(self.3, self.0, self.3)
    }

    /// Components 3, 1, 0, in that order.
    pub fn qts(&self) -> (ret: V3<T>)
        ensures
            ret == V3(self.3, self.1, self.0),
    {
        V3(self.3, self.1, self.0)
    }

    /// Writes the components of `value` into components 3, 1, 0, in
    /// that order.
    pub fn set_qts(&mut self, value: V3<T>)
        ensures
            *final(self) == V4(value.2, value.1, old(self).2, value.0),
    {
        self.3 = value.0;
        self.1 = value.1;
        self.0 = value.2;
    }

    /// Components 3, 1, 1, in that order.
    pub fn qtt(&self) -> (ret: V3<T>)
        ensures
            ret == V3(self.3, self.1, self.1),
    {
        V3(self.3, self.1, self.1)
    }

    /// Components 3, 1, 2, in that order.
    pub fn qtp(&self) -> (ret: V3<T>)
        ensures
            ret == V3(self.3, self.1, self.2),
    {
        V3(self.3, self.1, self.2)
    }

    /// Writes the components of `value` into components 3, 1, 2, in
    /// that order.
    pub fn set_qtp(&mut self, value: V3<T>)
        ensures
            *final(self) == V4(old(self).0, value.1, value.2, value.0),
    {
        self.3 = value.0;
        self.1 = value.1;
        self.2 = value.2;
    }

    /// Components 3, 1, 3, in that order.
    pub fn qtq(&self) -> (ret: V3<T>)
        ensures
            ret == V3(self.3, self.1, self.3),
    {
        V3(self.3, self.1, self.3)
    }

    /// Components 3, 2, 0, in that order.
    pub fn qps(&self) -> (ret: V3<T>)
        ensures
            ret == V3(self.3, self.2, self.0),
    {
        V3(self.3, self.2, self.0)
    }

    /// Writes the components of `value` into components 3, 2, 0, in
    /// that order.
    pub fn set_qps(&mut self, value: V3<T>)
        ensures
            *final(self) == V4(value.2, old(self).1, value.1, value.0),
    {
        self.3 = value.0;
        self.2 = value.1;
        self.0 = value.2;
    }

    /// Components 3, 2, 1, in that order.
    pub fn qpt(&self) -> (ret: V3<T>)
        ensures
            ret == V3(self.3, self.2, self.1),
    {
        V3(self.3, self.2, self.1)
    }

    /// Writes the components of `value` into components 3, 2, 1, in
    /// that order.
    pub fn set_qpt(&mut self, value: V3<T>)
        ensures
            *final(self) == V4(old(self).0, value.2, value.1, value.0),
    {
        self.3 = value.0;
        self.2 = value.1;
        self.1 = value.2;
    }

    /// Components 3, 2, 2, in that order.
    pub fn qpp(&self) -> (ret: V3<T>)
        ensures
            ret == V3(self.3, self.2, self.2),
    {
        V3(self.3, self.2, self.2)
    }

    /// Components 3, 2, 3, in that order.
    pub fn qpq(&self) -> (ret: V3<T>)
        ensures
            ret == V3(self.3, self.2, self.3),
    {
        V3(self.3, self.2, self.3)
    }

    /// Components 3, 3, 0, in that order.
    pub fn qqs(&self) -> (ret: V3<T>)
        ensures
            ret == V3(self.3, self.3, self.0),
    {
        V3(self.3, self.3, self.0)
    }

    /// Components 3, 3, 1, in that order.
    pub fn qqt(&self) -> (ret: V3<T>)
        ensures
            ret == V3(self.3, self.3, self.1),
    {
        V3(self.3, self.3, self.1)
    }

    /// Components 3, 3, 2, in that order.
    pub fn qqp(&self) -> (ret: V3<T>)
        ensures
            ret == V3(self.3, self.3, self.2),
    {
        V3(self.3, self.3, self.2)
    }

    /// Components 3, 3, 3, in that order.
    pub fn qqq(&self) -> (ret: V3<T>)
        ensures
            ret == V3(self.3, self.3, self.3),
    {
        V3(self.3, self.3, self.3)
    }

    /// Components 0, 0, 0, 0, in that order.
    pub fn ssss(&self) -> (ret: V4<T>)
        ensures
            ret == V4(self.0, self.0, self.0, self.0),
    {
        V4(self.0, self.0, self.0, self.0)
    }

    /// Components 0, 0, 0, 1, in that order.
    pub fn ssst(&self) -> (ret: V4<T>)
        ensures
            ret == V4(self.0, self.0, self.0, self.1),
    {
        V4(self.0, self.0, self.0, self.1)
    }

    /// Components 0, 0, 0, 2, in that order.
    pub fn sssp(&self) -> (ret: V4<T>)
        ensures
            ret == V4(self.0, self.0, self.0, self.2),
    {
        V4(self.0, self.0, self.0, self.2)
    }

    /// Components 0, 0, 0, 3, in that order.
    pub fn sssq(&self) -> (ret: V4<T>)
        ensures
            ret == V4(self.0, self.0, self.0, self.3),
    {
        V4(self.0, self.0, self.0, self.3)
    }

    /// Components 0, 0, 1, 0, in that order.
    pub fn ssts(&self) -> (ret: V4<T>)
        ensures
            ret == V4(self.0, self.0, self.1, self.0),
    {
        V4(self.0, self.0, self.1, self.0)
    }

    /// Components 0, 0, 1, 1, in that order.
    pub fn sstt(&self) -> (ret: V4<T>)
        ensures
            ret == V4(self.0, self.0, self.1, self.1),
    {
        V4(self.0, self.0, self.1, self.1)
    }

    /// Components 0, 0, 1, 2, in that order.
    pub fn sstp(&self) -> (ret: V4<T>)
        ensures
            ret == V4(self.0, self.0, self.1, self.2),
    {
        V4(self.0, self.0, self.1, self.2)
    }

    /// Components 0, 0, 1, 3, in that order.
    pub fn sstq(&self) -> (ret: V4<T>)
        ensures
            ret == V4(self.0, self.0, self.1, self.3),
    {
        V4(self.0, self.0, self.1, self.3)
    }

    /// Components 0, 0, 2, 0, in that order.
    pub fn ssps(&self) -> (ret: V4<T>)
        ensures
            ret == V4(self.0, self.0, self.2, self.0),
    {
        V4(self.0, self.0, self.2, self.0)
    }

    /// Components 0, 0, 2, 1, in that order.
    pub fn sspt(&self) -> (ret: V4<T>)
        ensures
            ret == V4(self.0, self.0, self.2, self.1),
    {
        V4(self.0, self.0, self.2, self.1)
    }

    /// Components 0, 0, 2, 2, in that order.
    pub fn sspp(&self) -> (ret: V4<T>)
        ensures
            ret == V4(self.0, self.0, self.2, self.2),
    {
        V4(self.0, self.0, self.2, self.2)
    }

    /// Components 0, 0, 2, 3, in that order.
    pub fn sspq(&self) -> (ret: V4<T>)
        ensures
            ret == V4(self.0, self.0, self.2, self.3),
    {
        V4(self.0, self.0, self.2, self.3)
    }

    /// Components 0, 0, 3, 0, in that order.
    pub fn ssqs(&self) -> (ret: V4<T>)
        ensures
            ret == V4(self.0, self.0, self.3, self.0),
    {
        V4(self.0, self.0, self.3, self.0)
    }

    /// Components 0, 0, 3, 1, in that order.
    pub fn ssqt(&self) -> (ret: V4<T>)
        ensures
            ret == V4(self.0, self.0, self.3, self.1),
    {
        V4(self.0, self.0, self.3, self.1)
    }

    /// Components 0, 0, 3, 2, in that order.
    pub fn ssqp(&self) -> (ret: V4<T>)
        ensures
            ret == V4(self.0, self.0, self.3, self.2),
    {
        V4(self.0, self.0, self.3, self.2)
    }

    /// Components 0, 0, 3, 3, in that order.
    pub fn ssqq(&self) -> (ret: V4<T>)
        ensures
            ret == V4(self.0, self.0, self.3, self.3),
    {
        V4(self.0, self.0, self.3, self.3)
    }

    /// Components 0, 1, 0, 0, in that order.
    pub fn stss(&self) -> (ret: V4<T>)
        ensures
            ret == V4(self.0, self.1, self.0, self.0),
    {
        V4(self.0, self.1, self.0, self.0)
    }

    /// Components 0, 1, 0, 1, in that order.
    pub fn stst(&self) -> (ret: V4<T>)
        ensures
            ret == V4(self.0, self.1, self.0, self.1),
    {
        V4(self.0, self.1, self.0, self.1)
    }

    /// Components 0, 1, 0, 2, in that order.
    pub fn stsp(&self) -> (ret: V4<T>)
        ensures
            ret == V4(self.0, self.1, self.0, self.2),
    {
        V4(self.0, self.1, self.0, self.2)
    }

    /// Components 0, 1, 0, 3, in that order.
    pub fn stsq(&self) -> (ret: V4<T>)
        ensures
            ret == V4(self.0, self.1, self.0, self.3),
    {
        V4(self.0, self.1, self.0, self.3)
    }

    /// Components 0, 1, 1, 0, in that order.
    pub fn stts(&self) -> (ret: V4<T>)
        ensures
            ret == V4(self.0, self.1, self.1, self.0),
    {
        V4(self.0, self.1, self.1, self.0)
    }

    /// Components 0, 1, 1, 1, in that order.
    pub fn sttt(&self) -> (ret: V4<T>)
        ensures
            ret == V4(self.0, self.1, self.1, self.1),
    {
        V4(self.0, self.1, self.1, self.1)
    }

    /// Components 0, 1, 1, 2, in that order.
    pub fn sttp(&self) -> (ret: V4<T>)
        ensures
            ret == V4(self.0, self.1, self.1, self.2),
    {
        V4(self.0, self.1, self.1, self.2)
    }

    /// Components 0, 1, 1, 3, in that order.
    pub fn sttq(&self) -> (ret: V4<T>)
        ensures
            ret == V4(self.0, self.1, self.1, self.3),
    {
        V4(self.0, self.1, self.1, self.3)
    }

    /// Components 0, 1, 2, 0, in that order.
    pub fn stps(&self) -> (ret: V4<T>)
        ensures
            ret == V4(self.0, self.1, self.2, self.0),
    {
        V4(self.0, self.1, self.2, self.0)
    }

    /// Components 0, 1, 2, 1, in that order.
    pub fn stpt(&self) -> (ret: V4<T>)
        ensures
            ret == V4(self.0, self.1, self.2, self.1),
    {
        V4(self.0, self.1, self.2, self.1)
    }

    /// Components 0, 1, 2, 2, in that order.
    pub fn stpp(&self) -> (ret: V4<T>)
        ensures
            ret == V4(self.0, self.1, self.2, self.2),
    {
        V4(self.0, self.1, self.2, self.2)
    }

    /// Components 0, 1, 2, 3, in that order.
    pub fn stpq(&self) -> (ret: V4<T>)
        ensures
            ret == V4(self.0, self.1, self.2, self.3),
    {
        V4(self.0, self.1, self.2, self.3)
    }

    /// Writes the components of `value` into components 0, 1, 2, 3, in
    /// that order.
    pub fn set_stpq(&mut self, value: V4<T>)
        ensures
            *final(self) == V4(value.0, value.1, value.2, value.3),
    {
        self.0 = value.0;
        self.1 = value.1;
        self.2 = value.2;
        self.3 = value.3;
    }

    /// Components 0, 1, 3, 0, in that order.
    pub fn stqs(&self) -> (ret: V4<T>)
        ensures
            ret == V4(self.0, self.1, self.3, self.0),
    {
        V4(self.0, self.1, self.3, self.0)
    }

    /// Components 0, 1, 3, 1, in that order.
    pub fn stqt(&self) -> (ret: V4<T>)
        ensures
            ret == V4(self.0, self.1, self.3, self.1),
    {
        V4(self.0, self.1, self.3, self.1)
    }

    /// Components 0, 1, 3, 2, in that order.
    pub fn stqp(&self) -> (ret: V4<T>)
        ensures
            ret == V4(self.0, self.1, self.3, self.2),
    {
        V4(self.0, self.1, self.3, self.2)
    }

    /// Writes the components of `value` into components 0, 1, 3, 2, in
    /// that order.
    pub fn set_stqp(&mut self, value: V4<T>)
        ensures
            *final(self) == V4(value.0, value.1, value.3, value.2),
    {
        self.0 = value.0;
        self.1 = value.1;
        self.3 = value.2;
        self.2 = value.3;
    }

    /// Components 0, 1, 3, 3, in that order.
    pub fn stqq(&self) -> (ret: V4<T>)
        ensures
            ret == V4(self.0, self.1, self.3, self.3),
    {
        V4(self.0, self.1, self.3, self.3)
    }

    /// Components 0, 2, 0, 0, in that order.
    pub fn spss(&self) -> (ret: V4<T>)
        ensures
            ret == V4(self.0, self.2, self.0, self.0),
    {
        V4(self.0, self.2, self.0, self.0)
    }

    /// Components 0, 2, 0, 1, in that order.
    pub fn spst(&self) -> (ret: V4<T>)
        ensures
            ret == V4(self.0, self.2, self.0, self.1),
    {
        V4(self.0, self.2, self.0, self.1)
    }

    /// Components 0, 2, 0, 2, in that order.
    pub fn spsp(&self) -> (ret: V4<T>)
        ensures
            ret == V4(self.0, self.2, self.0, self.2),
    {
        V4(self.0, self.2, self.0, self.2)
    }

    /// Components 0, 2, 0, 3, in that order.
    pub fn spsq(&self) -> (ret: V4<T>)
        ensures
            ret == V4(self.0, self.2, self.0, self.3),
    {
        V4(self.0, self.2, self.0, self.3)
    }

    /// Components 0, 2, 1, 0, in that order.
    pub fn spts(&self) -> (ret: V4<T>)
        ensures
            ret == V4(self.0, self.2, self.1, self.0),
    {
        V4(self.0, self.2, self.1, self.0)
    }

    /// Components 0, 2, 1, 1, in that order.
    pub fn sptt(&self) -> (ret: V4<T>)
        ensures
            ret == V4(self.0, self.2, self.1, self.1),
    {
        V4(self.0, self.2, self.1, self.1)
    }

    /// Components 0, 2, 1, 2, in that order.
    pub fn sptp(&self) -> (ret: V4<T>)
        ensures
            ret == V4(self.0, self.2, self.1, self.2),
    {
        V4(self.0, self.2, self.1, self.2)
    }

    /// Components 0, 2, 1, 3, in that order.
    pub fn sptq(&self) -> (ret: V4<T>)
        ensures
            ret == V4(self.0, self.2, self.1, self.3),
    {
        V4(self.0, self.2, self.1, self.3)
    }

    /// Writes the components of `value` into components 0, 2, 1, 3, in
    /// that order.
    pub fn set_sptq(&mut self, value: V4<T>)
        ensures
            *final(self) == V4(value.0, value.2, value.1, value.3),
    {
        self.0 = value.0;
        self.2 = value.1;
        self.1 = value.2;
        self.3 = value.3;
    }

    /// Components 0, 2, 2, 0, in that order.
    pub fn spps(&self) -> (ret: V4<T>)
        ensures
            ret == V4(self.0, self.2, self.2, self.0),
    {
        V4(self.0, self.2, self.2, self.0)
    }

    /// Components 0, 2, 2, 1, in that order.
    pub fn sppt(&self) -> (ret: V4<T>)
        ensures
            ret == V4(self.0, self.2, self.2, self.1),
    {
        V4(self.0, self.2, self.2, self.1)
    }

    /// Components 0, 2, 2, 2, in that order.
    pub fn sppp(&self) -> (ret: V4<T>)
        ensures
            ret == V4(self.0, self.2, self.2, self.2),
    {
        V4(self.0, self.2, self.2, self.2)
    }

    /// Components 0, 2, 2, 3, in that order.
    pub fn sppq(&self) -> (ret: V4<T>)
        ensures
            ret == V4(self.0, self.2, self.2, self.3),
    {
        V4(self.0, self.2, self.2, self.3)
    }

    /// Components 0, 2, 3, 0, in that order.
    pub fn spqs(&self) -> (ret: V4<T>)
        ensures
            ret == V4(self.0, self.2, self.3, self.0),
    {
        V4(self.0, self.2, self.3, self.0)
    }

    /// Components 0, 2, 3, 1, in that order.
    pub fn spqt(&self) -> (ret: V4<T>)
        ensures
            ret == V4(self.0, self.2, self.3, self.1),
    {
        V4(self.0, self.2, self.3, self.1)
    }

    /// Writes the components of `value` into components 0, 2, 3, 1, in
    /// that order.
    pub fn set_spqt(&mut self, value: V4<T>)
        ensures
            *final(self) == V4(value.0, value.3, value.1, value.2),
    {
        self.0 = value.0;
        self.2 = value.1;
        self.3 = value.2;
        self.1 = value.3;
    }

    /// Components 0, 2, 3, 2, in that order.
    pub fn spqp(&self) -> (ret: V4<T>)
        ensures
            ret == V4(self.0, self.2, self.3, self.2),
    {
        V4(self.0, self.2, self.3, self.2)
    }

    /// Components 0, 2, 3, 3, in that order.
    pub fn spqq(&self) -> (ret: V4<T>)
        ensures
            ret == V4(self.0, self.2, self.3, self.3),
    {
        V4(self.0, self.2, self.3, self.3)
    }

    /// Components 0, 3, 0, 0, in that order.
    pub fn sqss(&self) -> (ret: V4<T>)
        ensures
            ret == V4(self.0, self.3, self.0, self.0),
    {
        V4(self.0, self.3, self.0, self.0)
    }

    /// Components 0, 3, 0, 1, in that order.
    pub fn sqst(&self) -> (ret: V4<T>)
        ensures
            ret == V4(self.0, self.3, self.0, self.1),
    {
        V4(self.0, self.3, self.0, self.1)
    }

    /// Components 0, 3, 0, 2, in that order.
    pub fn sqsp(&self) -> (ret: V4<T>)
        ensures
            ret == V4(self.0, self.3, self.0, self.2),
    {
        V4(self.0, self.3, self.0, self.2)
    }

    /// Components 0, 3, 0, 3, in that order.
    pub fn sqsq(&self) -> (ret: V4<T>)
        ensures
            ret == V4(self.0, self.3, self.0, self.3),
    {
        V4(self.0, self.3, self.0, self.3)
    }

    /// Components 0, 3, 1, 0, in that order.
    pub fn sqts(&self) -> (ret: V4<T>)
        ensures
            ret == V4(self.0, self.3, self.1, self.0),
    {
        V4(self.0, self.3, self.1, self.0)
    }

    /// Components 0, 3, 1, 1, in that order.
    pub fn sqtt(&self) -> (ret: V4<T>)
        ensures
            ret == V4(self.0, self.3, self.1, self.1),
    {
        V4(self.0, self.3, self.1, self.1)
    }

    /// Components 0, 3, 1, 2, in that order.
    pub fn sqtp(&self) -> (ret: V4<T>)
        ensures
            ret == V4(self.0, self.3, self.1, self.2),
    {
        V4(self.0, self.3, self.1, self.2)
    }

    /// Writes the components of `value` into components 0, 3, 1, 2, in
    /// that order.
    pub fn set_sqtp(&mut self, value: V4<T>)
        ensures
            *final(self) == V4(value.0, value.2, value.3, value.1),
    {
        self.0 = value.0;
        self.3 = value.1;
        self.1 = value.2;
        self.2 = value.3;
    }

    /// Components 0, 3, 1, 3, in that order.
    pub fn sqtq(&self) -> (ret: V4<T>)
        ensures
            ret == V4(self.0, self.3, self.1, self.3),
    {
        V4(self.0, self.3, self.1, self.3)
    }

    /// Components 0, 3, 2, 0, in that order.
    pub fn sqps(&self) -> (ret: V4<T>)
        ensures
            ret == V4(self.0, self.3, self.2, self.0),
    {
        V4(self.0, self.3, self.2, self.0)
    }

    /// Components 0, 3, 2, 1, in that order.
    pub fn sqpt(&self) -> (ret: V4<T>)
        ensures
            ret == V4(self.0, self.3, self.2, self.1),
    {
        V4(self.0, self.3, self.2, self.1)
    }

    /// Writes the components of `value` into components 0, 3, 2, 1, in
    /// that order.
    pub fn set_sqpt(&mut self, value: V4<T>)
        ensures
            *final(self) == V4(value.0, value.3, value.2, value.1),
    {
        self.0 = value.0;
        self.3 = value.1;
        self.2 = value.2;
        self.1 = value.3;
    }

    /// Components 0, 3, 2, 2, in that order.
    pub fn sqpp(&self) -> (ret: V4<T>)
        ensures
            ret == V4(self.0, self.3, self.2, self.2),
    {
        V4(self.0, self.3, self.2, self.2)
    }

    /// Components 0, 3, 2, 3, in that order.
    pub fn sqpq(&self) -> (ret: V4<T>)
        ensures
            ret == V4(self.0, self.3, self.2, self.3),
    {
        V4(self.0, self.3, self.2, self.3)
    }

    /// Components 0, 3, 3, 0, in that order.
    pub fn sqqs(&self) -> (ret: V4<T>)
        ensures
            ret == V4(self.0, self.3, self.3, self.0),
    {
        V4(self.0, self.3, self.3, self.0)
    }

    /// Components 0, 3, 3, 1, in that order.
    pub fn sqqt(&self) -> (ret: V4<T>)
        ensures
            ret == V4(self.0, self.3, self.3, self.1),
    {
        V4(self.0, self.3, self.3, self.1)
    }

    /// Components 0, 3, 3, 2, in that order.
    pub fn sqqp(&self) -> (ret: V4<T>)
        ensures
            ret == V4(self.0, self.3, self.3, self.2),
    {
        V4(self.0, self.3, self.3, self.2)
    }

    /// Components 0, 3, 3, 3, in that order.
    pub fn sqqq(&self) -> (ret: V4<T>)
        ensures
            ret == V4(self.0, self.3, self.3, self.3),
    {
        V4(self.0, self.3, self.3, self.3)
    }

    /// Components 1, 0, 0, 0, in that order.
    pub fn tsss(&self) -> (ret: V4<T>)
        ensures
            ret == V4(self.1, self.0, self.0, self.0),
    {
        V4(self.1, self.0, self.0, self.0)
    }

    /// Components 1, 0, 0, 1, in that order.
    pub fn tsst(&self) -> (ret: V4<T>)
        ensures
            ret == V4(self.1, self.0, self.0, self.1),
    {
        V4(self.1, self.0, self.0, self.1)
    }

    /// Components 1, 0, 0, 2, in that order.
    pub fn tssp(&self) -> (ret: V4<T>)
        ensures
            ret == V4(self.1, self.0, self.0, self.2),
    {
        V4(self.1, self.0, self.0, self.2)
    }

    /// Components 1, 0, 0, 3, in that order.
    pub fn tssq(&self) -> (ret: V4<T>)
        ensures
            ret == V4(self.1, self.0, self.0, self.3),
    {
        V4(self.1, self.0, self.0, self.3)
    }

    /// Components 1, 0, 1, 0, in that order.
    pub fn tsts(&self) -> (ret: V4<T>)
        ensures
            ret == V4(self.1, self.0, self.1, self.0),
    {
        V4(self.1, self.0, self.1, self.0)
    }

    /// Components 1, 0, 1, 1, in that order.
    pub fn tstt(&self) -> (ret: V4<T>)
        ensures
            ret == V4(self.1, self.0, self.1, self.1),
    {
        V4(self.1, self.0, self.1, self.1)
    }

    /// Components 1, 0, 1, 2, in that order.
    pub fn tstp(&self) -> (ret: V4<T>)
        ensures
            ret == V4(self.1, self.0, self.1, self.2),
    {
        V4(self.1, self.0, self.1, self.2)
    }

    /// Components 1, 0, 1, 3, in that order.
    pub fn tstq(&self) -> (ret: V4<T>)
        ensures
            ret == V4(self.1, self.0, self.1, self.3),
    {
        V4(self.1, self.0, self.1, self.3)
    }

    /// Components 1, 0, 2, 0, in that order.
    pub fn tsps(&self) -> (ret: V4<T>)
        ensures
            ret == V4(self.1, self.0, self.2, self.0),
    {
        V4(self.1, self.0, self.2, self.0)
    }

    /// Components 1, 0, 2, 1, in that order.
    pub fn tspt(&self) -> (ret: V4<T>)
        ensures
            ret == V4(self.1, self.0, self.2, self.1),
    {
        V4(self.1, self.0, self.2, self.1)
    }

    /// Components 1, 0, 2, 2, in that order.
    pub fn tspp(&self) -> (ret: V4<T>)
        ensures
            ret == V4(self.1, self.0, self.2, self.2),
    {
        V4(self.1, self.0, self.2, self.2)
    }

    /// Components 1, 0, 2, 3, in that order.
    pub fn tspq(&self) -> (ret: V4<T>)
        ensures
            ret == V4(self.1, self.0, self.2, self.3),
    {
        V4(self.1, self.0, self.2, self.3)
    }

    /// Writes the components of `value` into components 1, 0, 2, 3, in
    /// that order.
    pub fn set_tspq(&mut self, value: V4<T>)
        ensures
            *final(self) == V4(value.1, value.0, value.2, value.3),
    {
        self.1 = value.0;
        self.0 = value.1;
        self.2 = value.2;
        self.3 = value.3;
    }

    /// Components 1, 0, 3, 0, in that order.
    pub fn tsqs(&self) -> (ret: V4<T>)
        ensures
            ret == V4(self.1, self.0, self.3, self.0),
    {
        V4(self.1, self.0, self.3, self.0)
    }

    /// Components 1, 0, 3, 1, in that order.
    pub fn tsqt(&self) -> (ret: V4<T>)
        ensures
            ret == V4(self.1, self.0, self.3, self.1),
    {
        V4(self.1, self.0, self.3, self.1)
    }

    /// Components 1, 0, 3, 2, in that order.
    pub fn tsqp(&self) -> (ret: V4<T>)
        ensures
            ret == V4(self.1, self.0, self.3, self.2),
    {
        V4(self.1, self.0, self.3, self.2)
    }

    /// Writes the components of `value` into components 1, 0, 3, 2, in
    /// that order.
    pub fn set_tsqp(&mut self, value: V4<T>)
        ensures
            *final(self) == V4(value.1, value.0, value.3, value.2),
    {
        self.1 = value.0;
        self.0 = value.1;
        self.3 = value.2;
        self.2 = value.3;
    }

    /// Components 1, 0, 3, 3, in that order.
    pub fn tsqq(&self) -> (ret: V4<T>)
        ensures
            ret == V4(self.1, self.0, self.3, self.3),
    {
        V4(self.1, self.0, self.3, self.3)
    }

    /// Components 1, 1, 0, 0, in that order.
    pub fn ttss(&self) -> (ret: V4<T>)
        ensures
            ret == V4(self.1, self.1, self.0, self.0),
    {
        V4(self.1, self.1, self.0, self.0)
    }

    /// Components 1, 1, 0, 1, in that order.
    pub fn ttst(&self) -> (ret: V4<T>)
        ensures
            ret == V4(self.1, self.1, self.0, self.1),
    {
        V4(self.1, self.1, self.0, self.1)
    }

    /// Components 1, 1, 0, 2, in that order.
    pub fn ttsp(&self) -> (ret: V4<T>)
        ensures
            ret == V4(self.1, self.1, self.0, self.2),
    {
        V4(self.1, self.1, self.0, self.2)
    }

    /// Components 1, 1, 0, 3, in that order.
    pub fn ttsq(&self) -> (ret: V4<T>)
        ensures
            ret == V4(self.1, self.1, self.0, self.3),
    {
        V4(self.1, self.1, self.0, self.3)
    }

    /// Components 1, 1, 1, 0, in that order.
    pub fn ttts(&self) -> (ret: V4<T>)
        ensures
            ret == V4(self.1, self.1, self.1, self.0),
    {
        V4(self.1, self.1, self.1, self.0)
    }

    /// Components 1, 1, 1, 1, in that order.
    pub fn tttt(&self) -> (ret: V4<T>)
        ensures
            ret == V4(self.1, self.1, self.1, self.1),
    {
        V4(self.1, self.1, self.1, self.1)
    }

    /// Components 1, 1, 1, 2, in that order.
    pub fn tttp(&self) -> (ret: V4<T>)
        ensures
            ret == V4(self.1, self.1, self.1, self.2),
    {
        V4(self.1, self.1, self.1, self.2)
    }

    /// Components 1, 1, 1, 3, in that order.
    pub fn tttq(&self) -> (ret: V4<T>)
        ensures
            ret == V4(self.1, self.1, self.1, self.3),
    {
        V4(self.1, self.1, self.1, self.3)
    }

    /// Components 1, 1, 2, 0, in that order.
    pub fn ttps(&self) -> (ret: V4<T>)
        ensures
            ret == V4(self.1, self.1, self.2, self.0),
    {
        V4(self.1, self.1, self.2, self.0)
    }

    /// Components 1, 1, 2, 1, in that order.
    pub fn ttpt(&self) -> (ret: V4<T>)
        ensures
            ret == V4(self.1, self.1, self.2, self.1),
    {
        V4(self.1, self.1, self.2, self.1)
    }

    /// Components 1, 1, 2, 2, in that order.
    pub fn ttpp(&self) -> (ret: V4<T>)
        ensures
            ret == V4(self.1, self.1, self.2, self.2),
    {
        V4(self.1, self.1, self.2, self.2)
    }

    /// Components 1, 1, 2, 3, in that order.
    pub fn ttpq(&self) -> (ret: V4<T>)
        ensures
            ret == V4(self.1, self.1, self.2, self.3),
    {
        V4(self.1, self.1, self.2, self.3)
    }

    /// Components 1, 1, 3, 0, in that order.
    pub fn ttqs(&self) -> (ret: V4<T>)
        ensures
            ret == V4(self.1, self.1, self.3, self.0),
    {
        V4(self.1, self.1, self.3, self.0)
    }

    /// Components 1, 1, 3, 1, in that order.
    pub fn ttqt(&self) -> (ret: V4<T>)
        ensures
            ret == V4(self.1, self.1, self.3, self.1),
    {
        V4(self.1, self.1, self.3, self.1)
    }

    /// Components 1, 1, 3, 2, in that order.
    pub fn ttqp(&self) -> (ret: V4<T>)
        ensures
            ret == V4(self.1, self.1, self.3, self.2),
    {
        V4(self.1, self.1, self.3, self.2)
    }

    /// Components 1, 1, 3, 3, in that order.
    pub fn ttqq(&self) -> (ret: V4<T>)
        ensures
            ret == V4(self.1, self.1, self.3, self.3),
    {
        V4(self.1, self.1, self.3, self.3)
    }

    /// Components 1, 2, 0, 0, in that order.
    pub fn tpss(&self) -> (ret: V4<T>)
        ensures
            ret == V4(self.1, self.2, self.0, self.0),
    {
        V4(self.1, self.2, self.0, self.0)
    }

    /// Components 1, 2, 0, 1, in that order.
    pub fn tpst(&self) -> (ret: V4<T>)
        ensures
            ret == V4(self.1, self.2, self.0, self.1),
    {
        V4(self.1, self.2, self.0, self.1)
    }

    /// Components 1, 2, 0, 2, in that order.
    pub fn tpsp(&self) -> (ret: V4<T>)
        ensures
            ret == V4(self.1, self.2, self.0, self.2),
    {
        V4(self.1, self.2, self.0, self.2)
    }

    /// Components 1, 2, 0, 3, in that order.
    pub fn tpsq(&self) -> (ret: V4<T>)
        ensures
            ret == V4(self.1, self.2, self.0, self.3),
    {
        V4(self.1, self.2, self.0, self.3)
    }

    /// Writes the components of `value` into components 1, 2, 0, 3, in
    /// that order.
    pub fn set_tpsq(&mut self, value: V4<T>)
        ensures
            *final(self) == V4(value.2, value.0, value.1, value.3),
    {
        self.1 = value.0;
        self.2 = value.1;
        self.0 = value.2;
        self.3 = value.3;
    }

    /// Components 1, 2, 1, 0, in that order.
    pub fn tpts(&self) -> (ret: V4<T>)
        ensures
            ret == V4(self.1, self.2, self.1, self.0),
    {
        V4(self.1, self.2, self.1, self.0)
    }

    /// Components 1, 2, 1, 1, in that order.
    pub fn tptt(&self) -> (ret: V4<T>)
        ensures
            ret == V4(self.1, self.2, self.1, self.1),
    {
        V4(self.1, self.2, self.1, self.1)
    }

    /// Components 1, 2, 1, 2, in that order.
    pub fn tptp(&self) -> (ret: V4<T>)
        ensures
            ret == V4(self.1, self.2, self.1, self.2),
    {
        V4(self.1, self.2, self.1, self.2)
    }

    /// Components 1, 2, 1, 3, in that order.
    pub fn tptq(&self) -> (ret: V4<T>)
        ensures
            ret == V4(self.1, self.2, self.1, self.3),
    {
        V4(self.1, self.2, self.1, self.3)
    }

    /// Components 1, 2, 2, 0, in that order.
    pub fn tpps(&self) -> (ret: V4<T>)
        ensures
            ret == V4(self.1, self.2, self.2, self.0),
    {
        V4(self.1, self.2, self.2, self.0)
    }

    /// Components 1, 2, 2, 1, in that order.
    pub fn tppt(&self) -> (ret: V4<T>)
        ensures
            ret == V4(self.1, self.2, self.2, self.1),
    {
        V4(self.1, self.2, self.2, self.1)
    }

    /// Components 1, 2, 2, 2, in that order.
    pub fn tppp(&self) -> (ret: V4<T>)
        ensures
            ret == V4(self.1, self.2, self.2, self.2),
    {
        V4(self.1, self.2, self.2, self.2)
    }

    /// Components 1, 2, 2, 3, in that order.
    pub fn tppq(&self) -> (ret: V4<T>)
        ensures
            ret == V4(self.1, self.2, self.2, self.3),
    {
        V4(self.1, self.2, self.2, self.3)
    }

    /// Components 1, 2, 3, 0, in that order.
    pub fn tpqs(&self) -> (ret: V4<T>)
        ensures
            ret == V4(self.1, self.2, self.3, self.0),
    {
        V4(self.1, self.2, self.3, self.0)
    }

    /// Writes the components of `value` into components 1, 2, 3, 0, in
    /// that order.
    pub fn set_tpqs(&mut self, value: V4<T>)
        ensures
            *final(self) == V4(value.3, value.0, value.1, value.2),
    {
        self.1 = value.0;
        self.2 = value.1;
        self.3 = value.2;
        self.0 = value.3;
    }

    /// Components 1, 2, 3, 1, in that order.
    pub fn tpqt(&self) -> (ret: V4<T>)
        ensures
            ret == V4(self.1, self.2, self.3, self.1),
    {
        V4(self.1, self.2, self.3, self.1)
    }

    /// Components 1, 2, 3, 2, in that order.
    pub fn tpqp(&self) -> (ret: V4<T>)
        ensures
            ret == V4(self.1, self.2, self.3, self.2),
    {
        V4(self.1, self.2, self.3, self.2)
    }

    /// Components 1, 2, 3, 3, in that order.
    pub fn tpqq(&self) -> (ret: V4<T>)
        ensures
            ret == V4(self.1, self.2, self.3, self.3),
    {
        V4(self.1, self.2, self.3, self.3)
    }

    /// Components 1, 3, 0, 0, in that order.
    pub fn tqss(&self) -> (ret: V4<T>)
        ensures
            ret == V4(self.1, self.3, self.0, self.0),
    {
        V4(self.1, self.3, self.0, self.0)
    }

    /// Components 1, 3, 0, 1, in that order.
    pub fn tqst(&self) -> (ret: V4<T>)
        ensures
            ret == V4(self.1, self.3, self.0, self.1),
    {
        V4(self.1, self.3, self.0, self.1)
    }

    /// Components 1, 3, 0, 2, in that order.
    pub fn tqsp(&self) -> (ret: V4<T>)
        ensures
            ret == V4(self.1, self.3, self.0, self.2),
    {
        V4(self.1, self.3, self.0, self.2)
    }

    /// Writes the components of `value` into components 1, 3, 0, 2, in
    /// that order.
    pub fn set_tqsp(&mut self, value: V4<T>)
        ensures
            *final(self) == V4(value.2, value.0, value.3, value.1),
    {
        self.1 = value.0;
        self.3 = value.1;
        self.0 = value.2;
        self.2 = value.3;
    }

    /// Components 1, 3, 0, 3, in that order.
    pub fn tqsq(&self) -> (ret: V4<T>)
        ensures
            ret == V4(self.1, self.3, self.0, self.3),
    {
        V4(self.1, self.3, self.0, self.3)
    }

    /// Components 1, 3, 1, 0, in that order.
    pub fn tqts(&self) -> (ret: V4<T>)
        ensures
            ret == V4(self.1, self.3, self.1, self.0),
    {
        V4(self.1, self.3, self.1, self.0)
    }

    /// Components 1, 3, 1, 1, in that order.
    pub fn tqtt(&self) -> (ret: V4<T>)
        ensures
            ret == V4(self.1, self.3, self.1, self.1),
    {
        V4(self.1, self.3, self.1, self.1)
    }

    /// Components 1, 3, 1, 2, in that order.
    pub fn tqtp(&self) -> (ret: V4<T>)
        ensures
            ret == V4(self.1, self.3, self.1, self.2),
    {
        V4(self.1, self.3, self.1, self.2)
    }

    /// Components 1, 3, 1, 3, in that order.
    pub fn tqtq(&self) -> (ret: V4<T>)
        ensures
            ret == V4(self.1, self.3, self.1, self.3),
    {
        V4(self.1, self.3, self.1, self.3)
    }

    /// Components 1, 3, 2, 0, in that order.
    pub fn tqps(&self) -> (ret: V4<T>)
        ensures
            ret == V4(self.1, self.3, self.2, self.0),
    {
        V4(self.1, self.3, self.2, self.0)
    }

    /// Writes the components of `value` into components 1, 3, 2, 0, in
    /// that order.
    pub fn set_tqps(&mut self, value: V4<T>)
        ensures
            *final(self) == V4(value.3, value.0, value.2, value.1),
    {
        self.1 = value.0;
        self.3 = value.1;
        self.2 = value.2;
        self.0 = value.3;
    }

    /// Components 1, 3, 2, 1, in that order.
    pub fn tqpt(&self) -> (ret: V4<T>)
        ensures
            ret == V4(self.1, self.3, self.2, self.1),
    {
        V4(self.1, self.3, self.2, self.1)
    }

    /// Components 1, 3, 2, 2, in that order.
    pub fn tqpp(&self) -> (ret: V4<T>)
        ensures
            ret == V4(self.1, self.3, self.2, self.2),
    {
        V4(self.1, self.3, self.2, self.2)
    }

    /// Components 1, 3, 2, 3, in that order.
    pub fn tqpq(&self) -> (ret: V4<T>)
        ensures
            ret == V4(self.1, self.3, self.2, self.3),
    {
        V4(self.1, self.3, self.2, self.3)
    }

    /// Components 1, 3, 3, 0, in that order.
    pub fn tqqs(&self) -> (ret: V4<T>)
        ensures
            ret == V4(self.1, self.3, self.3, self.0),
    {
        V4(self.1, self.3, self.3, self.0)
    }

    /// Components 1, 3, 3, 1, in that order.
    pub fn tqqt(&self) -> (ret: V4<T>)
        ensures
            ret == V4(self.1, self.3, self.3, self.1),
    {
        V4(self.1, self.3, self.3, self.1)
    }

    /// Components 1, 3, 3, 2, in that order.
    pub fn tqqp(&self) -> (ret: V4<T>)
        ensures
            ret == V4(self.1, self.3, self.3, self.2),
    {
        V4(self.1, self.3, self.3, self.2)
    }

    /// Components 1, 3, 3, 3, in that order.
    pub fn tqqq(&self) -> (ret: V4<T>)
        ensures
            ret == V4(self.1, self.3, self.3, self.3),
    {
        V4(self.1, self.3, self.3, self.3)
    }

    /// Components 2, 0, 0, 0, in that order.
    pub fn psss(&self) -> (ret: V4<T>)
        ensures
            ret == V4(self.2, self.0, self.0, self.0),
    {
        V4(self.2, self.0, self.0, self.0)
    }

    /// Components 2, 0, 0, 1, in that order.
    pub fn psst(&self) -> (ret: V4<T>)
        ensures
            ret == V4(self.2, self.0, self.0, self.1),
    {
        V4(self.2, self.0, self.0, self.1)
    }

    /// Components 2, 0, 0, 2, in that order.
    pub fn pssp(&self) -> (ret: V4<T>)
        ensures
            ret == V4(self.2, self.0, self.0, self.2),
    {
        V4(self.2, self.0, self.0, self.2)
    }

    /// Components 2, 0, 0, 3, in that order.
    pub fn pssq(&self) -> (ret: V4<T>)
        ensures
            ret == V4(self.2, self.0, self.0, self.3),
    {
        V4(self.2, self.0, self.0, self.3)
    }

    /// Components 2, 0, 1, 0, in that order.
    pub fn psts(&self) -> (ret: V4<T>)
        ensures
            ret == V4(self.2, self.0, self.1, self.0),
    {
        V4(self.2, self.0, self.1, self.0)
    }

    /// Components 2, 0, 1, 1, in that order.
    pub fn pstt(&self) -> (ret: V4<T>)
        ensures
            ret == V4(self.2, self.0, self.1, self.1),
    {
        V4(self.2, self.0, self.1, self.1)
    }

    /// Components 2, 0, 1, 2, in that order.
    pub fn pstp(&self) -> (ret: V4<T>)
        ensures
            ret == V4(self.2, self.0, self.1, self.2),
    {
        V4(self.2, self.0, self.1, self.2)
    }

    /// Components 2, 0, 1, 3, in that order.
    pub fn pstq(&self) -> (ret: V4<T>)
        ensures
            ret == V4(self.2, self.0, self.1, self.3),
    {
        V4(self.2, self.0, self.1, self.3)
    }

    /// Writes the components of `value` into components 2, 0, 1, 3, in
    /// that order.
    pub fn set_pstq(&mut self, value: V4<T>)
        ensures
            *final(self) == V4(value.1, value.2, value.0, value.3),
    {
        self.2 = value.0;
        self.0 = value.1;
        self.1 = value.2;
        self.3 = value.3;
    }

    /// Components 2, 0, 2, 0, in that order.
    pub fn psps(&self) -> (ret: V4<T>)
        ensures
            ret == V4(self.2, self.0, self.2, self.0),
    {
        V4(self.2, self.0, self.2, self.0)
    }

    /// Components 2, 0, 2, 1, in that order.
    pub fn pspt(&self) -> (ret: V4<T>)
        ensures
            ret == V4(self.2, self.0, self.2, self.1),
    {
        V4(self.2, self.0, self.2, self.1)
    }

    /// Components 2, 0, 2, 2, in that order.
    pub fn pspp(&self) -> (ret: V4<T>)
        ensures
            ret == V4(self.2, self.0, self.2, self.2),
    {
        V4(self.2, self.0, self.2, self.2)
    }

    /// Components 2, 0, 2, 3, in that order.
    pub fn pspq(&self) -> (ret: V4<T>)
        ensures
            ret == V4(self.2, self.0, self.2, self.3),
    {
        V4(self.2, self.0, self.2, self.3)
    }

    /// Components 2, 0, 3, 0, in that order.
    pub fn psqs(&self) -> (ret: V4<T>)
        ensures
            ret == V4(self.2, self.0, self.3, self.0),
    {
        V4(self.2, self.0, self.3, self.0)
    }

    /// Components 2, 0, 3, 1, in that order.
    pub fn psqt(&self) -> (ret: V4<T>)
        ensures
            ret == V4(self.2, self.0, self.3, self.1),
    {
        V4(self.2, self.0, self.3, self.1)
    }

    /// Writes the components of `value` into components 2, 0, 3, 1, in
    /// that order.
    pub fn set_psqt(&mut self, value: V4<T>)
        ensures
            *final(self) == V4(value.1, value.3, value.0, value.2),
    {
        self.2 = value.0;
        self.0 = value.1;
        self.3 = value.2;
        self.1 = value.3;
    }

    /// Components 2, 0, 3, 2, in that order.
    pub fn psqp(&self) -> (ret: V4<T>)
        ensures
            ret == V4(self.2, self.0, self.3, self.2),
    {
        V4(self.2, self.0, self.3, self.2)
    }

    /// Components 2, 0, 3, 3, in that order.
    pub fn psqq(&self) -> (ret: V4<T>)
        ensures
            ret == V4(self.2, self.0, self.3, self.3),
    {
        V4(self.2, self.0, self.3, self.3)
    }

    /// Components 2, 1, 0, 0, in that order.
    pub fn ptss(&self) -> (ret: V4<T>)
        ensures
            ret == V4(self.2, self.1, self.0, self.0),
    {
        V4(self.2, self.1, self.0, self.0)
    }

    /// Components 2, 1, 0, 1, in that order.
    pub fn ptst(&self) -> (ret: V4<T>)
        ensures
            ret == V4(self.2, self.1, self.0, self.1),
    {
        V4(self.2, self.1, self.0, self.1)
    }

    /// Components 2, 1, 0, 2, in that order.
    pub fn ptsp(&self) -> (ret: V4<T>)
        ensures
            ret == V4(self.2, self.1, self.0, self.2),
    {
        V4(self.2, self.1, self.0, self.2)
    }

    /// Components 2, 1, 0, 3, in that order.
    pub fn ptsq(&self) -> (ret: V4<T>)
        ensures
            ret == V4(self.2, self.1, self.0, self.3),
    {
        V4(self.2, self.1, self.0, self.3)
    }

    /// Writes the components of `value` into components 2, 1, 0, 3, in
    /// that order.
    pub fn set_ptsq(&mut self, value: V4<T>)
        ensures
            *final(self) == V4(value.2, value.1, value.0, value.3),
    {
        self.2 = value.0;
        self.1 = value.1;
        self.0 = value.2;
        self.3 = value.3;
    }

    /// Components 2, 1, 1, 0, in that order.
    pub fn ptts(&self) -> (ret: V4<T>)
        ensures
            ret == V4(self.2, self.1, self.1, self.0),
    {
        V4(self.2, self.1, self.1, self.0)
    }

    /// Components 2, 1, 1, 1, in that order.
    pub fn pttt(&self) -> (ret: V4<T>)
        ensures
            ret == V4(self.2, self.1, self.1, self.1),
    {
        V4(self.2, self.1, self.1, self.1)
    }

    /// Components 2, 1, 1, 2, in that order.
    pub fn pttp(&self) -> (ret: V4<T>)
        ensures
            ret == V4(self.2, self.1, self.1, self.2),
    {
        V4(self.2, self.1, self.1, self.2)
    }

    /// Components 2, 1, 1, 3, in that order.
    pub fn pttq(&self) -> (ret: V4<T>)
        ensures
            ret == V4(self.2, self.1, self.1, self.3),
    {
        V4(self.2, self.1, self.1, self.3)
    }

    /// Components 2, 1, 2, 0, in that order.
    pub fn ptps(&self) -> (ret: V4<T>)
        ensures
            ret == V4(self.2, self.1, self.2, self.0),
    {
        V4(self.2, self.1, self.2, self.0)
    }

    /// Components 2, 1, 2, 1, in that order.
    pub fn ptpt(&self) -> (ret: V4<T>)
        ensures
            ret == V4(self.2, self.1, self.2, self.1),
    {
        V4(self.2, self.1, self.2, self.1)
    }

    /// Components 2, 1, 2, 2, in that order.
    pub fn ptpp(&self) -> (ret: V4<T>)
        ensures
            ret == V4(self.2, self.1, self.2, self.2),
    {
        V4(self.2, self.1, self.2, self.2)
    }

    /// Components 2, 1, 2, 3, in that order.
    pub fn ptpq(&self) -> (ret: V4<T>)
        ensures
            ret == V4(self.2, self.1, self.2, self.3),
    {
        V4(self.2, self.1, self.2, self.3)
    }

    /// Components 2, 1, 3, 0, in that order.
    pub fn ptqs(&self) -> (ret: V4<T>)
        ensures
            ret == V4(self.2, self.1, self.3, self.0),
    {
        V4(self.2, self.1, self.3, self.0)
    }

    /// Writes the components of `value` into components 2, 1, 3, 0, in
    /// that order.
    pub fn set_ptqs(&mut self, value: V4<T>)
        ensures
            *final(self) == V4(value.3, value.1, value.0, value.2),
    {
        self.2 = value.0;
        self.1 = value.1;
        self.3 = value.2;
        self.0 = value.3;
    }

    /// Components 2, 1, 3, 1, in that order.
    pub fn ptqt(&self) -> (ret: V4<T>)
        ensures
            ret == V4(self.2, self.1, self.3, self.1),
    {
        V4(self.2, self.1, self.3, self.1)
    }

    /// Components 2, 1, 3, 2, in that order.
    pub fn ptqp(&self) -> (ret: V4<T>)
        ensures
            ret == V4(self.2, self.1, self.3, self.2),
    {
        V4(self.2, self.1, self.3, self.2)
    }

    /// Components 2, 1, 3, 3, in that order.
    pub fn ptqq(&self) -> (ret: V4<T>)
        ensures
            ret == V4(self.2, self.1, self.3, self.3),
    {
        V4(self.2, self.1, self.3, self.3)
    }

    /// Components 2, 2, 0, 0, in that order.
    pub fn ppss(&self) -> (ret: V4<T>)
        ensures
            ret == V4(self.2, self.2, self.0, self.0),
    {
        V4(self.2, self.2, self.0, self.0)
    }

    /// Components 2, 2, 0, 1, in that order.
    pub fn ppst(&self) -> (ret: V4<T>)
        ensures
            ret == V4(self.2, self.2, self.0, self.1),
    {
        V4(self.2, self.2, self.0, self.1)
    }

    /// Components 2, 2, 0, 2, in that order.
    pub fn ppsp(&self) -> (ret: V4<T>)
        ensures
            ret == V4(self.2, self.2, self.0, self.2),
    {
        V4(self.2, self.2, self.0, self.2)
    }

    /// Components 2, 2, 0, 3, in that order.
    pub fn ppsq(&self) -> (ret: V4<T>)
        ensures
            ret == V4(self.2, self.2, self.0, self.3),
    {
        V4(self.2, self.2, self.0, self.3)
    }

    /// Components 2, 2, 1, 0, in that order.
    pub fn ppts(&self) -> (ret: V4<T>)
        ensures
            ret == V4(self.2, self.2, self.1, self.0),
    {
        V4(self.2, self.2, self.1, self.0)
    }

    /// Components 2, 2, 1, 1, in that order.
    pub fn pptt(&self) -> (ret: V4<T>)
        ensures
            ret == V4(self.2, self.2, self.1, self.1),
    {
        V4(self.2, self.2, self.1, self.1)
    }

    /// Components 2, 2, 1, 2, in that order.
    pub fn pptp(&self) -> (ret: V4<T>)
        ensures
            ret == V4(self.2, self.2, self.1, self.2),
    {
        V4(self.2, self.2, self.1, self.2)
    }

    /// Components 2, 2, 1, 3, in that order.
    pub fn pptq(&self) -> (ret: V4<T>)
        ensures
            ret == V4(self.2, self.2, self.1, self.3),
    {
        V4(self.2, self.2, self.1, self.3)
    }

    /// Components 2, 2, 2, 0, in that order.
    pub fn ppps(&self) -> (ret: V4<T>)
        ensures
            ret == V4(self.2, self.2, self.2, self.0),
    {
        V4(self.2, self.2, self.2, self.0)
    }

    /// Components 2, 2, 2, 1, in that order.
    pub fn pppt(&self) -> (ret: V4<T>)
        ensures
            ret == V4(self.2, self.2, self.2, self.1),
    {
        V4(self.2, self.2, self.2, self.1)
    }

    /// Components 2, 2, 2, 2, in that order.
    pub fn pppp(&self) -> (ret: V4<T>)
        ensures
            ret == V4(self.2, self.2, self.2, self.2),
    {
        V4(self.2, self.2, self.2, self.2)
    }

    /// Components 2, 2, 2, 3, in that order.
    pub fn pppq(&self) -> (ret: V4<T>)
        ensures
            ret == V4(self.2, self.2, self.2, self.3),
    {
        V4(self.2, self.2, self.2, self.3)
    }

    /// Components 2, 2, 3, 0, in that order.
    pub fn ppqs(&self) -> (ret: V4<T>)
        ensures
            ret == V4(self.2, self.2, self.3, self.0),
    {
        V4(self.2, self.2, self.3, self.0)
    }

    /// Components 2, 2, 3, 1, in that order.
    pub fn ppqt(&self) -> (ret: V4<T>)
        ensures
            ret == V4(self.2, self.2, self.3, self.1),
    {
        V4(self.2, self.2, self.3, self.1)
    }

    /// Components 2, 2, 3, 2, in that order.
    pub fn ppqp(&self) -> (ret: V4<T>)
        ensures
            ret == V4(self.2, self.2, self.3, self.2),
    {
        V4(self.2, self.2, self.3, self.2)
    }

    /// Components 2, 2, 3, 3, in that order.
    pub fn ppqq(&self) -> (ret: V4<T>)
        ensures
            ret == V4(self.2, self.2, self.3, self.3),
    {
        V4(self.2, self.2, self.3, self.3)
    }

    /// Components 2, 3, 0, 0, in that order.
    pub fn pqss(&self) -> (ret: V4<T>)
        ensures
            ret == V4(self.2, self.3, self.0, self.0),
    {
        V4(self.2, self.3, self.0, self.0)
    }

    /// Components 2, 3, 0, 1, in that order.
    pub fn pqst(&self) -> (ret: V4<T>)
        ensures
            ret == V4(self.2, self.3, self.0, self.1),
    {
        V4(self.2, self.3, self.0, self.1)
    }

    /// Writes the components of `value` into components 2, 3, 0, 1, in
    /// that order.
    pub fn set_pqst(&mut self, value: V4<T>)
        ensures
            *final(self) == V4(value.2, value.3, value.0, value.1),
    {
        self.2 = value.0;
        self.3 = value.1;
        self.0 = value.2;
        self.1 = value.3;
    }

    /// Components 2, 3, 0, 2, in that order.
    pub fn pqsp(&self) -> (ret: V4<T>)
        ensures
            ret == V4(self.2, self.3, self.0, self.2),
    {
        V4(self.2, self.3, self.0, self.2)
    }

    /// Components 2, 3, 0, 3, in that order.
    pub fn pqsq(&self) -> (ret: V4<T>)
        ensures
            ret == V4(self.2, self.3, self.0, self.3),
    {
        V4(self.2, self.3, self.0, self.3)
    }

    /// Components 2, 3, 1, 0, in that order.
    pub fn pqts(&self) -> (ret: V4<T>)
        ensures
            ret == V4(self.2, self.3, self.1, self.0),
    {
        V4(self.2, self.3, self.1, self.0)
    }

    /// Writes the components of `value` into components 2, 3, 1, 0, in
    /// that order.
    pub fn set_pqts(&mut self, value: V4<T>)
        ensures
            *final(self) == V4(value.3, value.2, value.0, value.1),
    {
        self.2 = value.0;
        self.3 = value.1;
        self.1 = value.2;
        self.0 = value.3;
    }

    /// Components 2, 3, 1, 1, in that order.
    pub fn pqtt(&self) -> (ret: V4<T>)
        ensures
            ret == V4(self.2, self.3, self.1, self.1),
    {
        V4(self.2, self.3, self.1, self.1)
    }

    /// Components 2, 3, 1, 2, in that order.
    pub fn pqtp(&self) -> (ret: V4<T>)
        ensures
            ret == V4(self.2, self.3, self.1, self.2),
    {
        V4(self.2, self.3, self.1, self.2)
    }

    /// Components 2, 3, 1, 3, in that order.
    pub fn pqtq(&self) -> (ret: V4<T>)
        ensures
            ret == V4(self.2, self.3, self.1, self.3),
    {
        V4(self.2, self.3, self.1, self.3)
    }

    /// Components 2, 3, 2, 0, in that order.
    pub fn pqps(&self) -> (ret: V4<T>)
        ensures
            ret == V4(self.2, self.3, self.2, self.0),
    {
        V4(self.2, self.3, self.2, self.0)
    }

    /// Components 2, 3, 2, 1, in that order.
    pub fn pqpt(&self) -> (ret: V4<T>)
        ensures
            ret == V4(self.2, self.3, self.2, self.1),
    {
        V4(self.2, self.3, self.2, self.1)
    }

    /// Components 2, 3, 2, 2, in that order.
    pub fn pqpp(&self) -> (ret: V4<T>)
        ensures
            ret == V4(self.2, self.3, self.2, self.2),
    {
        V4(self.2, self.3, self.2, self.2)
    }

    /// Components 2, 3, 2, 3, in that order.
    pub fn pqpq(&self) -> (ret: V4<T>)
        ensures
            ret == V4(self.2, self.3, self.2, self.3),
    {
        V4(self.2, self.3, self.2, self.3)
    }

    /// Components 2, 3, 3, 0, in that order.
    pub fn pqqs(&self) -> (ret: V4<T>)
        ensures
            ret == V4(self.2, self.3, self.3, self.0),
    {
        V4(self.2, self.3, self.3, self.0)
    }

    /// Components 2, 3, 3, 1, in that order.
    pub fn pqqt(&self) -> (ret: V4<T>)
        ensures
            ret == V4(self.2, self.3, self.3, self.1),
    {
        V4(self.2, self.3, self.3, self.1)
    }

    /// Components 2, 3, 3, 2, in that order.
    pub fn pqqp(&self) -> (ret: V4<T>)
        ensures
            ret == V4(self.2, self.3, self.3, self.2),
    {
        V4(self.2, self.3, self.3, self.2)
    }

    /// Components 2, 3, 3, 3, in that order.
    pub fn pqqq(&self) -> (ret: V4<T>)
        ensures
            ret == V4(self.2, self.3, self.3, self.3),
    {
        V4(self.2, self.3, self.3, self.3)
    }

    /// Components 3, 0, 0, 0, in that order.
    pub fn qsss(&self) -> (ret: V4<T>)
        ensures
            ret == V4(self.3, self.0, self.0, self.0),
    {
        V4(self.3, self.0, self.0, self.0)
    }

    /// Components 3, 0, 0, 1, in that order.
    pub fn qsst(&self) -> (ret: V4<T>)
        ensures
            ret == V4(self.3, self.0, self.0, self.1),
    {
        V4(self.3, self.0, self.0, self.1)
    }

    /// Components 3, 0, 0, 2, in that order.
    pub fn qssp(&self) -> (ret: V4<T>)
        ensures
            ret == V4(self.3, self.0, self.0, self.2),
    {
        V4(self.3, self.0, self.0, self.2)
    }

    /// Components 3, 0, 0, 3, in that order.
    pub fn qssq(&self) -> (ret: V4<T>)
        ensures
            ret == V4(self.3, self.0, self.0, self.3),
    {
        V4(self.3, self.0, self.0, self.3)
    }

    /// Components 3, 0, 1, 0, in that order.
    pub fn qsts(&self) -> (ret: V4<T>)
        ensures
            ret == V4(self.3, self.0, self.1, self.0),
    {
        V4(self.3, self.0, self.1, self.0)
    }

    /// Components 3, 0, 1, 1, in that order.
    pub fn qstt(&self) -> (ret: V4<T>)
        ensures
            ret == V4(self.3, self.0, self.1, self.1),
    {
        V4(self.3, self.0, self.1, self.1)
    }

    /// Components 3, 0, 1, 2, in that order.
    pub fn qstp(&self) -> (ret: V4<T>)
        ensures
            ret == V4(self.3, self.0, self.1, self.2),
    {
        V4(self.3, self.0, self.1, self.2)
    }

    /// Writes the components of `value` into components 3, 0, 1, 2, in
    /// that order.
    pub fn set_qstp(&mut self, value: V4<T>)
        ensures
            *final(self) == V4(value.1, value.2, value.3, value.0),
    {
        self.3 = value.0;
        self.0 = value.1;
        self.1 = value.2;
        self.2 = value.3;
    }

    /// Components 3, 0, 1, 3, in that order.
    pub fn qstq(&self) -> (ret: V4<T>)
        ensures
            ret == V4(self.3, self.0, self.1, self.3),
    {
        V4(self.3, self.0, self.1, self.3)
    }

    /// Components 3, 0, 2, 0, in that order.
    pub fn qsps(&self) -> (ret: V4<T>)
        ensures
            ret == V4(self.3, self.0, self.2, self.0),
    {
        V4(self.3, self.0, self.2, self.0)
    }

    /// Components 3, 0, 2, 1, in that order.
    pub fn qspt(&self) -> (ret: V4<T>)
        ensures
            ret == V4(self.3, self.0, self.2, self.1),
    {
        V4(self.3, self.0, self.2, self.1)
    }

    /// Writes the components of `value` into components 3, 0, 2, 1, in
    /// that order.
    pub fn set_qspt(&mut self, value: V4<T>)
        ensures
            *final(self) == V4(value.1, value.3, value.2, value.0),
    {
        self.3 = value.0;
        self.0 = value.1;
        self.2 = value.2;
        self.1 = value.3;
    }

    /// Components 3, 0, 2, 2, in that order.
    pub fn qspp(&self) -> (ret: V4<T>)
        ensures
            ret == V4(self.3, self.0, self.2, self.2),
    {
        V4(self.3, self.0, self.2, self.2)
    }

    /// Components 3, 0, 2, 3, in that order.
    pub fn qspq(&self) -> (ret: V4<T>)
        ensures
            ret == V4(self.3, self.0, self.2, self.3),
    {
        V4(self.3, self.0, self.2, self.3)
    }

    /// Components 3, 0, 3, 0, in that order.
    pub fn qsqs(&self) -> (ret: V4<T>)
        ensures
            ret == V4(self.3, self.0, self.3, self.0),
    {
        V4(self.3, self.0, self.3, self.0)
    }

    /// Components 3, 0, 3, 1, in that order.
    pub fn qsqt(&self) -> (ret: V4<T>)
        ensures
            ret == V4(self.3, self.0, self.3, self.1),
    {
        V4(self.3, self.0, self.3, self.1)
    }

    /// Components 3, 0, 3, 2, in that order.
    pub fn qsqp(&self) -> (ret: V4<T>)
        ensures
            ret == V4(self.3, self.0, self.3, self.2),
    {
        V4(self.3, self.0, self.3, self.2)
    }

    /// Components 3, 0, 3, 3, in that order.
    pub fn qsqq(&self) -> (ret: V4<T>)
        ensures
            ret == V4(self.3, self.0, self.3, self.3),
    {
        V4(self.3, self.0, self.3, self.3)
    }

    /// Components 3, 1, 0, 0, in that order.
    pub fn qtss(&self) -> (ret: V4<T>)
        ensures
            ret == V4(self.3, self.1, self.0, self.0),
    {
        V4(self.3, self.1, self.0, self.0)
    }

    /// Components 3, 1, 0, 1, in that order.
    pub fn qtst(&self) -> (ret: V4<T>)
        ensures
            ret == V4(self.3, self.1, self.0, self.1),
    {
        V4(self.3, self.1, self.0, self.1)
    }

    /// Components 3, 1, 0, 2, in that order.
    pub fn qtsp(&self) -> (ret: V4<T>)
        ensures
            ret == V4(self.3, self.1, self.0, self.2),
    {
        V4(self.3, self.1, self.0, self.2)
    }

    /// Writes the components of `value` into components 3, 1, 0, 2, in
    /// that order.
    pub fn set_qtsp(&mut self, value: V4<T>)
        ensures
            *final(self) == V4(value.2, value.1, value.3, value.0),
    {
        self.3 = value.0;
        self.1 = value.1;
        self.0 = value.2;
        self.2 = value.3;
    }

    /// Components 3, 1, 0, 3, in that order.
    pub fn qtsq(&self) -> (ret: V4<T>)
        ensures
            ret == V4(self.3, self.1, self.0, self.3),
    {
        V4(self.3, self.1, self.0, self.3)
    }

    /// Components 3, 1, 1, 0, in that order.
    pub fn qtts(&self) -> (ret: V4<T>)
        ensures
            ret == V4(self.3, self.1, self.1, self.0),
    {
        V4(self.3, self.1, self.1, self.0)
    }

    /// Components 3, 1, 1, 1, in that order.
    pub fn qttt(&self) -> (ret: V4<T>)
        ensures
            ret == V4(self.3, self.1, self.1, self.1),
    {
        V4(self.3, self.1, self.1, self.1)
    }

    /// Components 3, 1, 1, 2, in that order.
    pub fn qttp(&self) -> (ret: V4<T>)
        ensures
            ret == V4(self.3, self.1, self.1, self.2),
    {
        V4(self.3, self.1, self.1, self.2)
    }

    /// Components 3, 1, 1, 3, in that order.
    pub fn qttq(&self) -> (ret: V4<T>)
        ensures
            ret == V4(self.3, self.1, self.1, self.3),
    {
        V4(self.3, self.1, self.1, self.3)
    }

    /// Components 3, 1, 2, 0, in that order.
    pub fn qtps(&self) -> (ret: V4<T>)
        ensures
            ret == V4(self.3, self.1, self.2, self.0),
    {
        V4(self.3, self.1, self.2, self.0)
    }

    /// Writes the components of `value` into components 3, 1, 2, 0, in
    /// that order.
    pub fn set_qtps(&mut self, value: V4<T>)
        ensures
            *final(self) == V4(value.3, value.1, value.2, value.0),
    {
        self.3 = value.0;
        self.1 = value.1;
        self.2 = value.2;
        self.0 = value.3;
    }

    /// Components 3, 1, 2, 1, in that order.
    pub fn qtpt(&self) -> (ret: V4<T>)
        ensures
            ret == V4(self.3, self.1, self.2, self.1),
    {
        V4(self.3, self.1, self.2, self.1)
    }

    /// Components 3, 1, 2, 2, in that order.
    pub fn qtpp(&self) -> (ret: V4<T>)
        ensures
            ret == V4(self.3, self.1, self.2, self.2),
    {
        V4(self.3, self.1, self.2, self.2)
    }

    /// Components 3, 1, 2, 3, in that order.
    pub fn qtpq(&self) -> (ret: V4<T>)
        ensures
            ret == V4(self.3, self.1, self.2, self.3),
    {
        V4(self.3, self.1, self.2, self.3)
    }

    /// Components 3, 1, 3, 0, in that order.
    pub fn qtqs(&self) -> (ret: V4<T>)
        ensures
            ret == V4(self.3, self.1, self.3, self.0),
    {
        V4(self.3, self.1, self.3, self.0)
    }

    /// Components 3, 1, 3, 1, in that order.
    pub fn qtqt(&self) -> (ret: V4<T>)
        ensures
            ret == V4(self.3, self.1, self.3, self.1),
    {
        V4(self.3, self.1, self.3, self.1)
    }

    /// Components 3, 1, 3, 2, in that order.
    pub fn qtqp(&self) -> (ret: V4<T>)
        ensures
            ret == V4(self.3, self.1, self.3, self.2),
    {
        V4(self.3, self.1, self.3, self.2)
    }

    /// Components 3, 1, 3, 3, in that order.
    pub fn qtqq(&self) -> (ret: V4<T>)
        ensures
            ret == V4(self.3, self.1, self.3, self.3),
    {
        V4(self.3, self.1, self.3, self.3)
    }

    /// Components 3, 2, 0, 0, in that order.
    pub fn qpss(&self) -> (ret: V4<T>)
        ensures
            ret == V4(self.3, self.2, self.0, self.0),
    {
        V4(self.3, self.2, self.0, self.0)
    }

    /// Components 3, 2, 0, 1, in that order.
    pub fn qpst(&self) -> (ret: V4<T>)
        ensures
            ret == V4(self.3, self.2, self.0, self.1),
    {
        V4(self.3, self.2, self.0, self.1)
    }

    /// Writes the components of `value` into components 3, 2, 0, 1, in
    /// that order.
    pub fn set_qpst(&mut self, value: V4<T>)
        ensures
            *final(self) == V4(value.2, value.3, value.1, value.0),
    {
        self.3 = value.0;
        self.2 = value.1;
        self.0 = value.2;
        self.1 = value.3;
    }

    /// Components 3, 2, 0, 2, in that order.
    pub fn qpsp(&self) -> (ret: V4<T>)
        ensures
            ret == V4(self.3, self.2, self.0, self.2),
    {
        V4(self.3, self.2, self.0, self.2)
    }

    /// Components 3, 2, 0, 3, in that order.
    pub fn qpsq(&self) -> (ret: V4<T>)
        ensures
            ret == V4(self.3, self.2, self.0, self.3),
    {
        V4(self.3, self.2, self.0, self.3)
    }

    /// Components 3, 2, 1, 0, in that order.
    pub fn qpts(&self) -> (ret: V4<T>)
        ensures
            ret == V4(self.3, self.2, self.1, self.0),
    {
        V4(self.3, self.2, self.1, self.0)
    }

    /// Writes the components of `value` into components 3, 2, 1, 0, in
    /// that order.
    pub fn set_qpts(&mut self, value: V4<T>)
        ensures
            *final(self) == V4(value.3, value.2, value.1, value.0),
    {
        self.3 = value.0;
        self.2 = value.1;
        self.1 = value.2;
        self.0 = value.3;
    }

    /// Components 3, 2, 1, 1, in that order.
    pub fn qptt(&self) -> (ret: V4<T>)
        ensures
            ret == V4(self.3, self.2, self.1, self.1),
    {
        V4(self.3, self.2, self.1, self.1)
    }

    /// Components 3, 2, 1, 2, in that order.
    pub fn qptp(&self) -> (ret: V4<T>)
        ensures
            ret == V4(self.3, self.2, self.1, self.2),
    {
        V4(self.3, self.2, self.1, self.2)
    }

    /// Components 3, 2, 1, 3, in that order.
    pub fn qptq(&self) -> (ret: V4<T>)
        ensures
            ret == V4(self.3, self.2, self.1, self.3),
    {
        V4(self.3, self.2, self.1, self.3)
    }

    /// Components 3, 2, 2, 0, in that order.
    pub fn qpps(&self) -> (ret: V4<T>)
        ensures
            ret == V4(self.3, self.2, self.2, self.0),
    {
        V4(self.3, self.2, self.2, self.0)
    }

    /// Components 3, 2, 2, 1, in that order.
    pub fn qppt(&self) -> (ret: V4<T>)
        ensures
            ret == V4(self.3, self.2, self.2, self.1),
    {
        V4(self.3, self.2, self.2, self.1)
    }

    /// Components 3, 2, 2, 2, in that order.
    pub fn qppp(&self) -> (ret: V4<T>)
        ensures
            ret == V4(self.3, self.2, self.2, self.2),
    {
        V4(self.3, self.2, self.2, self.2)
    }

    /// Components 3, 2, 2, 3, in that order.
    pub fn qppq(&self) -> (ret: V4<T>)
        ensures
            ret == V4(self.3, self.2, self.2, self.3),
    {
        V4(self.3, self.2, self.2, self.3)
    }

    /// Components 3, 2, 3, 0, in that order.
    pub fn qpqs(&self) -> (ret: V4<T>)
        ensures
            ret == V4(self.3, self.2, self.3, self.0),
    {
        V4(self.3, self.2, self.3, self.0)
    }

    /// Components 3, 2, 3, 1, in that order.
    pub fn qpqt(&self) -> (ret: V4<T>)
        ensures
            ret == V4(self.3, self.2, self.3, self.1),
    {
        V4(self.3, self.2, self.3, self.1)
    }

    /// Components 3, 2, 3, 2, in that order.
    pub fn qpqp(&self) -> (ret: V4<T>)
        ensures
            ret == V4(self.3, self.2, self.3, self.2),
    {
        V4(self.3, self.2, self.3, self.2)
    }

    /// Components 3, 2, 3, 3, in that order.
    pub fn qpqq(&self) -> (ret: V4<T>)
        ensures
            ret == V4(self.3, self.2, self.3, self.3),
    {
        V4(self.3, self.2, self.3, self.3)
    }

    /// Components 3, 3, 0, 0, in that order.
    pub fn qqss(&self) -> (ret: V4<T>)
        ensures
            ret == V4(self.3, self.3, self.0, self.0),
    {
        V4(self.3, self.3, self.0, self.0)
    }

    /// Components 3, 3, 0, 1, in that order.
    pub fn qqst(&self) -> (ret: V4<T>)
        ensures
            ret == V4(self.3, self.3, self.0, self.1),
    {
        V4(self.3, self.3, self.0, self.1)
    }

    /// Components 3, 3, 0, 2, in that order.
    pub fn qqsp(&self) -> (ret: V4<T>)
        ensures
            ret == V4(self.3, self.3, self.0, self.2),
    {
        V4(self.3, self.3, self.0, self.2)
    }

    /// Components 3, 3, 0, 3, in that order.
    pub fn qqsq(&self) -> (ret: V4<T>)
        ensures
            ret == V4(self.3, self.3, self.0, self.3),
    {
        V4(self.3, self.3, self.0, self.3)
    }

    /// Components 3, 3, 1, 0, in that order.
    pub fn qqts(&self) -> (ret: V4<T>)
        ensures
            ret == V4(self.3, self.3, self.1, self.0),
    {
        V4(self.3, self.3, self.1, self.0)
    }

    /// Components 3, 3, 1, 1, in that order.
    pub fn qqtt(&self) -> (ret: V4<T>)
        ensures
            ret == V4(self.3, self.3, self.1, self.1),
    {
        V4(self.3, self.3, self.1, self.1)
    }

    /// Components 3, 3, 1, 2, in that order.
    pub fn qqtp(&self) -> (ret: V4<T>)
        ensures
            ret == V4(self.3, self.3, self.1, self.2),
    {
        V4(self.3, self.3, self.1, self.2)
    }

    /// Components 3, 3, 1, 3, in that order.
    pub fn qqtq(&self) -> (ret: V4<T>)
        ensures
            ret == V4(self.3, self.3, self.1, self.3),
    {
        V4(self.3, self.3, self.1, self.3)
    }

    /// Components 3, 3, 2, 0, in that order.
    pub fn qqps(&self) -> (ret: V4<T>)
        ensures
            ret == V4(self.3, self.3, self.2, self.0),
    {
        V4(self.3, self.3, self.2, self.0)
    }

    /// Components 3, 3, 2, 1, in that order.
    pub fn qqpt(&self) -> (ret: V4<T>)
        ensures
            ret == V4(self.3, self.3, self.2, self.1),
    {
        V4(self.3, self.3, self.2, self.1)
    }

    /// Components 3, 3, 2, 2, in that order.
    pub fn qqpp(&self) -> (ret: V4<T>)
        ensures
            ret == V4(self.3, self.3, self.2, self.2),
    {
        V4(self.3, self.3, self.2, self.2)
    }

    /// Components 3, 3, 2, 3, in that order.
    pub fn qqpq(&self) -> (ret: V4<T>)
        ensures
            ret == V4(self.3, self.3, self.2, self.3),
    {
        V4(self.3, self.3, self.2, self.3)
    }

    /// Components 3, 3, 3, 0, in that order.
    pub fn qqqs(&self) -> (ret: V4<T>)
        ensures
            ret == V4(self.3, self.3, self.3, self.0),
    {
        V4(self.3, self.3, self.3, self.0)
    }

    /// Components 3, 3, 3, 1, in that order.
    pub fn qqqt(&self) -> (ret: V4<T>)
        ensures
            ret == V4(self.3, self.3, self.3, self.1),
    {
        V4(self.3, self.3, self.3, self.1)
    }

    /// Components 3, 3, 3, 2, in that order.
    pub fn qqqp(&self) -> (ret: V4<T>)
        ensures
            ret == V4(self.3, self.3, self.3, self.2),
    {
        V4(self.3, self.3, self.3, self.2)
    }

    /// Components 3, 3, 3, 3, in that order.
    pub fn qqqq(&self) -> (ret: V4<T>)
        ensures
            ret == V4(self.3, self.3, self.3, self.3),
    {
        V4(self.3, self.3, self.3, self.3)
    }
}

} // verus!
