//! The perspective projection's parameters: aspect ratio, field of view and clip range.

use vstd::prelude::*;

verus! {

/// Why a configuration was rejected.
#[derive(Clone, Copy, Debug, PartialEq, Eq, Structural)]
pub enum ConfigError {
    /// A width or height of zero.
    ZeroDimension,
    /// A field of view that is not strictly between 0 and π.
    InvalidFieldOfView,
    /// A clip range without `0 < znear < zfar`.
    InvalidClipRange,
    /// A minimum orbit radius that is not positive, or not below the largest radius.
    InvalidRadius,
}

/// A perspective projection.
///
/// The aspect ratio is held exactly, as the viewport's `width / height`. The
/// vertical field of view is held as the tangent of half its angle, the
/// positive fraction `tan_num / tan_den`; every angle strictly between 0 and π
/// has such a tangent.
#[derive(Clone, Copy, Debug, PartialEq, Eq, Structural)]
pub struct Projection {
    pub width: u32,
    pub height: u32,
    pub tan_num: u16,
    pub tan_den: u16,
    pub znear: i32,
    pub zfar: i32,
}

/// A positive tangent (both terms of the fraction non-zero).
pub open spec fn tangent_ok(tan_num: u16, tan_den: u16) -> bool {
    tan_num > 0 && tan_den > 0
}

impl Projection {
    pub open spec fn wf(&self) -> bool {
        &&& self.width > 0
        &&& self.height > 0
        &&& tangent_ok(self.tan_num, self.tan_den)
        &&& 0 < self.znear < self.zfar
    }

    /// The projection after a resize to `width` × `height`: its aspect ratio
    /// becomes exactly `width / height`.
    pub open spec fn resized(self, width: u32, height: u32) -> Projection {
        Projection { width, height, ..self }
    }

    /// A projection for a `width` × `height` viewport (aspect exactly
    /// `width / height`), with `tan(fovy / 2) = tan_num / tan_den`.
    pub fn new(width: u32, height: u32, tan_num: u16, tan_den: u16, znear: i32, zfar: i32) -> (r:
        Result<Projection, ConfigError>)
        ensures
            (width == 0 || height == 0) ==> r == Err::<Projection, ConfigError>(
                ConfigError::ZeroDimension,
            ),
            (width != 0 && height != 0 && !tangent_ok(tan_num, tan_den)) ==> r == Err::<
                Projection,
                ConfigError,
            >(ConfigError::InvalidFieldOfView),
            (width != 0 && height != 0 && tangent_ok(tan_num, tan_den) && !(0 < znear < zfar)) ==> r
                == Err::<Projection, ConfigError>(ConfigError::InvalidClipRange),
            (width != 0 && height != 0 && tangent_ok(tan_num, tan_den) && 0 < znear < zfar) ==> r
                == Ok::<Projection, ConfigError>(
                (Projection { width, height, tan_num, tan_den, znear, zfar }),
            ),
            r matches Ok(p) ==> p.wf(),
    {
        if width == 0 || height == 0 {
            return Err(ConfigError::ZeroDimension);
        }
        if tan_num == 0 || tan_den == 0 {
            return Err(ConfigError::InvalidFieldOfView);
        }
        if !(0 < znear && znear < zfar) {
            return Err(ConfigError::InvalidClipRange);
        }
        Ok(Projection { width, height, tan_num, tan_den, znear, zfar })
    }

    /// Recomputes the aspect ratio for a `width` × `height` viewport; a zero
    /// dimension is rejected and leaves the projection unchanged.
    pub fn resize(&mut self, width: u32, height: u32) -> (r: Result<(), ConfigError>)
        ensures
            (width == 0 || height == 0) <==> r == Err::<(), ConfigError>(
                ConfigError::ZeroDimension,
            ),
            (width == 0 || height == 0) ==> *final(self) == *old(self),
            (width != 0 && height != 0) ==> r == Ok::<(), ConfigError>(()) && *final(self)
                == old(self).resized(width, height),
            old(self).wf() ==> final(self).wf(),
    {
        if width == 0 || height == 0 {
            return Err(ConfigError::ZeroDimension);
        }
        self.width = width;
        self.height = height;
        Ok(())
    }

    /// The aspect ratio, exactly, as `(width, height)`: it is `width / height`.
    pub fn aspect(&self) -> (r: (u32, u32))
        ensures
            r == (self.width, self.height),
    {
        (self.width, self.height)
    }

    /// The tangent of half the vertical field of view, exactly, as
    /// `(tan_num, tan_den)`: it is `tan_num / tan_den`.
    pub fn tan_half_fovy(&self) -> (r: (u16, u16))
        ensures
            r == (self.tan_num, self.tan_den),
    {
        (self.tan_num, self.tan_den)
    }

    pub fn znear(&self) -> (r: i32)
        ensures
            r == self.znear,
    {
        self.znear
    }

    pub fn zfar(&self) -> (r: i32)
        ensures
            r == self.zfar,
    {
        self.zfar
    }
}

/// Resizing twice to the same dimensions leaves the projection as resizing once.
pub proof fn lemma_resize_idempotent(p: Projection, width: u32, height: u32)
    ensures
        p.resized(width, height).resized(width, height) == p.resized(width, height),
{
}

} // verus!
