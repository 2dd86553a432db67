use vstd::prelude::*;

verus! {

/// Rotation / mirroring applied to a monitor's physical panel.
#[derive(Clone, Copy, PartialEq, Eq, Structural, Debug)]
pub enum Transform {
    Normal,
    Normal90,
    Normal180,
    Normal270,
    Flipped,
    Flipped90,
    Flipped180,
    Flipped270,
}

/// The four transforms that rotate the panel by 90 or 270 degrees and hence
/// swap its width and height; a 180-degree turn or a plain mirror does not.
pub open spec fn rotates(t: Transform) -> bool {
    t is Normal90 || t is Normal270 || t is Flipped90 || t is Flipped270
}

/// A snapshot of one connected monitor, in the global layout's coordinate
/// space. The scale factor is kept as an exact rational `scale_num /
/// scale_den`, so that the derived effective dimensions stay exact integers
/// over a common denominator.
pub struct Monitor {
    pub id: i128,
    pub name: String,
    /// Top-left corner in the global coordinate space.
    pub x: i32,
    pub y: i32,
    /// Panel size in physical pixels, before scale and rotation.
    pub width: u32,
    pub height: u32,
    /// Scale factor `scale_num / scale_den`; both parts are positive.
    pub scale_num: u64,
    pub scale_den: u64,
    pub transform: Transform,
    /// Insets reserved by panels and bars, reducing the usable area.
    pub reserved_top: u32,
    pub reserved_bottom: u32,
    pub reserved_left: u32,
    pub reserved_right: u32,
    pub focused: bool,
}

/// A snapshot of one window, in the global coordinate space.
pub struct Client {
    pub x: i32,
    pub y: i32,
    pub width: i32,
    pub height: i32,
    /// Id of the monitor the window is on.
    pub monitor_id: i128,
}

/// An exact non-negative rational value, as returned for a monitor's
/// effective (scaled, possibly rotated) dimensions.
#[derive(Clone, Copy, PartialEq, Eq, Structural, Debug)]
pub struct Frac {
    pub num: u128,
    pub den: u64,
}

/// A pixel dimension times a scale denominator stays below 2^96, so the
/// product fits comfortably in 128 bits.
proof fn lemma_u32_u64_product_fits(a: u32, b: u64)
    ensures
        (a as int) * (b as int) < 0x1000000000000000000000000,
{
    assert((a as int) * (b as int) < 0x1000000000000000000000000) by (nonlinear_arith)
        requires
            0 <= (a as int),
            (a as int) < 0x100000000,
            0 <= (b as int),
            (b as int) < 0x10000000000000000,
    ;
}

impl Monitor {
    /// A monitor snapshot is well formed when its scale is a genuine
    /// positive rational.
    pub open spec fn wf(self) -> bool {
        self.scale_num >= 1 && self.scale_den >= 1
    }

    /// Numerator of the effective width over the denominator `scale_num`:
    /// the effective width is `pixel width / scale` for non-rotating
    /// transforms, with width and height swapped for rotating ones, that is
    /// `dim * scale_den / scale_num` as an exact rational.
    pub open spec fn effective_width_num(self) -> int {
        if rotates(self.transform) {
            self.height * self.scale_den
        } else {
            self.width * self.scale_den
        }
    }

    /// Numerator of the effective height over the denominator `scale_num`.
    pub open spec fn effective_height_num(self) -> int {
        if rotates(self.transform) {
            self.width * self.scale_den
        } else {
            self.height * self.scale_den
        }
    }

    /// Common denominator of the effective dimensions.
    pub open spec fn effective_den(self) -> int {
        self.scale_num as int
    }

    /// The effective dimension numerators are products of a pixel dimension
    /// and the scale denominator, hence non-negative and below 2^96.
    pub proof fn lemma_effective_dims_bound(self)
        ensures
            0 <= self.effective_width_num(),
            self.effective_width_num() < 0x1000000000000000000000000,
            0 <= self.effective_height_num(),
            self.effective_height_num() < 0x1000000000000000000000000,
    {
        lemma_u32_u64_product_fits(self.width, self.scale_den);
        lemma_u32_u64_product_fits(self.height, self.scale_den);
    }

    /// Effective usable width of the monitor, as the exact rational
    /// `r.num / r.den`.
    pub fn real_width(&self) -> (r: Frac)
        ensures
            r.num == self.effective_width_num(),
            r.den == self.effective_den(),
    {
        let dim: u32 = match self.transform {
            Transform::Normal | Transform::Normal180 | Transform::Flipped | Transform::Flipped180 => self.width,
            Transform::Normal90 | Transform::Normal270 | Transform::Flipped90 | Transform::Flipped270 => self.height,
        };
        proof {
            lemma_u32_u64_product_fits(dim, self.scale_den);
        }
        Frac { num: (dim as u128) * (self.scale_den as u128), den: self.scale_num }
    }

    /// Effective usable height of the monitor, as the exact rational
    /// `r.num / r.den`.
    pub fn real_height(&self) -> (r: Frac)
        ensures
            r.num == self.effective_height_num(),
            r.den == self.effective_den(),
    {
        let dim: u32 = match self.transform {
            Transform::Normal | Transform::Normal180 | Transform::Flipped | Transform::Flipped180 => self.height,
            Transform::Normal90 | Transform::Normal270 | Transform::Flipped90 | Transform::Flipped270 => self.width,
        };
        proof {
            lemma_u32_u64_product_fits(dim, self.scale_den);
        }
        Frac { num: (dim as u128) * (self.scale_den as u128), den: self.scale_num }
    }
}

/// For the non-rotating transforms the effective dimensions are the pixel
/// dimensions divided by the scale: as exact rationals, `width * scale_den /
/// scale_num` and `height * scale_den / scale_num`.
pub proof fn lemma_non_rotating_dimensions(m: Monitor)
    requires
        !rotates(m.transform),
    ensures
        m.effective_width_num() == m.width * m.scale_den,
        m.effective_height_num() == m.height * m.scale_den,
        m.effective_den() == m.scale_num,
{
}

/// For the rotating transforms the same formula applies with the two pixel
/// dimensions swapped.
pub proof fn lemma_rotating_dimensions(m: Monitor)
    requires
        rotates(m.transform),
    ensures
        m.effective_width_num() == m.height * m.scale_den,
        m.effective_height_num() == m.width * m.scale_den,
        m.effective_den() == m.scale_num,
{
}

/// A rotating transform swaps width and height relative to the non-rotating
/// formula: a monitor that differs from a non-rotated one only in carrying a
/// rotating transform has the other's effective width as its effective
/// height, and vice versa, over the same denominator.
pub proof fn lemma_rotation_swaps(m: Monitor, n: Monitor)
    requires
        rotates(m.transform),
        !rotates(n.transform),
        m.width == n.width,
        m.height == n.height,
        m.scale_num == n.scale_num,
        m.scale_den == n.scale_den,
    ensures
        m.effective_width_num() == n.effective_height_num(),
        m.effective_height_num() == n.effective_width_num(),
        m.effective_den() == n.effective_den(),
{
}

} // verus!
