//! The frame renderer and the ASCII compositor.
//!
//! For each pixel a camera ray is cast; the closest sphere hit, or else
//! the ground-plane hit, decides the brightness; a pixel that hits
//! neither, or looks above the horizon, is background.  Brightness maps
//! to a palette character by the affine transform `b * 2 + 18`, clamped
//! to the palette's index range.

use vstd::prelude::*;

use crate::fixed::{fx_add, fx_mul, fx_tdiv, in_range, s_add, s_mul, s_sub, s_tdiv, FX_ONE};
use crate::intersect::{m_closest, m_plane_point, m_sphere_int, plane_line_int, sphere_line_int,
    SphereLineIntResult};
use crate::scene::{ASPECT, CAMERA_Y, PLANE_OFFSET, SHADOW_BRIGHTNESS, SIZE};
use crate::shade::{brightness, m_brightness, m_reflect, reflect};
use crate::vec3::{m_dot, m_norm, m_scale, m_sub, Vec3Model, V3};

verus! {

/// Half the grid extent, in fixed-point units.
pub const HALF_SIZE: i128 = 65 * FX_ONE;

/// Rows per frame: the vertical sampling stride is 2.
pub const ROWS: usize = 65;

/// Brightness of one pixel: a surface value, or the background sentinel,
/// darker than every value.
pub enum PixelBrightness {
    Background,
    Lit(i128),
}

/// The model of a pixel brightness.
pub ghost enum BrightnessModel {
    Background,
    Lit(int),
}

impl View for PixelBrightness {
    type V = BrightnessModel;

    open spec fn view(&self) -> BrightnessModel {
        match *self {
            PixelBrightness::Background => BrightnessModel::Background,
            PixelBrightness::Lit(v) => BrightnessModel::Lit(v as int),
        }
    }
}

/// A lit value within the scalar range.
pub open spec fn m_bright_wf(b: BrightnessModel) -> bool {
    match b {
        BrightnessModel::Background => true,
        BrightnessModel::Lit(v) => in_range(v),
    }
}

/// Model of the camera position, on the vertical axis.
pub open spec fn m_camera() -> Vec3Model {
    Vec3Model { x: 0, y: CAMERA_Y as int, z: 0 }
}

/// The camera position.
pub fn camera() -> (r: V3)
    ensures
        r@ == m_camera(),
        r.wf(),
{
    V3::new(0, CAMERA_Y, 0)
}

/// Model of the point on the virtual viewing plane that pixel `(x, y)`
/// maps to: centered on the grid, squeezed horizontally by `ASPECT`, a
/// fixed distance `PLANE_OFFSET` from the camera height.
pub open spec fn m_view_point(x: int, y: int) -> Vec3Model {
    Vec3Model {
        x: s_mul(s_sub(x * FX_ONE, HALF_SIZE as int), ASPECT as int),
        y: CAMERA_Y + PLANE_OFFSET,
        z: s_sub(y * FX_ONE, HALF_SIZE as int),
    }
}

/// Model of the camera ray of pixel `(x, y)`.
pub open spec fn m_camera_ray(x: int, y: int) -> Vec3Model {
    m_norm(m_sub(m_view_point(x, y), m_camera()))
}

/// The camera ray of pixel `(x, y)`: the normalized direction from the
/// camera to the pixel's viewing-plane point.
pub fn camera_ray(x: usize, y: usize) -> (r: V3)
    requires
        x < SIZE,
        y < SIZE,
    ensures
        r@ == m_camera_ray(x as int, y as int),
        r.wf(),
{
    let xf: i128 = (x as i128) * FX_ONE;
    let yf: i128 = (y as i128) * FX_ONE;
    let vp = V3::new(
        fx_mul(crate::fixed::fx_sub(xf, HALF_SIZE), ASPECT),
        CAMERA_Y + PLANE_OFFSET,
        crate::fixed::fx_sub(yf, HALF_SIZE),
    );
    vp.sub(camera()).normalize()
}

/// Model of one pixel: the closest sphere hit shaded with a
/// projected-normal shortcut; otherwise the plane hit, background above
/// the horizon, the fixed shadow level when the shadow ray meets the
/// sphere, and the plane's upward normal otherwise.
pub open spec fn m_render_pixel(x: int, y: int, light: Vec3Model) -> BrightnessModel {
    let cam = m_camera();
    let ray = m_camera_ray(x, y);
    match m_closest(m_sphere_int(cam, ray), cam) {
        Option::Some(closest) => {
            let to_light = m_norm(m_sub(light, closest));
            let ncl = m_norm(closest);
            let normal = m_scale(ncl, m_dot(to_light, ncl));
            BrightnessModel::Lit(
                m_brightness(m_reflect(to_light, closest, normal), ray, light, closest),
            )
        },
        Option::None => {
            if ray.z == 0 {
                BrightnessModel::Background
            } else {
                let ip = m_plane_point(cam, ray);
                if ip.y > CAMERA_Y {
                    BrightnessModel::Background
                } else {
                    let to_light = m_norm(m_sub(light, ip));
                    if !(m_sphere_int(ip, to_light) is Miss) {
                        BrightnessModel::Lit(SHADOW_BRIGHTNESS as int)
                    } else {
                        let normal = m_unit_z();
                        BrightnessModel::Lit(
                            m_brightness(m_reflect(to_light, ip, normal), ray, light, ip),
                        )
                    }
                }
            }
        },
    }
}

/// The plane's upward normal, a unit vector along z.
pub open spec fn m_unit_z() -> Vec3Model {
    Vec3Model { x: 0, y: 0, z: FX_ONE as int }
}

/// The brightness of pixel `(x, y)` under the given light position.
pub fn render_pixel(x: usize, y: usize, light: V3) -> (r: PixelBrightness)
    requires
        x < SIZE,
        y < SIZE,
        light.wf(),
    ensures
        r@ == m_render_pixel(x as int, y as int, light@),
        m_bright_wf(r@),
        m_closest(m_sphere_int(m_camera(), m_camera_ray(x as int, y as int)), m_camera())
            is Some ==> r@ is Lit,
{
    let cam = camera();
    let ray = camera_ray(x, y);
    match sphere_line_int(cam, ray).closest(cam) {
        Option::Some(closest) => {
            let to_light = light.sub(closest).normalize();
            let ncl = closest.normalize();
            let normal = ncl.scale(to_light.dot(ncl));
            let refl = reflect(to_light, closest, normal);
            PixelBrightness::Lit(brightness(refl, ray, light, closest))
        },
        Option::None => {
            match plane_line_int(cam, ray) {
                Option::None => PixelBrightness::Background,
                Option::Some(ip) => {
                    if ip.y > CAMERA_Y {
                        PixelBrightness::Background
                    } else {
                        let to_light = light.sub(ip).normalize();
                        let blocked = match sphere_line_int(ip, to_light) {
                            SphereLineIntResult::Miss => false,
                            SphereLineIntResult::Tangent(_) => true,
                            SphereLineIntResult::Through(_, _) => true,
                        };
                        if blocked {
                            PixelBrightness::Lit(SHADOW_BRIGHTNESS)
                        } else {
                            let normal = V3::new(0, 0, FX_ONE);
                            let refl = reflect(to_light, ip, normal);
                            PixelBrightness::Lit(brightness(refl, ray, light, ip))
                        }
                    }
                },
            }
        },
    }
}

/// The palette, 92 characters of increasing apparent brightness.
pub open spec fn m_palette() -> Seq<char> {
    " `.-':_,^=;><+!rc*/z?sLTv)J7(|Fi{C}fI31tlu[neoZ5Yxjya]2ESwqkP6h9d4VpOGbUAKXHm8RD#$Bg0MNWQ%&@"@
}

/// The palette string.
pub fn palette() -> (s: &'static str)
    ensures
        s@ == m_palette(),
{
    " `.-':_,^=;><+!rc*/z?sLTv)J7(|Fi{C}fI31tlu[neoZ5Yxjya]2ESwqkP6h9d4VpOGbUAKXHm8RD#$Bg0MNWQ%&@"
}

/// The palette has 92 characters.
pub proof fn lemma_palette_len()
    ensures
        m_palette().len() == 92,
{
    reveal_strlit(
        " `.-':_,^=;><+!rc*/z?sLTv)J7(|Fi{C}fI31tlu[neoZ5Yxjya]2ESwqkP6h9d4VpOGbUAKXHm8RD#$Bg0MNWQ%&@",
    );
}

/// Model of the palette index of a brightness: background is darkest;
/// a value maps through `b * 2 + 18`, clamped into the palette's index
/// range and truncated to an integer.
pub open spec fn m_char_index(b: BrightnessModel) -> int {
    match b {
        BrightnessModel::Background => 0,
        BrightnessModel::Lit(v) => {
            let w = s_add(s_mul(v, 2 * FX_ONE), 18 * FX_ONE);
            if w < 0 {
                0
            } else if w > 91 * FX_ONE {
                91
            } else {
                s_tdiv(w, FX_ONE as int)
            }
        },
    }
}

/// The palette index of a brightness.
pub fn char_index(b: &PixelBrightness) -> (i: usize)
    requires
        m_bright_wf(b@),
    ensures
        i as int == m_char_index(b@),
        i <= 91,
{
    match b {
        PixelBrightness::Background => 0,
        PixelBrightness::Lit(v) => {
            let w = fx_add(fx_mul(*v, 2 * FX_ONE), 18 * FX_ONE);
            if w < 0 {
                0
            } else if w > 91 * FX_ONE {
                91
            } else {
                let q = fx_tdiv(w, FX_ONE);
                assert(s_tdiv(w as int, FX_ONE as int) == w as int / (FX_ONE as int));
                assert(0 <= w as int / (FX_ONE as int) <= 91) by (nonlinear_arith)
                    requires
                        0 <= w as int <= 91 * 65536,
                ;
                q as usize
            }
        },
    }
}

/// Model of one pixel's character.
pub open spec fn m_pixel_char(x: int, y: int, light: Vec3Model) -> char {
    m_palette()[m_char_index(m_render_pixel(x, y, light))]
}

/// Model of the first `x` characters of the row sampled at height `y`.
pub open spec fn m_row_prefix(x: int, y: int, light: Vec3Model) -> Seq<char>
    decreases x,
{
    if x <= 0 {
        Seq::empty()
    } else {
        m_row_prefix(x - 1, y, light).push(m_pixel_char(x - 1, y, light))
    }
}

/// Model of the full row sampled at height `y`.
pub open spec fn m_row(y: int, light: Vec3Model) -> Seq<char> {
    m_row_prefix(SIZE as int, y, light)
}

/// One line of the frame: the characters of every pixel of the row
/// sampled at height `y`, left to right.
pub fn render_row(y: usize, light: V3) -> (s: String)
    requires
        y < SIZE,
        light.wf(),
    ensures
        s@ == m_row(y as int, light@),
{
    let pal = palette();
    proof {
        lemma_palette_len();
    }
    let mut s = String::new();
    let mut x: usize = 0;
    while x < SIZE
        invariant
            x <= SIZE,
            y < SIZE,
            light.wf(),
            pal@ == m_palette(),
            m_palette().len() == 92,
            s@ == m_row_prefix(x as int, y as int, light@),
        decreases SIZE - x,
    {
        let b = render_pixel(x, y, light);
        let idx = char_index(&b);
        let cs = pal.substring_char(idx, idx + 1);
        s.append(cs);
        proof {
            assert(cs@ =~= seq![m_pixel_char(x as int, y as int, light@)]);
            assert(s@ =~= m_row_prefix(x as int + 1, y as int, light@));
        }
        x = x + 1;
    }
    s
}

/// The terminal-clear escape sequence that opens every frame.
pub open spec fn m_clear() -> Seq<char> {
    "\x1b[2J"@
}

/// Model of the first `i` rows of the frame, top to bottom, separated by
/// newlines.  Row `j` of the screen samples height `128 - 2 * j`: rows are
/// generated back to front.
pub open spec fn m_rows_prefix(i: int, light: Vec3Model) -> Seq<char>
    decreases i,
{
    if i <= 0 {
        Seq::empty()
    } else {
        m_rows_prefix(i - 1, light) + (if i == 1 {
            Seq::empty()
        } else {
            "\n"@
        }) + m_row(128 - 2 * (i - 1), light)
    }
}

/// Model of a full frame: the clear sequence, then every row.
pub open spec fn m_frame(light: Vec3Model) -> Seq<char> {
    m_clear() + m_rows_prefix(ROWS as int, light)
}

/// A full frame under the given light position: the clear sequence,
/// then `ROWS` lines of `SIZE` characters joined by newlines.
pub fn render_frame(light: V3) -> (s: String)
    requires
        light.wf(),
    ensures
        s@ == m_frame(light@),
{
    let mut s = String::from_str("\x1b[2J");
    proof {
        assert(s@ =~= m_clear() + m_rows_prefix(0, light@));
    }
    let mut j: usize = 0;
    while j < ROWS
        invariant
            j <= ROWS,
            light.wf(),
            s@ == m_clear() + m_rows_prefix(j as int, light@),
        decreases ROWS - j,
    {
        if j > 0 {
            s.append("\n");
        }
        let row = render_row(128 - 2 * j, light);
        s.append(row.as_str());
        proof {
            assert(s@ =~= m_clear() + m_rows_prefix(j as int + 1, light@));
        }
        j = j + 1;
    }
    s
}

/// A row prefix holds one character per pixel.
pub proof fn lemma_row_prefix_len(x: int, y: int, light: Vec3Model)
    requires
        x >= 0,
    ensures
        m_row_prefix(x, y, light).len() == x,
    decreases x,
{
    if x > 0 {
        lemma_row_prefix_len(x - 1, y, light);
    }
}

/// The first `i` rows hold `SIZE` characters each, with one newline
/// between consecutive rows.
pub proof fn lemma_rows_prefix_len(i: int, light: Vec3Model)
    requires
        i >= 0,
    ensures
        m_rows_prefix(i, light).len() == i * (SIZE + 1) - (if i > 0 {
            1int
        } else {
            0int
        }),
    decreases i,
{
    if i > 0 {
        lemma_rows_prefix_len(i - 1, light);
        lemma_row_prefix_len(SIZE as int, 128 - 2 * (i - 1), light);
        if i > 1 {
            reveal_strlit("\n");
        }
    }
}

/// A frame always has the same shape: the four characters of the clear
/// sequence, then 65 rows of 130 characters joined by 64 newlines.
pub proof fn lemma_frame_len(light: Vec3Model)
    ensures
        m_frame(light).len() == 8518,
{
    reveal_strlit("\x1b[2J");
    lemma_rows_prefix_len(ROWS as int, light);
}

} // verus!
