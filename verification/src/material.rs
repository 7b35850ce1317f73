//! Materials: Lambertian diffuse plus Blinn-Phong specular response, with
//! tunable reflectivity and refractive index.
//!
//! A material's three color capabilities (ambient, diffuse, specular) are
//! textures: either one solid color or a two-color checkerboard over texture
//! coordinates. This closed set of texture kinds replaces arbitrary texture
//! functions while covering everything the renderer's scenes use.

use vstd::prelude::*;

use crate::color::{color_add, color_black, color_mul, color_scale, Color};
use crate::fixed::{absi, fpowi, Fx, SCALE};
use crate::intersection::{Intersection, TextureCoords};
use crate::vector3::{vec_add, vec_dot, vec_norm, Vector3};

verus! {

/// A color capability over texture coordinates.
#[derive(Clone, Copy, Debug, PartialEq, Eq, Structural)]
pub enum Texture {
    /// The same color everywhere.
    Solid(Color),
    /// A unit checkerboard alternating between two colors.
    Checker(Color, Color),
}

/// Whether the integer parts of the two texture coordinates have equal
/// parity.
pub open spec fn checker_even(tx: TextureCoords) -> bool {
    (absi(tx.0.raw as int) / (SCALE as int)) % 2 == (absi(tx.1.raw as int) / (SCALE as int)) % 2
}

/// Whether both texture coordinates lie strictly on the same side of zero.
pub open spec fn checker_same_sign(tx: TextureCoords) -> bool {
    (tx.0.raw < 0 && tx.1.raw < 0) || (tx.0.raw > 0 && tx.1.raw > 0)
}

/// The color of a texture at the given coordinates.
pub open spec fn texture_at(t: Texture, tx: TextureCoords) -> Color {
    match t {
        Texture::Solid(c) => c,
        Texture::Checker(a, b) => if checker_same_sign(tx) == checker_even(tx) {
            a
        } else {
            b
        },
    }
}

/// The integer part of a coordinate's magnitude.
fn coord_units(a: Fx) -> (u: u64)
    ensures
        u as int == absi(a.raw as int) / (SCALE as int),
{
    let m: u64 = if a.raw >= 0 {
        a.raw as u64
    } else {
        ((-(a.raw as i128)) as u128) as u64
    };
    m / (SCALE as u64)
}

/// Evaluate a texture at the given coordinates.
pub fn texture_color(t: &Texture, tx: TextureCoords) -> (c: Color)
    ensures
        c == texture_at(*t, tx),
{
    match t {
        Texture::Solid(c) => *c,
        Texture::Checker(a, b) => {
            let u = coord_units(tx.0);
            let v = coord_units(tx.1);
            let even = u % 2 == v % 2;
            let same_sign = (tx.0.raw < 0 && tx.1.raw < 0) || (tx.0.raw > 0 && tx.1.raw > 0);
            if same_sign == even {
                *a
            } else {
                *b
            }
        },
    }
}

/// A texture that yields black everywhere.
pub open spec fn inert_texture(t: Texture) -> bool {
    match t {
        Texture::Solid(c) => c == color_black(),
        Texture::Checker(a, b) => a == color_black() && b == color_black(),
    }
}

/// A fully inert material: black ambient, diffuse and specular everywhere,
/// zero reflectivity and zero refractive index.
pub open spec fn inert_material(m: TexturePhong) -> bool {
    &&& inert_texture(m.ambient)
    &&& inert_texture(m.diffuse)
    &&& inert_texture(m.specular)
    &&& m.reflectivity.raw == 0
    &&& m.refraction_index.raw == 0
}

/// Lambertian diffuse response: `(light_dir . normal) * light * surface`.
pub open spec fn lambert_spec(light_dir: Vector3, normal: Vector3, light: Color, surface: Color) -> Color {
    color_mul(color_scale(vec_dot(light_dir, normal), light), surface)
}

/// Blinn-Phong specular response with the half vector between the normalized
/// eye and light directions; zero when the normal faces away from the half
/// vector.
pub open spec fn phong_spec(
    power: u32,
    eye_dir: Vector3,
    light_dir: Vector3,
    normal: Vector3,
    light: Color,
    surface: Color,
) -> Color {
    let h = vec_norm(vec_add(vec_norm(eye_dir), vec_norm(light_dir)));
    let m_dot_h = vec_dot(normal, h);
    if m_dot_h.raw < 0 {
        color_black()
    } else {
        color_mul(color_scale(fpowi(m_dot_h, power as nat), light), surface)
    }
}

/// Lambertian diffuse response.
fn lambert(light_dir: &Vector3, normal: &Vector3, light: &Color, surface: &Color) -> (c: Color)
    ensures
        c == lambert_spec(*light_dir, *normal, *light, *surface),
{
    light.scale(light_dir.dot(normal)).mul(surface)
}

/// Blinn-Phong specular response.
fn phong(
    power: u32,
    eye_dir: &Vector3,
    light_dir: &Vector3,
    normal: &Vector3,
    light: &Color,
    surface: &Color,
) -> (c: Color)
    ensures
        c == phong_spec(power, *eye_dir, *light_dir, *normal, *light, *surface),
{
    let h = eye_dir.norm().add(&light_dir.norm()).norm();
    let m_dot_h = normal.dot(&h);
    if m_dot_h.raw < 0 {
        Color::black()
    } else {
        light.scale(m_dot_h.powi(power)).mul(surface)
    }
}

/// A material sampled at one point: plain colors, specular power,
/// reflectivity and refractive index.
#[derive(Clone, Copy, Debug, PartialEq, Eq, Structural)]
pub struct Phong {
    pub specular: Color,
    pub ambient: Color,
    pub diffuse: Color,
    pub power: u32,
    pub reflectivity: Fx,
    pub refraction_index: Fx,
}

/// The energy a sampled material reflects toward the eye for one incoming
/// light sample: Lambertian diffuse plus Blinn-Phong specular.
pub open spec fn phong_reflected_energy(m: Phong, incoming: Color, light_dir: Vector3, i: Intersection) -> Color {
    color_add(
        lambert_spec(light_dir, i.normal, incoming, m.diffuse),
        phong_spec(m.power, i.eye_dir, light_dir, i.normal, incoming, m.specular),
    )
}

impl Phong {
    /// The sampled material with the given parameters.
    pub fn new(
        ambient: Color,
        diffuse: Color,
        specular: Color,
        power: u32,
        reflectivity: Fx,
        refraction_index: Fx,
    ) -> (m: Phong)
        ensures
            m == (Phong { specular, ambient, diffuse, power, reflectivity, refraction_index }),
    {
        Phong { specular, ambient, diffuse, power, reflectivity, refraction_index }
    }

    /// The energy reflected toward the eye for one incoming light sample.
    pub fn get_reflected_energy(&self, incoming: &Color, light_dir: &Vector3, i: &Intersection) -> (c: Color)
        ensures
            c == phong_reflected_energy(*self, *incoming, *light_dir, *i),
    {
        let diffuse = lambert(light_dir, &i.normal, incoming, &self.diffuse);
        let specular = phong(self.power, &i.eye_dir, light_dir, &i.normal, incoming, &self.specular);
        diffuse.add(&specular)
    }
}

/// A texture-varying material: the arena entry primitives refer to.
#[derive(Clone, Copy, Debug, PartialEq, Eq, Structural)]
pub struct TexturePhong {
    pub specular: Texture,
    pub ambient: Texture,
    pub diffuse: Texture,
    pub power: u32,
    pub reflectivity: Fx,
    pub refraction_index: Fx,
}

/// The material sampled at the given texture coordinates.
pub open spec fn texture_phong_at(m: TexturePhong, tx: TextureCoords) -> Phong {
    Phong {
        specular: texture_at(m.specular, tx),
        ambient: texture_at(m.ambient, tx),
        diffuse: texture_at(m.diffuse, tx),
        power: m.power,
        reflectivity: m.reflectivity,
        refraction_index: m.refraction_index,
    }
}

impl TexturePhong {
    /// The texture-varying material with the given parameters.
    pub fn new(
        ambient: Texture,
        diffuse: Texture,
        specular: Texture,
        power: u32,
        reflectivity: Fx,
        refraction_index: Fx,
    ) -> (m: TexturePhong)
        ensures
            m == (TexturePhong { specular, ambient, diffuse, power, reflectivity, refraction_index }),
    {
        TexturePhong { specular, ambient, diffuse, power, reflectivity, refraction_index }
    }

    /// A material with the same solid color everywhere, for untextured
    /// surfaces.
    pub fn solid(
        ambient: Color,
        diffuse: Color,
        specular: Color,
        power: u32,
        reflectivity: Fx,
        refraction_index: Fx,
    ) -> (m: TexturePhong)
        ensures
            m == (TexturePhong {
                specular: Texture::Solid(specular),
                ambient: Texture::Solid(ambient),
                diffuse: Texture::Solid(diffuse),
                power,
                reflectivity,
                refraction_index,
            }),
    {
        TexturePhong {
            specular: Texture::Solid(specular),
            ambient: Texture::Solid(ambient),
            diffuse: Texture::Solid(diffuse),
            power,
            reflectivity,
            refraction_index,
        }
    }

    /// The material sampled at the given texture coordinates.
    pub fn at(&self, tx: TextureCoords) -> (m: Phong)
        ensures
            m == texture_phong_at(*self, tx),
    {
        Phong {
            specular: texture_color(&self.specular, tx),
            ambient: texture_color(&self.ambient, tx),
            diffuse: texture_color(&self.diffuse, tx),
            power: self.power,
            reflectivity: self.reflectivity,
            refraction_index: self.refraction_index,
        }
    }

    /// The ambient color at the given texture coordinates.
    pub fn ambient(&self, tx: TextureCoords) -> (c: Color)
        ensures
            c == texture_at(self.ambient, tx),
    {
        texture_color(&self.ambient, tx)
    }

    /// The diffuse color at the given texture coordinates.
    pub fn diffuse(&self, tx: TextureCoords) -> (c: Color)
        ensures
            c == texture_at(self.diffuse, tx),
    {
        texture_color(&self.diffuse, tx)
    }

    /// The reflectivity scalar.
    pub fn reflectivity(&self) -> (r: Fx)
        ensures
            r == self.reflectivity,
    {
        self.reflectivity
    }

    /// The refractive index scalar.
    pub fn refraction_index(&self) -> (r: Fx)
        ensures
            r == self.refraction_index,
    {
        self.refraction_index
    }

    /// The energy reflected toward the eye for one incoming light sample,
    /// with the textures evaluated at the hit's coordinates.
    pub fn get_reflected_energy(&self, incoming: &Color, light_dir: &Vector3, i: &Intersection) -> (c: Color)
        ensures
            c == phong_reflected_energy(texture_phong_at(*self, i.tex_coord), *incoming, *light_dir, *i),
    {
        let sampled = self.at(i.tex_coord);
        sampled.get_reflected_energy(incoming, light_dir, i)
    }
}

} // verus!
