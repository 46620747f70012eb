//! An exact linear-algebra kernel for 2D translate-and-scale transforms.
//!
//! The kernel works over exact rational scalars, so every algebraic identity
//! of the transform type (composition, inversion, conversion to a general
//! affine matrix, action on points and shapes) holds exactly and is proved.

pub mod scalar;
pub mod geom;
pub mod shapes;
pub mod affine;
pub mod translate_scale;
pub mod laws;

pub use crate::scalar::Rat;
pub use crate::geom::Point;
pub use crate::geom::Vec2;
pub use crate::shapes::Circle;
pub use crate::shapes::Rect;
pub use crate::affine::Affine;
pub use crate::translate_scale::TranslateScale;
