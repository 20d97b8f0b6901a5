//! Matrices and vectors whose shape is part of their type.

pub mod add;
pub mod cross;
pub mod div;
pub mod inner;
pub mod laws;
pub mod mul;
pub mod scalar;
pub mod sub;
pub mod transpose;
pub mod vector;

pub use cross::Cross;
pub use cross::CrossAssign;
pub use inner::Matrix;
pub use inner::Matrix2;
pub use inner::Matrix2i;
pub use inner::Matrix3;
pub use inner::Matrix3i;
pub use inner::Matrix4;
pub use inner::Matrix4i;
pub use inner::MatrixInner;
pub use inner::Vector;
pub use inner::Vector2;
pub use inner::Vector2i;
pub use inner::Vector3;
pub use inner::Vector3i;
pub use inner::Vector4;
pub use inner::Vector4i;
pub use scalar::One;
pub use scalar::Zero;
pub use transpose::Transpose;
pub use transpose::TransposeAssign;
pub use vector::Dot;
pub use vector::Normalize;
pub use vector::NormalizeAssign;
pub use vector::WMut;
pub use vector::WRef;
pub use vector::XMut;
pub use vector::XRef;
pub use vector::YMut;
pub use vector::YRef;
pub use vector::ZMut;
pub use vector::ZRef;
pub use vector::W;
pub use vector::X;
pub use vector::Y;
pub use vector::Z;
