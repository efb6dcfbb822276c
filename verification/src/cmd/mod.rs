//! The command model: numeric primitives and one module per category.

pub mod airbag;
pub mod algorithm;
pub mod general;
pub mod logging;
pub mod math;
pub mod measure;
pub mod power;
pub mod prelude;
pub mod sensor;
pub mod swupdate;
pub mod text;
