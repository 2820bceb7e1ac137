//! HTTP adapter layer: v1 and v2 wire shapes normalize into canonical internal
//! types at the boundary; handlers only see the normalized types.

pub mod normalized;
pub mod status;
pub mod v1;
pub mod v2;
