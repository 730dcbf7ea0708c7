//! Verified parsing of the Stacks transaction building blocks: versions,
//! hash modes, asset information, names, addresses and principals, together
//! with the plain-value model of the C context that the device firmware
//! hands to the parser.
#![allow(non_camel_case_types, non_snake_case)]

pub mod c32;
pub mod error;
pub mod ffi;
pub mod format_laws;
pub mod nom_calls;
pub mod parser_common;
