//! Digital-to-analog converter controller

use vstd::prelude::*;

pub mod acr;

verus! {

/// The analog current register
pub struct ACR;

} // verus!
