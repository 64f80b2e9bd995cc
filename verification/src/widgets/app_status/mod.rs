pub mod resources;

use vstd::prelude::*;

verus! {

} // verus!
