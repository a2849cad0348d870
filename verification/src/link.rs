//! A succinct argument for linear subspaces: knowledge of `x` with `y = M x`
//! for a sparse matrix `M` of group elements. It proves knowledge of the
//! openings of several Pedersen commitments, and that some of the committed
//! values are equal.

pub mod snark;
pub mod utils;

pub use snark::{PESubspaceSnark, Row, EK, PP, VK};
pub use utils::{inner_product, multiples_of_g, scale_vector};
