//! A small-string-optimized owned string type.
//!
//! [`SsoString`](sso::SsoString) behaves like an owned growable UTF-8 string
//! while choosing among three representations: short content is held inline,
//! content borrowed from memory that lives for the whole program is shared
//! without copying, and everything else owns an independently sized heap
//! buffer that grows geometrically on append. Equality, ordering and hashing
//! are defined on content alone, never on the representation.

pub mod laws;
pub mod order;
pub mod precond;
pub mod search;
pub mod sso;
pub mod text;

pub use precond::SsosPrecond;
pub use precond::SsosPrecondType;
pub use sso::SsoString;
pub use sso::SsoStringable;
