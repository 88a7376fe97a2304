//! Routing and configuration for performance-point and star-rating
//! calculations: which calculator family scores a play, what is handed to
//! it, and how boundary inputs are validated on the way.
pub mod boundary;
pub mod context;
pub mod error;
pub mod laws;
pub mod variant;
