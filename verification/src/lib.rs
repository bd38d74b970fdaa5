//! Validated, canonical query strings for an image-search endpoint.
//!
//! A [`Request`] starts with every field unset. Each setter checks the one
//! field it writes and hands back the updated request or an [`Error`]. The
//! finished request renders to a URL that names only the fields that were
//! set to something other than the endpoint's default, always in the same
//! order:
//!
//! ```text
//! Request::default()
//!     .category(Category::R18)
//!     .num(1)?
//!     .uid(&[16731])?
//!     .to_string()
//! // https://api.example.app/setu/v2?&content-rating-key=1&result-count-key=1&author-ids-key=16731
//! ```

use vstd::prelude::*;

pub mod convert;
pub mod datatype;
pub mod decimal;
pub mod laws;
pub mod request;
pub mod text;

pub use datatype::{Category, Error, ErrorView, Field, ImageSize};
pub use request::{Request, RequestView, Setting};

verus! {

/// A chain of setters in which every fallible one is handed a value outside
/// its domain: no sizes, no author ids, and a result count of 200.
///
/// A chain ends at its first rejection. What comes back is therefore the
/// complaint about the empty list of sizes; the setters behind it never see
/// their values.
pub fn out_of_range() -> (r: Result<(), Error>)
    ensures
        r matches Err(e) && e@ == (ErrorView::InvalidLength {
            field: Field::Size.name(),
            bounds: datatype::closed(1, 5),
            actual_len: 0,
        }),
{
    let _ = Request::default().size(&[])?.uid(&[])?.category(Category::R18).num(200)?;
    Ok(())
}

} // verus!
