//! Examples for the API documentation.
use vstd::prelude::*;

use crate::errors::{Successful, OK};

verus! {

/// A type that can give an example of itself for the API documentation.
pub trait SwaggerExample {
    type Example;

    fn example(value: Option<&str>) -> Self::Example;
}

impl SwaggerExample for Successful {
    type Example = Self;

    /// A success with the given message, or "Done".
    fn example(value: Option<&str>) -> (r: Successful)
        ensures
            r.code == OK,
            r.message@ == match value {
                Some(v) => v@,
                None => "Done"@,
            },
    {
        let msg = match value {
            Some(v) => v,
            None => "Done",
        };
        Successful::new(OK, msg)
    }
}

} // verus!
