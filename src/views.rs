//! The handler boundary: a view named by a route turns a matched request and
//! its parameters into a response.

use vstd::prelude::*;
use vstd::view::View as _;
use crate::routing::{not_found, Request, Response};

verus! {

/// A handler, named by an opaque path that the handler runtime resolves.
pub struct View<'a> {
    py_path: &'a str,
}

impl<'a> View<'a> {
    /// The path that names the handler.
    pub closed spec fn handler(&self) -> Seq<char> {
        self.py_path@
    }

    pub fn new(py_path: &'a str) -> (r: View<'a>)
        ensures
            r.handler() == py_path@,
    {
        View { py_path }
    }

    /// The response of the handler. No handler runtime is wired in, so every
    /// request gets the default "not found" response.
    pub fn get_response(
        &self,
        request: &Request,
        params: &Vec<(String, Option<String>)>,
    ) -> (r: Response)
        ensures
            r@ == not_found(),
    {
        Response::new()
    }
}

} // verus!
