//! The application entry object. It carries no state of its own: the
//! configuration record is passed explicitly into the components, and the
//! running loops live with the I/O shell around this library.

use vstd::prelude::*;

verus! {

/// The stateless application object.
#[derive(Clone, Copy, PartialEq, Eq, Structural, Debug)]
pub struct App {}

impl App {
    /// The application instance. Every instance is the same stateless value.
    pub fn instance() -> (r: App)
        ensures
            r == (App {  }),
    {
        App::new()
    }

    /// Construct the application object.
    pub fn new() -> (r: App)
        ensures
            r == (App {  }),
    {
        App {  }
    }
}

} // verus!
