use vstd::prelude::*;

use crate::asgispec::ASGIScope;

verus! {

/// The scope handed to the application for the process-wide lifespan phase.
#[derive(Debug, Clone)]
pub struct LifespanScope<S: Clone + Send + Sync> {
    pub type_: String,
    pub asgi: ASGIScope,
    pub state: S,
}

impl<S: Clone + Send + Sync> LifespanScope<S> {
    pub fn new(state: S) -> (r: Self)
        ensures
            r.type_@ == "lifespan"@,
            r.asgi.is_current(),
            r.state == state,
    {
        LifespanScope { type_: "lifespan".to_owned(), asgi: ASGIScope::new(), state }
    }
}

} // verus!
