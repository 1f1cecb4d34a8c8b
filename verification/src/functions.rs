//! Loss functions by name, and the kinds of regularisation.

use vstd::prelude::*;
use vstd::string::*;

verus! {

/// The penalty added to a loss.
#[derive(Clone, Copy, Debug, PartialEq, Eq, Structural)]
pub enum RegType {
    L1,
    L2,
    Elasticnet,
}

/// Binary cross-entropy loss on logits.
#[derive(Debug)]
pub struct CrossEntropy {
    pub id: String,
}

impl CrossEntropy {
    /// A builder with no identifier set.
    pub fn builder<'a>() -> (r: CrossEntropyBuilder<'a>)
        ensures
            r.spec_id() is None,
    {
        CrossEntropyBuilder::new()
    }
}

/// Builder of a `CrossEntropy`.
#[derive(Debug)]
pub struct CrossEntropyBuilder<'a> {
    id: Option<&'a str>,
}

impl<'a> CrossEntropyBuilder<'a> {
    /// The identifier set so far.
    pub closed spec fn spec_id(&self) -> Option<Seq<char>> {
        match self.id {
            Some(id) => Some(id@),
            None => None,
        }
    }

    /// A builder with no identifier set.
    pub fn new() -> (r: Self)
        ensures
            r.spec_id() is None,
    {
        CrossEntropyBuilder { id: None }
    }

    /// Sets the identifier, replacing an earlier one.
    pub fn id(self, id: &'a str) -> (r: Self)
        ensures
            r.spec_id() == Some(id@),
    {
        let mut next = self;
        next.id = Some(id);
        next
    }

    /// The loss under the identifier that was set; a message when none was.
    pub fn build(self) -> (r: Result<CrossEntropy, &'static str>)
        ensures
            match r {
                Ok(loss) => self.spec_id() == Some(loss.id@),
                Err(message) => self.spec_id() is None && message@ == "Missing id value"@,
            },
    {
        match self.id {
            Some(id) => Ok(CrossEntropy { id: id.to_owned() }),
            None => Err("Missing id value"),
        }
    }
}

impl<'a> Default for CrossEntropyBuilder<'a> {
    fn default() -> (r: Self)
        ensures
            r.spec_id() is None,
    {
        CrossEntropyBuilder::new()
    }
}

} // verus!
