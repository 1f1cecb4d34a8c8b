//! Gradient descent and its builder.

use vstd::prelude::*;

verus! {

/// Plain gradient descent.  `R` is the type of the learning rate.
#[derive(Debug)]
pub struct GradientDescent<R> {
    pub id: String,
    pub learning_rate: R,
}

impl<R> GradientDescent<R> {
    /// A builder with nothing set.
    pub fn builder() -> (r: GradientDescentBuilder<R>)
        ensures
            r.spec_id() is None,
            r.spec_learning_rate() is None,
    {
        GradientDescentBuilder::new()
    }
}

/// Builder of a `GradientDescent`.
pub struct GradientDescentBuilder<R> {
    id: Option<String>,
    learning_rate: Option<R>,
}

impl<R> GradientDescentBuilder<R> {
    /// The identifier set so far.
    pub closed spec fn spec_id(&self) -> Option<String> {
        self.id
    }

    /// The learning rate set so far.
    pub closed spec fn spec_learning_rate(&self) -> Option<R> {
        self.learning_rate
    }

    /// A builder with nothing set.
    pub fn new() -> (r: Self)
        ensures
            r.spec_id() is None,
            r.spec_learning_rate() is None,
    {
        GradientDescentBuilder { id: None, learning_rate: None }
    }

    /// Sets the identifier.
    pub fn id(self, id: String) -> (r: Self)
        ensures
            r.spec_id() == Some(id),
            r.spec_learning_rate() == self.spec_learning_rate(),
    {
        let mut next = self;
        next.id = Some(id);
        next
    }

    /// Sets the learning rate.
    pub fn learning_rate(self, lr: R) -> (r: Self)
        ensures
            r.spec_learning_rate() == Some(lr),
            r.spec_id() == self.spec_id(),
    {
        let mut next = self;
        next.learning_rate = Some(lr);
        next
    }

    /// The optimiser with the identifier and the learning rate that were set,
    /// or a message naming the first of the two that was not.
    pub fn build(self) -> (r: Result<GradientDescent<R>, &'static str>)
        ensures
            match r {
                Ok(optimizer) => self.spec_id() == Some(optimizer.id)
                    && self.spec_learning_rate() == Some(optimizer.learning_rate),
                Err(message) => if self.spec_id() is None {
                    message@ == "Missing id"@
                } else {
                    self.spec_learning_rate() is None && message@ == "Missing learning_rate"@
                },
            },
    {
        let id = match self.id {
            Some(id) => id,
            None => {
                return Err("Missing id");
            },
        };
        let learning_rate = match self.learning_rate {
            Some(learning_rate) => learning_rate,
            None => {
                return Err("Missing learning_rate");
            },
        };
        Ok(GradientDescent { id, learning_rate })
    }
}

impl<R> Default for GradientDescentBuilder<R> {
    fn default() -> (r: Self)
        ensures
            r.spec_id() is None,
            r.spec_learning_rate() is None,
    {
        GradientDescentBuilder::new()
    }
}

} // verus!
