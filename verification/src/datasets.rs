//! Descriptions of experiments, feature sets and models, as a configuration
//! names them.

use vstd::prelude::*;

verus! {

/// One experiment of a configuration.
#[derive(Clone, Debug)]
pub struct ExpConfig {
    pub id: String,
    pub n_progressions: u32,
    pub n_agents: Option<u32>,
}

/// The families of features a configuration can ask for.
#[derive(Clone, Copy, Debug, PartialEq, Eq, Structural)]
pub enum Features {
    OB,
}

/// The kinds of models a configuration can ask for.
#[derive(Clone, Copy, Debug, PartialEq, Eq, Structural)]
pub enum Models {
    Uniform,
    GBM,
    Hawkes,
    GD,
}

/// Why a dataset could not be produced.
#[derive(Clone, Copy, Debug, PartialEq, Eq, Structural)]
pub enum DatasetError {
    /// The generator of the dataset failed.
    DatasetFailure,
}

impl DatasetError {
    /// Description of the failure.
    pub fn text(&self) -> (r: &'static str)
        ensures
            r@ == "The Datset Generator function failed"@,
    {
        "The Datset Generator function failed"
    }
}

/// A feature set of a configuration.  `V` is the type of its parameter
/// values.
#[derive(Clone, Debug)]
pub struct FeatureConfig<V> {
    pub id: Option<String>,
    pub label: Option<Features>,
    pub description: Option<String>,
    pub params_labels: Option<Vec<String>>,
    pub params_values: Option<Vec<V>>,
}

impl<V> FeatureConfig<V> {
    /// A builder with nothing set.
    pub fn builder() -> (r: FeatureConfigBuilder<V>)
        ensures
            r.id is None,
            r.label is None,
            r.description is None,
            r.params_labels is None,
            r.params_values is None,
    {
        FeatureConfigBuilder::new()
    }
}

/// Builder of a `FeatureConfig`.
#[derive(Clone, Debug)]
pub struct FeatureConfigBuilder<V> {
    pub id: Option<String>,
    pub label: Option<Features>,
    pub description: Option<String>,
    pub params_labels: Option<Vec<String>>,
    pub params_values: Option<Vec<V>>,
}

impl<V> FeatureConfigBuilder<V> {
    /// The message for the first part that is not set, in the order in which
    /// `build` asks for them; nothing when all are set.
    pub open spec fn first_missing(&self) -> Option<Seq<char>> {
        if self.id is None {
            Some("Missing Feature's id"@)
        } else if self.label is None {
            Some("Missing Features's label"@)
        } else if self.description is None {
            Some("Missing Feature's description"@)
        } else if self.params_labels is None {
            Some("Missing Features's params_labels"@)
        } else if self.params_values is None {
            Some("Missing Features's params_values"@)
        } else {
            None
        }
    }

    /// A builder with nothing set.
    pub fn new() -> (r: Self)
        ensures
            r.id is None,
            r.label is None,
            r.description is None,
            r.params_labels is None,
            r.params_values is None,
    {
        FeatureConfigBuilder {
            id: None,
            label: None,
            description: None,
            params_labels: None,
            params_values: None,
        }
    }

    /// Sets the identifier.
    pub fn id(self, id: String) -> (r: Self)
        ensures
            r == (FeatureConfigBuilder { id: Some(id), ..self }),
    {
        let mut next = self;
        next.id = Some(id);
        next
    }

    /// Sets the family of features.
    pub fn label(self, label: Features) -> (r: Self)
        ensures
            r == (FeatureConfigBuilder { label: Some(label), ..self }),
    {
        let mut next = self;
        next.label = Some(label);
        next
    }

    /// Sets the description.
    pub fn description(self, description: String) -> (r: Self)
        ensures
            r == (FeatureConfigBuilder { description: Some(description), ..self }),
    {
        let mut next = self;
        next.description = Some(description);
        next
    }

    /// Sets the names of the parameters.
    pub fn params_labels(self, params_labels: Vec<String>) -> (r: Self)
        ensures
            r == (FeatureConfigBuilder { params_labels: Some(params_labels), ..self }),
    {
        let mut next = self;
        next.params_labels = Some(params_labels);
        next
    }

    /// Sets the values of the parameters.
    pub fn params_values(self, params_values: Vec<V>) -> (r: Self)
        ensures
            r == (FeatureConfigBuilder { params_values: Some(params_values), ..self }),
    {
        let mut next = self;
        next.params_values = Some(params_values);
        next
    }

    /// The feature set with the parts that were set, or the message for the
    /// first part that was not.
    pub fn build(self) -> (r: Result<FeatureConfig<V>, &'static str>)
        ensures
            match r {
                Ok(config) => {
                    &&& self.first_missing() is None
                    &&& config.id == self.id
                    &&& config.label == self.label
                    &&& config.description == self.description
                    &&& config.params_labels == self.params_labels
                    &&& config.params_values == self.params_values
                },
                Err(message) => self.first_missing() == Some(message@),
            },
    {
        let id = match self.id {
            Some(id) => id,
            None => {
                return Err("Missing Feature's id");
            },
        };
        let label = match self.label {
            Some(label) => label,
            None => {
                return Err("Missing Features's label");
            },
        };
        let description = match self.description {
            Some(description) => description,
            None => {
                return Err("Missing Feature's description");
            },
        };
        let params_labels = match self.params_labels {
            Some(params_labels) => params_labels,
            None => {
                return Err("Missing Features's params_labels");
            },
        };
        let params_values = match self.params_values {
            Some(params_values) => params_values,
            None => {
                return Err("Missing Features's params_values");
            },
        };
        Ok(
            FeatureConfig {
                id: Some(id),
                label: Some(label),
                description: Some(description),
                params_labels: Some(params_labels),
                params_values: Some(params_values),
            },
        )
    }
}

impl<V> Default for FeatureConfigBuilder<V> {
    fn default() -> (r: Self)
        ensures
            r.id is None,
            r.label is None,
            r.description is None,
            r.params_labels is None,
            r.params_values is None,
    {
        FeatureConfigBuilder::new()
    }
}

/// A model of a configuration.  `V` is the type of its parameter values.
#[derive(Clone, Debug)]
pub struct ModelConfig<V> {
    pub id: Option<String>,
    pub label: Option<Models>,
    pub description: Option<String>,
    pub params_labels: Option<Vec<String>>,
    pub params_values: Option<Vec<V>>,
    pub seed: Option<u64>,
}

impl<V> ModelConfig<V> {
    /// A builder with nothing set.
    pub fn builder() -> (r: ModelConfigBuilder<V>)
        ensures
            r.id is None,
            r.label is None,
            r.description is None,
            r.params_labels is None,
            r.params_values is None,
            r.seed is None,
    {
        ModelConfigBuilder::new()
    }
}

/// Builder of a `ModelConfig`.
#[derive(Clone, Debug)]
pub struct ModelConfigBuilder<V> {
    pub id: Option<String>,
    pub label: Option<Models>,
    pub description: Option<String>,
    pub params_labels: Option<Vec<String>>,
    pub params_values: Option<Vec<V>>,
    pub seed: Option<u64>,
}

impl<V> ModelConfigBuilder<V> {
    /// The message for the first part that is not set, in the order in which
    /// `build` asks for them; nothing when all are set.
    pub open spec fn first_missing(&self) -> Option<Seq<char>> {
        if self.id is None {
            Some("Missing Model's id"@)
        } else if self.label is None {
            Some("Missing Model's label"@)
        } else if self.description is None {
            Some("Missing Model's description"@)
        } else if self.params_labels is None {
            Some("Missing Model's params_labels"@)
        } else if self.params_values is None {
            Some("Missing Model's params_values"@)
        } else if self.seed is None {
            Some("Missing Model's seed"@)
        } else {
            None
        }
    }

    /// A builder with nothing set.
    pub fn new() -> (r: Self)
        ensures
            r.id is None,
            r.label is None,
            r.description is None,
            r.params_labels is None,
            r.params_values is None,
            r.seed is None,
    {
        ModelConfigBuilder {
            id: None,
            label: None,
            description: None,
            params_labels: None,
            params_values: None,
            seed: None,
        }
    }

    /// Sets the identifier.
    pub fn id(self, id: String) -> (r: Self)
        ensures
            r == (ModelConfigBuilder { id: Some(id), ..self }),
    {
        let mut next = self;
        next.id = Some(id);
        next
    }

    /// Sets the kind of model.
    pub fn label(self, label: Models) -> (r: Self)
        ensures
            r == (ModelConfigBuilder { label: Some(label), ..self }),
    {
        let mut next = self;
        next.label = Some(label);
        next
    }

    /// Sets the description.
    pub fn description(self, description: String) -> (r: Self)
        ensures
            r == (ModelConfigBuilder { description: Some(description), ..self }),
    {
        let mut next = self;
        next.description = Some(description);
        next
    }

    /// Sets the names of the parameters.
    pub fn params_labels(self, params_labels: Vec<String>) -> (r: Self)
        ensures
            r == (ModelConfigBuilder { params_labels: Some(params_labels), ..self }),
    {
        let mut next = self;
        next.params_labels = Some(params_labels);
        next
    }

    /// Sets the values of the parameters.
    pub fn params_values(self, params_values: Vec<V>) -> (r: Self)
        ensures
            r == (ModelConfigBuilder { params_values: Some(params_values), ..self }),
    {
        let mut next = self;
        next.params_values = Some(params_values);
        next
    }

    /// Sets the seed of the random numbers.
    pub fn seed(self, seed: u64) -> (r: Self)
        ensures
            r == (ModelConfigBuilder { seed: Some(seed), ..self }),
    {
        let mut next = self;
        next.seed = Some(seed);
        next
    }

    /// The model with the parts that were set, or the message for the first
    /// part that was not.
    pub fn build(self) -> (r: Result<ModelConfig<V>, &'static str>)
        ensures
            match r {
                Ok(config) => {
                    &&& self.first_missing() is None
                    &&& config.id == self.id
                    &&& config.label == self.label
                    &&& config.description == self.description
                    &&& config.params_labels == self.params_labels
                    &&& config.params_values == self.params_values
                    &&& config.seed == self.seed
                },
                Err(message) => self.first_missing() == Some(message@),
            },
    {
        let id = match self.id {
            Some(id) => id,
            None => {
                return Err("Missing Model's id");
            },
        };
        let label = match self.label {
            Some(label) => label,
            None => {
                return Err("Missing Model's label");
            },
        };
        let description = match self.description {
            Some(description) => description,
            None => {
                return Err("Missing Model's description");
            },
        };
        let params_labels = match self.params_labels {
            Some(params_labels) => params_labels,
            None => {
                return Err("Missing Model's params_labels");
            },
        };
        let params_values = match self.params_values {
            Some(params_values) => params_values,
            None => {
                return Err("Missing Model's params_values");
            },
        };
        let seed = match self.seed {
            Some(seed) => seed,
            None => {
                return Err("Missing Model's seed");
            },
        };
        Ok(
            ModelConfig {
                id: Some(id),
                label: Some(label),
                description: Some(description),
                params_labels: Some(params_labels),
                params_values: Some(params_values),
                seed: Some(seed),
            },
        )
    }
}

impl<V> Default for ModelConfigBuilder<V> {
    fn default() -> (r: Self)
        ensures
            r.id is None,
            r.label is None,
            r.description is None,
            r.params_labels is None,
            r.params_values is None,
            r.seed is None,
    {
        ModelConfigBuilder::new()
    }
}

} // verus!
