//! Validated training hyperparameters and the device-selection rule.

use vstd::prelude::*;

verus! {

/// The six hyperparameter fields a run is configured with.
#[derive(Clone, Copy, Debug, PartialEq, Eq, Structural)]
pub enum ConfigField {
    /// Size of one training batch.
    BatchSize,
    /// Size of one evaluation chunk.
    TestBatchSize,
    /// How many passes over the training set to run at most.
    Epochs,
    /// The optimizer's learning rate.
    LearningRate,
    /// Whether to prefer an accelerator device when one is available.
    UseAccelerator,
    /// Every how many batches an accuracy sample is taken.
    LogInterval,
}

/// Why a configuration was rejected at startup.
#[derive(Clone, Copy, Debug, PartialEq, Eq, Structural)]
pub enum ConfigError {
    /// The field was not supplied at all.
    Missing(ConfigField),
    /// The field was supplied with a value outside its allowed range.
    OutOfRange(ConfigField),
}

/// A validated set of training hyperparameters, immutable once built.
///
/// The learning rate is validated here (present and positive) but its
/// numeric value never steers the control loop: it goes straight to the
/// external optimizer, so this type does not carry it.
#[derive(Clone, Copy, Debug, PartialEq, Eq, Structural)]
pub struct Config {
    /// Size of one training batch; at least 1.
    pub batch_size: i64,
    /// Size of one evaluation chunk; at least 1.
    pub test_batch_size: i64,
    /// Upper bound on the number of epochs; zero means no training at all.
    pub epochs: i64,
    /// Whether to prefer an accelerator device when one is available.
    pub use_accelerator: bool,
    /// An accuracy sample is taken at every batch whose within-epoch
    /// iteration number is an exact multiple of this; at least 1.
    pub log_interval: i64,
}

impl Config {
    /// The ranges the six fields must lie in.
    pub open spec fn wf(self) -> bool {
        &&& self.batch_size >= 1
        &&& self.test_batch_size >= 1
        &&& self.epochs >= 0
        &&& self.log_interval >= 1
    }

    /// What `build` returns for each combination of supplied fields:
    /// fields are checked in declaration order, and the first missing or
    /// out-of-range one names the error.
    pub open spec fn spec_build(
        batch_size: Option<i64>,
        test_batch_size: Option<i64>,
        epochs: Option<i64>,
        lr_positive: Option<bool>,
        use_accelerator: Option<bool>,
        log_interval: Option<i64>,
    ) -> Result<Config, ConfigError> {
        if batch_size is None {
            Err(ConfigError::Missing(ConfigField::BatchSize))
        } else if batch_size->0 < 1 {
            Err(ConfigError::OutOfRange(ConfigField::BatchSize))
        } else if test_batch_size is None {
            Err(ConfigError::Missing(ConfigField::TestBatchSize))
        } else if test_batch_size->0 < 1 {
            Err(ConfigError::OutOfRange(ConfigField::TestBatchSize))
        } else if epochs is None {
            Err(ConfigError::Missing(ConfigField::Epochs))
        } else if epochs->0 < 0 {
            Err(ConfigError::OutOfRange(ConfigField::Epochs))
        } else if lr_positive is None {
            Err(ConfigError::Missing(ConfigField::LearningRate))
        } else if !lr_positive->0 {
            Err(ConfigError::OutOfRange(ConfigField::LearningRate))
        } else if use_accelerator is None {
            Err(ConfigError::Missing(ConfigField::UseAccelerator))
        } else if log_interval is None {
            Err(ConfigError::Missing(ConfigField::LogInterval))
        } else if log_interval->0 < 1 {
            Err(ConfigError::OutOfRange(ConfigField::LogInterval))
        } else {
            Ok(Config {
                batch_size: batch_size->0,
                test_batch_size: test_batch_size->0,
                epochs: epochs->0,
                use_accelerator: use_accelerator->0,
                log_interval: log_interval->0,
            })
        }
    }

    /// Validates the raw fields read from the configuration input.
    ///
    /// `None` marks a field that was not supplied; any such field is a
    /// startup failure. The learning rate is a floating-point value owned
    /// by the external optimizer, so only the one fact validation reads is
    /// taken: `lr_positive` is whether the supplied rate is positive.
    pub fn build(
        batch_size: Option<i64>,
        test_batch_size: Option<i64>,
        epochs: Option<i64>,
        lr_positive: Option<bool>,
        use_accelerator: Option<bool>,
        log_interval: Option<i64>,
    ) -> (r: Result<Config, ConfigError>)
        ensures
            r == Self::spec_build(
                batch_size,
                test_batch_size,
                epochs,
                lr_positive,
                use_accelerator,
                log_interval,
            ),
            r is Ok <==> ((batch_size matches Some(b) && b >= 1)
                && (test_batch_size matches Some(t) && t >= 1)
                && (epochs matches Some(e) && e >= 0)
                && lr_positive == Some(true)
                && use_accelerator is Some
                && (log_interval matches Some(l) && l >= 1)),
            r matches Ok(c) ==> c.wf(),
            r matches Ok(c) ==> (Some(c.batch_size) == batch_size
                && Some(c.test_batch_size) == test_batch_size
                && Some(c.epochs) == epochs
                && Some(c.use_accelerator) == use_accelerator
                && Some(c.log_interval) == log_interval),
    {
        match batch_size {
            None => { return Err(ConfigError::Missing(ConfigField::BatchSize)); },
            Some(b) => {
                if b < 1 {
                    return Err(ConfigError::OutOfRange(ConfigField::BatchSize));
                }
            },
        }
        match test_batch_size {
            None => { return Err(ConfigError::Missing(ConfigField::TestBatchSize)); },
            Some(t) => {
                if t < 1 {
                    return Err(ConfigError::OutOfRange(ConfigField::TestBatchSize));
                }
            },
        }
        match epochs {
            None => { return Err(ConfigError::Missing(ConfigField::Epochs)); },
            Some(e) => {
                if e < 0 {
                    return Err(ConfigError::OutOfRange(ConfigField::Epochs));
                }
            },
        }
        match lr_positive {
            None => { return Err(ConfigError::Missing(ConfigField::LearningRate)); },
            Some(p) => {
                if !p {
                    return Err(ConfigError::OutOfRange(ConfigField::LearningRate));
                }
            },
        }
        if use_accelerator.is_none() {
            return Err(ConfigError::Missing(ConfigField::UseAccelerator));
        }
        match log_interval {
            None => { return Err(ConfigError::Missing(ConfigField::LogInterval)); },
            Some(l) => {
                if l < 1 {
                    return Err(ConfigError::OutOfRange(ConfigField::LogInterval));
                }
            },
        }
        Ok(Config {
            batch_size: batch_size.unwrap(),
            test_batch_size: test_batch_size.unwrap(),
            epochs: epochs.unwrap(),
            use_accelerator: use_accelerator.unwrap(),
            log_interval: log_interval.unwrap(),
        })
    }
}

/// Where the numeric work runs.
#[derive(Clone, Copy, Debug, PartialEq, Eq, Structural)]
pub enum DeviceChoice {
    /// The accelerator the backend reports as available.
    Accelerator,
    /// The host processor.
    Cpu,
}

/// Picks the device once at startup: the accelerator exactly when the
/// configuration asks for one and the backend reports one available.
pub fn select_device(use_accelerator: bool, accelerator_available: bool) -> (d: DeviceChoice)
    ensures
        d is Accelerator <==> use_accelerator && accelerator_available,
        d is Cpu <==> !(use_accelerator && accelerator_available),
{
    if use_accelerator && accelerator_available {
        DeviceChoice::Accelerator
    } else {
        DeviceChoice::Cpu
    }
}

} // verus!
