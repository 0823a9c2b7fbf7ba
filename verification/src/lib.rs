//! Annotate the elements of a pull-based sequence with boolean flags that say
//! whether each element is the first, the last, or both, in the sequence.
//!
//! The library offers three adapters over any [`producer::SequenceProducer`]:
//! [`adapters::IdentifyFirst`] pairs each element with an is-first flag,
//! [`adapters::IdentifyLast`] pairs each element with an is-last flag using a
//! single element of look-ahead, and [`adapters::IdentifyFirstLast`] combines
//! the two into a triple per element. They are reached through the extension
//! trait [`adapters::IteratorIdentifyFirstLastExt`].

pub mod adapters;
pub mod marks;
pub mod producer;

pub use adapters::IdentifyFirst;
pub use adapters::IdentifyFirstLast;
pub use adapters::IdentifyLast;
pub use adapters::IteratorIdentifyFirstLastExt;
pub use producer::SequenceProducer;
pub use producer::VecProducer;
pub use producer::collect_all;
