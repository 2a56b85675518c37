//! Dynamic property system built around unique per-property identities.
//!
//! A [`PropertyCollection`] holds at most one value per property identity,
//! where an identity is a caller-chosen tag that stands for one nominal
//! property type.  Every slot carries an ordered list of subscriber handles;
//! each successful assignment reports, in registration order, the handles
//! that must be notified of the newly stored value.
//!
//! The collection never invokes subscriber code itself: it returns the
//! firing order as data, and the surrounding program dispatches to whatever
//! callbacks it associates with the handles.  This keeps the whole store,
//! including the notification order, inside the verified core.

pub mod property;
pub mod property_collection;

pub use property::Property;
pub use property_collection::PropertyCollection;
pub use property_collection::PropertyError;
