//! Safe, typed access to the procedure interface of a graph database host.
//!
//! Every call into the host goes through one seam, the trait [`mgp::Host`]
//! behind a [`memgraph::Memgraph`], which keeps a ghost trace of the exchanges
//! made. The contracts of the wrappers built on it say which calls are made,
//! in which order, and what is returned for every possible answer of the
//! host; they also keep an account of the objects that the host allocated for
//! this layer, so that each of them is seen to be handed back.

pub mod cursor;
pub mod edge;
pub mod laws;
pub mod list;
pub mod map;
pub mod memgraph;
pub mod mgp;
pub mod particle_filtering;
pub mod path;
pub mod procedure;
pub mod property;
pub mod record;
pub mod result;
pub mod scripted;
pub mod status;
pub mod temporal;
pub mod text;
pub mod value;
pub mod vertex;
