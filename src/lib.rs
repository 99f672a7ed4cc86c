pub mod map;
pub mod map_factory;
pub mod poll;
pub mod service;

pub use map::{accepts_every, MapFuture, MapService};
pub use map_factory::{MapServiceFactory, MapServiceFuture};
pub use poll::{Poll, Pollable};
pub use service::{Service, ServiceFactory};
