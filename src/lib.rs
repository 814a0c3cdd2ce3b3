//! A terminal price ticker: the price model, its text rendering, the
//! request that fetches quotes and the decisions of the interaction loop.

pub mod coin;
pub mod request;
pub mod screen;
pub mod session;
pub mod text;
