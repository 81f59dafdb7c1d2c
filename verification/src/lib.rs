//! Route-driven preload-and-render pipeline for a client-side story-listing
//! application.
//!
//! The library maps a URL path to a typed route descriptor ([`route`]), plans
//! the one data fetch that route requires ([`preload`]), composes the fetched
//! data into a view tree ([`view`]), and keeps the single current-view slot
//! consistent across overlapping navigations ([`nav`]). The remote API client
//! and the markup layer are external collaborators: the shell around this
//! library performs the actual fetches and turns the composed view tree into
//! markup, while every decision in between is made here, under contract.

pub mod data;
pub mod nav;
pub mod preload;
pub mod route;
pub mod view;
