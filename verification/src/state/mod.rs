pub mod graph;
pub mod graph_build;
pub mod ingest;
pub mod keyed;
pub mod laws;
pub mod legacy;
pub mod logs;
pub mod model;
pub mod nav;
pub mod overview;
pub mod registry;
pub mod requests;
pub mod sessions;
pub mod snapshot;
pub mod store;
pub mod tabs;
pub mod trace;
