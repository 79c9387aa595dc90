pub mod cell;
pub mod draw;
pub mod generator;
pub mod laws;
pub mod policy;
pub mod render;

pub use cell::CellResult;
pub use draw::cell_spec;
pub use draw::gen_cell;
pub use generator::gen_chunk_post;
pub use generator::Generator;
pub use generator::CHUNK_SIZE;
pub use policy::classify_cell;
pub use policy::classify_spec;
pub use render::dump_chunk;
