pub mod block;
pub mod block_pos;
pub mod direction;
pub mod vec3i;
pub mod buffer;
pub mod codec;
pub mod packets;
pub mod chunk;
pub mod connection;
pub mod demo_world;
pub mod render_section_region;
pub mod material;
pub mod uuid_util;
pub mod model_block_renderer;
pub mod chunk_mesh;
pub mod position;
pub mod block_registry;
pub mod block_state_model;
pub mod block_model_set;
pub mod section_compiler;
pub mod atlas;
pub mod client_state;
pub mod login;
pub mod login_flow;
pub mod world_list;
