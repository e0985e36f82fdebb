//! A software 2D pixel-buffer compositor with a small component-based scene
//! graph: RGBA colors with alpha-over blending, sprite and camera buffers,
//! atlas slicing, animation frame stepping, and per-frame update/render
//! dispatch over named game objects.

pub mod color;
pub mod math;
pub mod buffer;
pub mod image_buffer;
pub mod animation;
pub mod frame;
pub mod input;
pub mod object;
pub mod game;

pub use animation::Animation;
pub use buffer::{Buffer, BufferAtlas, BufferProvider};
pub use color::Color;
pub use frame::FrameInfo;
pub use game::GameState;
pub use image_buffer::{CamBuffer, SingleImageBuffer};
pub use input::InputInfo;
pub use math::{Transform, Vec2i, Vec2u};
pub use object::{GameComponent, GameObject};
