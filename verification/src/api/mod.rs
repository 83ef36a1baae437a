//! State kept by an editor front-end for the views it displays.

pub mod editor;
pub mod line_cache;
pub mod patch;
pub mod render;
pub mod style_cache;
pub mod view;
pub mod view_list;
pub mod viewport;

pub use self::editor::Editor;
pub use self::line_cache::{trim_new_line, LineCache};
pub use self::patch::{CacheError, CacheView};
pub use self::render::{CharRef, LineRef};
pub use self::style_cache::StyleCache;
pub use self::view::{get_index_style, render_line_styles, View};
pub use self::view_list::ViewList;
pub use self::viewport::ViewPort;
