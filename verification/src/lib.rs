//! freddie: typed keyboard events, triggers that match them, and the small state machines that
//! remap and sequence them; paths into a model tree and the bind dispatch that walks them; the
//! decisions of the single-instance lock, the event socket and the log; and the menu-bar glyph.

pub mod trigger;
pub mod text;
pub mod keys;
pub mod remaps;
pub mod sync;
pub mod timer;
pub mod sequence;
pub mod key_code;
pub mod keyboard;
pub mod log_target;
pub mod origin;
pub mod windows_types;
pub mod instance;
pub mod laserbeam;

pub mod bind;
pub mod icon;
