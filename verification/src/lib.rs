//! In-memory model of a layered sprite-animation asset: body-part lexicons,
//! texels (glyph cells), fixed-size animation frames, bounded frame sequences,
//! and the top-level registry with its cursor-based navigation, together with
//! the parsers for the texel-catalog and sprite text formats.

pub mod catalog;
pub mod cursor;
pub mod draw;
pub mod emotion;
pub mod err;
pub mod graphic;
pub mod part;
pub mod posture;
pub mod sheet;
pub mod sprite;
pub mod text;
pub mod texel;
pub mod tuple;
pub mod util;

pub use catalog::{PostureEntry, TexelEntry};
pub use cursor::Cursor;
pub use draw::{Draw, DrawError, SPEC_MAX_PRE_XY, SPEC_MAX_X, SPEC_MAX_XY, SPEC_MAX_Y};
pub use emotion::{Emotion, EmotionError};
pub use err::GraphicError;
pub use graphic::Graphic;
pub use part::{Part, PartError};
pub use posture::{Posture, PostureError};
pub use sheet::{Sheet, SheetError};
pub use sprite::{SPEC_MAX_DRAW, Sprite};
pub use texel::{Texel, TexelError};
pub use tuple::Tuple;
