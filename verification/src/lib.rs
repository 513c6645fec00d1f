//! Deterministic random raster fields.
//!
//! A field is a row-major buffer of RGB samples whose every pixel is drawn
//! from a xorshift stream. Each row owns a generator derived from the seed,
//! so rows can be filled in any order, or at the same time, and the result
//! is still a function of the seed, the dimensions and the colour mode.

pub mod choice;
pub mod duration;
pub mod error;
pub mod field;
pub mod generator;
pub mod laws;
pub mod pixel;
pub mod raster;
pub mod schedule;

pub use choice::lookup_name;
pub use duration::format_duration;
pub use error::FieldError;
pub use field::{
    checked_area, fill_field, fill_row, fill_rows_in_order, fill_segment, generate_field,
    generate_random_pixels,
};
pub use generator::XorShift32;
pub use pixel::{encode_pixel, pixel_colorful, pixel_grayscale, GenerationMode, PixelSample};
pub use raster::{
    convert_pixels_to_image_buffer, encode_png, encoding_outcome, flatten_pixels, RgbImage,
};
pub use schedule::{master_state, row_state, schedule_rows};
