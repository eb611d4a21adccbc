//! Parsing of CSS values (border radii and background colors) into plain
//! values: the parsing logic is verified, the conversion of numbers to
//! floating point and to renderer types is left to the caller.

pub mod border_radius;
pub mod color;
pub mod named_colors;
pub mod text;

pub use border_radius::{
    assign_corners, border_radius_components, compose_border_radius, read_border_radius_values,
    split_single_css_value, try_split_single_css_value, BorderCorners, CssBorderRadiusParseError,
    CssMetric, PixelValueText,
};
pub use color::{
    parse_background_color, parse_background_color_builtin, parse_css_background_color, ColorU,
    CssColorParseError,
};
pub use named_colors::find_named_color;
pub use text::{is_whitespace_char, split_whitespace, str_eq};
