# css_parser

Parsing of CSS `border-radius` and background-color values, verified with Verus.

- `src/text.rs`: string equality, whitespace splitting and the character
  classes that the parsers use.
- `src/border_radius.rs`: splitting a value such as `1.2em` into its unit and
  the text of its number, splitting a `border-radius` property into its one to
  four values, reading them in order until the first that fails, and
  assigning the numbers to the corners of a box.
- `src/color.rs`: hex colors (`#RGB`, `#RGBA`, `#RRGGBB`, `#RRGGBBAA`) and
  named colors, with the laws that relate the short and long hex forms.
- `src/named_colors.rs`: the table of named colors.
- `app/lib.rs`: the floating-point part (numbers and `em` lengths) and the
  conversion to webrender's `BorderRadius` and `ColorU`.
