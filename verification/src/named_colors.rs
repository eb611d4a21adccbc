//! The named colors of CSS, each under its CamelCase name and its
//! lower-case hyphenated name, with the hex digits of its color.

use vstd::prelude::*;

use crate::text::str_eq;

verus! {

/// The hex digits of a named color from `AliceBlue` to `DarkGray`.
pub open spec fn named_color_part_0(name: Seq<char>) -> Option<Seq<char>> {
    if name == "AliceBlue"@ || name == "alice-blue"@ {
        Some("F0F8FF"@)
    } else if name == "AntiqueWhite"@ || name == "antique-white"@ {
        Some("FAEBD7"@)
    } else if name == "Aqua"@ || name == "aqua"@ {
        Some("00FFFF"@)
    } else if name == "Aquamarine"@ || name == "aquamarine"@ {
        Some("7FFFD4"@)
    } else if name == "Azure"@ || name == "azure"@ {
        Some("F0FFFF"@)
    } else if name == "Beige"@ || name == "beige"@ {
        Some("F5F5DC"@)
    } else if name == "Bisque"@ || name == "bisque"@ {
        Some("FFE4C4"@)
    } else if name == "Black"@ || name == "black"@ {
        Some("000000"@)
    } else if name == "BlanchedAlmond"@ || name == "blanched-almond"@ {
        Some("FFEBCD"@)
    } else if name == "Blue"@ || name == "blue"@ {
        Some("0000FF"@)
    } else if name == "BlueViolet"@ || name == "blue-violet"@ {
        Some("8A2BE2"@)
    } else if name == "Brown"@ || name == "brown"@ {
        Some("A52A2A"@)
    } else if name == "BurlyWood"@ || name == "burly-wood"@ {
        Some("DEB887"@)
    } else if name == "CadetBlue"@ || name == "cadet-blue"@ {
        Some("5F9EA0"@)
    } else if name == "Chartreuse"@ || name == "chartreuse"@ {
        Some("7FFF00"@)
    } else if name == "Chocolate"@ || name == "chocolate"@ {
        Some("D2691E"@)
    } else if name == "Coral"@ || name == "coral"@ {
        Some("FF7F50"@)
    } else if name == "CornflowerBlue"@ || name == "cornflower-blue"@ {
        Some("6495ED"@)
    } else if name == "Cornsilk"@ || name == "cornsilk"@ {
        Some("FFF8DC"@)
    } else if name == "Crimson"@ || name == "crimson"@ {
        Some("DC143C"@)
    } else if name == "Cyan"@ || name == "cyan"@ {
        Some("00FFFF"@)
    } else if name == "DarkBlue"@ || name == "dark-blue"@ {
        Some("00008B"@)
    } else if name == "DarkCyan"@ || name == "dark-cyan"@ {
        Some("008B8B"@)
    } else if name == "DarkGoldenRod"@ || name == "dark-golden-rod"@ {
        Some("B8860B"@)
    } else if name == "DarkGray"@ || name == "dark-gray"@ {
        Some("A9A9A9"@)
    } else {
        None
    }
}

/// Looks up a name among the colors of `named_color_part_0`.
fn find_named_color_part_0(name: &str) -> (r: Option<&'static str>)
    ensures
        match r {
            Some(h) => named_color_part_0(name@) == Some(h@),
            None => named_color_part_0(name@) is None,
        },
{
    if str_eq(name, "AliceBlue") || str_eq(name, "alice-blue") {
        Some("F0F8FF")
    } else if str_eq(name, "AntiqueWhite") || str_eq(name, "antique-white") {
        Some("FAEBD7")
    } else if str_eq(name, "Aqua") || str_eq(name, "aqua") {
        Some("00FFFF")
    } else if str_eq(name, "Aquamarine") || str_eq(name, "aquamarine") {
        Some("7FFFD4")
    } else if str_eq(name, "Azure") || str_eq(name, "azure") {
        Some("F0FFFF")
    } else if str_eq(name, "Beige") || str_eq(name, "beige") {
        Some("F5F5DC")
    } else if str_eq(name, "Bisque") || str_eq(name, "bisque") {
        Some("FFE4C4")
    } else if str_eq(name, "Black") || str_eq(name, "black") {
        Some("000000")
    } else if str_eq(name, "BlanchedAlmond") || str_eq(name, "blanched-almond") {
        Some("FFEBCD")
    } else if str_eq(name, "Blue") || str_eq(name, "blue") {
        Some("0000FF")
    } else if str_eq(name, "BlueViolet") || str_eq(name, "blue-violet") {
        Some("8A2BE2")
    } else if str_eq(name, "Brown") || str_eq(name, "brown") {
        Some("A52A2A")
    } else if str_eq(name, "BurlyWood") || str_eq(name, "burly-wood") {
        Some("DEB887")
    } else if str_eq(name, "CadetBlue") || str_eq(name, "cadet-blue") {
        Some("5F9EA0")
    } else if str_eq(name, "Chartreuse") || str_eq(name, "chartreuse") {
        Some("7FFF00")
    } else if str_eq(name, "Chocolate") || str_eq(name, "chocolate") {
        Some("D2691E")
    } else if str_eq(name, "Coral") || str_eq(name, "coral") {
        Some("FF7F50")
    } else if str_eq(name, "CornflowerBlue") || str_eq(name, "cornflower-blue") {
        Some("6495ED")
    } else if str_eq(name, "Cornsilk") || str_eq(name, "cornsilk") {
        Some("FFF8DC")
    } else if str_eq(name, "Crimson") || str_eq(name, "crimson") {
        Some("DC143C")
    } else if str_eq(name, "Cyan") || str_eq(name, "cyan") {
        Some("00FFFF")
    } else if str_eq(name, "DarkBlue") || str_eq(name, "dark-blue") {
        Some("00008B")
    } else if str_eq(name, "DarkCyan") || str_eq(name, "dark-cyan") {
        Some("008B8B")
    } else if str_eq(name, "DarkGoldenRod") || str_eq(name, "dark-golden-rod") {
        Some("B8860B")
    } else if str_eq(name, "DarkGray") || str_eq(name, "dark-gray") {
        Some("A9A9A9")
    } else {
        None
    }
}

/// The hex digits of a named color from `DarkGrey` to `Gainsboro`.
pub open spec fn named_color_part_1(name: Seq<char>) -> Option<Seq<char>> {
    if name == "DarkGrey"@ || name == "dark-grey"@ {
        Some("A9A9A9"@)
    } else if name == "DarkGreen"@ || name == "dark-green"@ {
        Some("006400"@)
    } else if name == "DarkKhaki"@ || name == "dark-khaki"@ {
        Some("BDB76B"@)
    } else if name == "DarkMagenta"@ || name == "dark-magenta"@ {
        Some("8B008B"@)
    } else if name == "DarkOliveGreen"@ || name == "dark-olive-green"@ {
        Some("556B2F"@)
    } else if name == "DarkOrange"@ || name == "dark-orange"@ {
        Some("FF8C00"@)
    } else if name == "DarkOrchid"@ || name == "dark-orchid"@ {
        Some("9932CC"@)
    } else if name == "DarkRed"@ || name == "dark-red"@ {
        Some("8B0000"@)
    } else if name == "DarkSalmon"@ || name == "dark-salmon"@ {
        Some("E9967A"@)
    } else if name == "DarkSeaGreen"@ || name == "dark-sea-green"@ {
        Some("8FBC8F"@)
    } else if name == "DarkSlateBlue"@ || name == "dark-slate-blue"@ {
        Some("483D8B"@)
    } else if name == "DarkSlateGray"@ || name == "dark-slate-gray"@ {
        Some("2F4F4F"@)
    } else if name == "DarkSlateGrey"@ || name == "dark-slate-grey"@ {
        Some("2F4F4F"@)
    } else if name == "DarkTurquoise"@ || name == "dark-turquoise"@ {
        Some("00CED1"@)
    } else if name == "DarkViolet"@ || name == "dark-violet"@ {
        Some("9400D3"@)
    } else if name == "DeepPink"@ || name == "deep-pink"@ {
        Some("FF1493"@)
    } else if name == "DeepSkyBlue"@ || name == "deep-sky-blue"@ {
        Some("00BFFF"@)
    } else if name == "DimGray"@ || name == "dim-gray"@ {
        Some("696969"@)
    } else if name == "DimGrey"@ || name == "dim-grey"@ {
        Some("696969"@)
    } else if name == "DodgerBlue"@ || name == "dodger-blue"@ {
        Some("1E90FF"@)
    } else if name == "FireBrick"@ || name == "fire-brick"@ {
        Some("B22222"@)
    } else if name == "FloralWhite"@ || name == "floral-white"@ {
        Some("FFFAF0"@)
    } else if name == "ForestGreen"@ || name == "forest-green"@ {
        Some("228B22"@)
    } else if name == "Fuchsia"@ || name == "fuchsia"@ {
        Some("FF00FF"@)
    } else if name == "Gainsboro"@ || name == "gainsboro"@ {
        Some("DCDCDC"@)
    } else {
        None
    }
}

/// Looks up a name among the colors of `named_color_part_1`.
fn find_named_color_part_1(name: &str) -> (r: Option<&'static str>)
    ensures
        match r {
            Some(h) => named_color_part_1(name@) == Some(h@),
            None => named_color_part_1(name@) is None,
        },
{
    if str_eq(name, "DarkGrey") || str_eq(name, "dark-grey") {
        Some("A9A9A9")
    } else if str_eq(name, "DarkGreen") || str_eq(name, "dark-green") {
        Some("006400")
    } else if str_eq(name, "DarkKhaki") || str_eq(name, "dark-khaki") {
        Some("BDB76B")
    } else if str_eq(name, "DarkMagenta") || str_eq(name, "dark-magenta") {
        Some("8B008B")
    } else if str_eq(name, "DarkOliveGreen") || str_eq(name, "dark-olive-green") {
        Some("556B2F")
    } else if str_eq(name, "DarkOrange") || str_eq(name, "dark-orange") {
        Some("FF8C00")
    } else if str_eq(name, "DarkOrchid") || str_eq(name, "dark-orchid") {
        Some("9932CC")
    } else if str_eq(name, "DarkRed") || str_eq(name, "dark-red") {
        Some("8B0000")
    } else if str_eq(name, "DarkSalmon") || str_eq(name, "dark-salmon") {
        Some("E9967A")
    } else if str_eq(name, "DarkSeaGreen") || str_eq(name, "dark-sea-green") {
        Some("8FBC8F")
    } else if str_eq(name, "DarkSlateBlue") || str_eq(name, "dark-slate-blue") {
        Some("483D8B")
    } else if str_eq(name, "DarkSlateGray") || str_eq(name, "dark-slate-gray") {
        Some("2F4F4F")
    } else if str_eq(name, "DarkSlateGrey") || str_eq(name, "dark-slate-grey") {
        Some("2F4F4F")
    } else if str_eq(name, "DarkTurquoise") || str_eq(name, "dark-turquoise") {
        Some("00CED1")
    } else if str_eq(name, "DarkViolet") || str_eq(name, "dark-violet") {
        Some("9400D3")
    } else if str_eq(name, "DeepPink") || str_eq(name, "deep-pink") {
        Some("FF1493")
    } else if str_eq(name, "DeepSkyBlue") || str_eq(name, "deep-sky-blue") {
        Some("00BFFF")
    } else if str_eq(name, "DimGray") || str_eq(name, "dim-gray") {
        Some("696969")
    } else if str_eq(name, "DimGrey") || str_eq(name, "dim-grey") {
        Some("696969")
    } else if str_eq(name, "DodgerBlue") || str_eq(name, "dodger-blue") {
        Some("1E90FF")
    } else if str_eq(name, "FireBrick") || str_eq(name, "fire-brick") {
        Some("B22222")
    } else if str_eq(name, "FloralWhite") || str_eq(name, "floral-white") {
        Some("FFFAF0")
    } else if str_eq(name, "ForestGreen") || str_eq(name, "forest-green") {
        Some("228B22")
    } else if str_eq(name, "Fuchsia") || str_eq(name, "fuchsia") {
        Some("FF00FF")
    } else if str_eq(name, "Gainsboro") || str_eq(name, "gainsboro") {
        Some("DCDCDC")
    } else {
        None
    }
}

/// The hex digits of a named color from `GhostWhite` to `LightPink`.
pub open spec fn named_color_part_2(name: Seq<char>) -> Option<Seq<char>> {
    if name == "GhostWhite"@ || name == "ghost-white"@ {
        Some("F8F8FF"@)
    } else if name == "Gold"@ || name == "gold"@ {
        Some("FFD700"@)
    } else if name == "GoldenRod"@ || name == "golden-rod"@ {
        Some("DAA520"@)
    } else if name == "Gray"@ || name == "gray"@ {
        Some("808080"@)
    } else if name == "Grey"@ || name == "grey"@ {
        Some("808080"@)
    } else if name == "Green"@ || name == "green"@ {
        Some("008000"@)
    } else if name == "GreenYellow"@ || name == "green-yellow"@ {
        Some("ADFF2F"@)
    } else if name == "HoneyDew"@ || name == "honey-dew"@ {
        Some("F0FFF0"@)
    } else if name == "HotPink"@ || name == "hot-pink"@ {
        Some("FF69B4"@)
    } else if name == "IndianRed"@ || name == "indian-red"@ {
        Some("CD5C5C"@)
    } else if name == "Indigo"@ || name == "indigo"@ {
        Some("4B0082"@)
    } else if name == "Ivory"@ || name == "ivory"@ {
        Some("FFFFF0"@)
    } else if name == "Khaki"@ || name == "khaki"@ {
        Some("F0E68C"@)
    } else if name == "Lavender"@ || name == "lavender"@ {
        Some("E6E6FA"@)
    } else if name == "LavenderBlush"@ || name == "lavender-blush"@ {
        Some("FFF0F5"@)
    } else if name == "LawnGreen"@ || name == "lawn-green"@ {
        Some("7CFC00"@)
    } else if name == "LemonChiffon"@ || name == "lemon-chiffon"@ {
        Some("FFFACD"@)
    } else if name == "LightBlue"@ || name == "light-blue"@ {
        Some("ADD8E6"@)
    } else if name == "LightCoral"@ || name == "light-coral"@ {
        Some("F08080"@)
    } else if name == "LightCyan"@ || name == "light-cyan"@ {
        Some("E0FFFF"@)
    } else if name == "LightGoldenRodYellow"@ || name == "light-golden-rod-yellow"@ {
        Some("FAFAD2"@)
    } else if name == "LightGray"@ || name == "light-gray"@ {
        Some("D3D3D3"@)
    } else if name == "LightGrey"@ || name == "light-grey"@ {
        Some("D3D3D3"@)
    } else if name == "LightGreen"@ || name == "light-green"@ {
        Some("90EE90"@)
    } else if name == "LightPink"@ || name == "light-pink"@ {
        Some("FFB6C1"@)
    } else {
        None
    }
}

/// Looks up a name among the colors of `named_color_part_2`.
fn find_named_color_part_2(name: &str) -> (r: Option<&'static str>)
    ensures
        match r {
            Some(h) => named_color_part_2(name@) == Some(h@),
            None => named_color_part_2(name@) is None,
        },
{
    if str_eq(name, "GhostWhite") || str_eq(name, "ghost-white") {
        Some("F8F8FF")
    } else if str_eq(name, "Gold") || str_eq(name, "gold") {
        Some("FFD700")
    } else if str_eq(name, "GoldenRod") || str_eq(name, "golden-rod") {
        Some("DAA520")
    } else if str_eq(name, "Gray") || str_eq(name, "gray") {
        Some("808080")
    } else if str_eq(name, "Grey") || str_eq(name, "grey") {
        Some("808080")
    } else if str_eq(name, "Green") || str_eq(name, "green") {
        Some("008000")
    } else if str_eq(name, "GreenYellow") || str_eq(name, "green-yellow") {
        Some("ADFF2F")
    } else if str_eq(name, "HoneyDew") || str_eq(name, "honey-dew") {
        Some("F0FFF0")
    } else if str_eq(name, "HotPink") || str_eq(name, "hot-pink") {
        Some("FF69B4")
    } else if str_eq(name, "IndianRed") || str_eq(name, "indian-red") {
        Some("CD5C5C")
    } else if str_eq(name, "Indigo") || str_eq(name, "indigo") {
        Some("4B0082")
    } else if str_eq(name, "Ivory") || str_eq(name, "ivory") {
        Some("FFFFF0")
    } else if str_eq(name, "Khaki") || str_eq(name, "khaki") {
        Some("F0E68C")
    } else if str_eq(name, "Lavender") || str_eq(name, "lavender") {
        Some("E6E6FA")
    } else if str_eq(name, "LavenderBlush") || str_eq(name, "lavender-blush") {
        Some("FFF0F5")
    } else if str_eq(name, "LawnGreen") || str_eq(name, "lawn-green") {
        Some("7CFC00")
    } else if str_eq(name, "LemonChiffon") || str_eq(name, "lemon-chiffon") {
        Some("FFFACD")
    } else if str_eq(name, "LightBlue") || str_eq(name, "light-blue") {
        Some("ADD8E6")
    } else if str_eq(name, "LightCoral") || str_eq(name, "light-coral") {
        Some("F08080")
    } else if str_eq(name, "LightCyan") || str_eq(name, "light-cyan") {
        Some("E0FFFF")
    } else if str_eq(name, "LightGoldenRodYellow") || str_eq(name, "light-golden-rod-yellow") {
        Some("FAFAD2")
    } else if str_eq(name, "LightGray") || str_eq(name, "light-gray") {
        Some("D3D3D3")
    } else if str_eq(name, "LightGrey") || str_eq(name, "light-grey") {
        Some("D3D3D3")
    } else if str_eq(name, "LightGreen") || str_eq(name, "light-green") {
        Some("90EE90")
    } else if str_eq(name, "LightPink") || str_eq(name, "light-pink") {
        Some("FFB6C1")
    } else {
        None
    }
}

/// The hex digits of a named color from `LightSalmon` to `Moccasin`.
pub open spec fn named_color_part_3(name: Seq<char>) -> Option<Seq<char>> {
    if name == "LightSalmon"@ || name == "light-salmon"@ {
        Some("FFA07A"@)
    } else if name == "LightSeaGreen"@ || name == "light-sea-green"@ {
        Some("20B2AA"@)
    } else if name == "LightSkyBlue"@ || name == "light-sky-blue"@ {
        Some("87CEFA"@)
    } else if name == "LightSlateGray"@ || name == "light-slate-gray"@ {
        Some("778899"@)
    } else if name == "LightSlateGrey"@ || name == "light-slate-grey"@ {
        Some("778899"@)
    } else if name == "LightSteelBlue"@ || name == "light-steel-blue"@ {
        Some("B0C4DE"@)
    } else if name == "LightYellow"@ || name == "light-yellow"@ {
        Some("FFFFE0"@)
    } else if name == "Lime"@ || name == "lime"@ {
        Some("00FF00"@)
    } else if name == "LimeGreen"@ || name == "lime-green"@ {
        Some("32CD32"@)
    } else if name == "Linen"@ || name == "linen"@ {
        Some("FAF0E6"@)
    } else if name == "Magenta"@ || name == "magenta"@ {
        Some("FF00FF"@)
    } else if name == "Maroon"@ || name == "maroon"@ {
        Some("800000"@)
    } else if name == "MediumAquaMarine"@ || name == "medium-aqua-marine"@ {
        Some("66CDAA"@)
    } else if name == "MediumBlue"@ || name == "medium-blue"@ {
        Some("0000CD"@)
    } else if name == "MediumOrchid"@ || name == "medium-orchid"@ {
        Some("BA55D3"@)
    } else if name == "MediumPurple"@ || name == "medium-purple"@ {
        Some("9370DB"@)
    } else if name == "MediumSeaGreen"@ || name == "medium-sea-green"@ {
        Some("3CB371"@)
    } else if name == "MediumSlateBlue"@ || name == "medium-slate-blue"@ {
        Some("7B68EE"@)
    } else if name == "MediumSpringGreen"@ || name == "medium-spring-green"@ {
        Some("00FA9A"@)
    } else if name == "MediumTurquoise"@ || name == "medium-turquoise"@ {
        Some("48D1CC"@)
    } else if name == "MediumVioletRed"@ || name == "medium-violet-red"@ {
        Some("C71585"@)
    } else if name == "MidnightBlue"@ || name == "midnight-blue"@ {
        Some("191970"@)
    } else if name == "MintCream"@ || name == "mint-cream"@ {
        Some("F5FFFA"@)
    } else if name == "MistyRose"@ || name == "misty-rose"@ {
        Some("FFE4E1"@)
    } else if name == "Moccasin"@ || name == "moccasin"@ {
        Some("FFE4B5"@)
    } else {
        None
    }
}

/// Looks up a name among the colors of `named_color_part_3`.
fn find_named_color_part_3(name: &str) -> (r: Option<&'static str>)
    ensures
        match r {
            Some(h) => named_color_part_3(name@) == Some(h@),
            None => named_color_part_3(name@) is None,
        },
{
    if str_eq(name, "LightSalmon") || str_eq(name, "light-salmon") {
        Some("FFA07A")
    } else if str_eq(name, "LightSeaGreen") || str_eq(name, "light-sea-green") {
        Some("20B2AA")
    } else if str_eq(name, "LightSkyBlue") || str_eq(name, "light-sky-blue") {
        Some("87CEFA")
    } else if str_eq(name, "LightSlateGray") || str_eq(name, "light-slate-gray") {
        Some("778899")
    } else if str_eq(name, "LightSlateGrey") || str_eq(name, "light-slate-grey") {
        Some("778899")
    } else if str_eq(name, "LightSteelBlue") || str_eq(name, "light-steel-blue") {
        Some("B0C4DE")
    } else if str_eq(name, "LightYellow") || str_eq(name, "light-yellow") {
        Some("FFFFE0")
    } else if str_eq(name, "Lime") || str_eq(name, "lime") {
        Some("00FF00")
    } else if str_eq(name, "LimeGreen") || str_eq(name, "lime-green") {
        Some("32CD32")
    } else if str_eq(name, "Linen") || str_eq(name, "linen") {
        Some("FAF0E6")
    } else if str_eq(name, "Magenta") || str_eq(name, "magenta") {
        Some("FF00FF")
    } else if str_eq(name, "Maroon") || str_eq(name, "maroon") {
        Some("800000")
    } else if str_eq(name, "MediumAquaMarine") || str_eq(name, "medium-aqua-marine") {
        Some("66CDAA")
    } else if str_eq(name, "MediumBlue") || str_eq(name, "medium-blue") {
        Some("0000CD")
    } else if str_eq(name, "MediumOrchid") || str_eq(name, "medium-orchid") {
        Some("BA55D3")
    } else if str_eq(name, "MediumPurple") || str_eq(name, "medium-purple") {
        Some("9370DB")
    } else if str_eq(name, "MediumSeaGreen") || str_eq(name, "medium-sea-green") {
        Some("3CB371")
    } else if str_eq(name, "MediumSlateBlue") || str_eq(name, "medium-slate-blue") {
        Some("7B68EE")
    } else if str_eq(name, "MediumSpringGreen") || str_eq(name, "medium-spring-green") {
        Some("00FA9A")
    } else if str_eq(name, "MediumTurquoise") || str_eq(name, "medium-turquoise") {
        Some("48D1CC")
    } else if str_eq(name, "MediumVioletRed") || str_eq(name, "medium-violet-red") {
        Some("C71585")
    } else if str_eq(name, "MidnightBlue") || str_eq(name, "midnight-blue") {
        Some("191970")
    } else if str_eq(name, "MintCream") || str_eq(name, "mint-cream") {
        Some("F5FFFA")
    } else if str_eq(name, "MistyRose") || str_eq(name, "misty-rose") {
        Some("FFE4E1")
    } else if str_eq(name, "Moccasin") || str_eq(name, "moccasin") {
        Some("FFE4B5")
    } else {
        None
    }
}

/// The hex digits of a named color from `NavajoWhite` to `Salmon`.
pub open spec fn named_color_part_4(name: Seq<char>) -> Option<Seq<char>> {
    if name == "NavajoWhite"@ || name == "navajo-white"@ {
        Some("FFDEAD"@)
    } else if name == "Navy"@ || name == "navy"@ {
        Some("000080"@)
    } else if name == "OldLace"@ || name == "old-lace"@ {
        Some("FDF5E6"@)
    } else if name == "Olive"@ || name == "olive"@ {
        Some("808000"@)
    } else if name == "OliveDrab"@ || name == "olive-drab"@ {
        Some("6B8E23"@)
    } else if name == "Orange"@ || name == "orange"@ {
        Some("FFA500"@)
    } else if name == "OrangeRed"@ || name == "orange-red"@ {
        Some("FF4500"@)
    } else if name == "Orchid"@ || name == "orchid"@ {
        Some("DA70D6"@)
    } else if name == "PaleGoldenRod"@ || name == "pale-golden-rod"@ {
        Some("EEE8AA"@)
    } else if name == "PaleGreen"@ || name == "pale-green"@ {
        Some("98FB98"@)
    } else if name == "PaleTurquoise"@ || name == "pale-turquoise"@ {
        Some("AFEEEE"@)
    } else if name == "PaleVioletRed"@ || name == "pale-violet-red"@ {
        Some("DB7093"@)
    } else if name == "PapayaWhip"@ || name == "papaya-whip"@ {
        Some("FFEFD5"@)
    } else if name == "PeachPuff"@ || name == "peach-puff"@ {
        Some("FFDAB9"@)
    } else if name == "Peru"@ || name == "peru"@ {
        Some("CD853F"@)
    } else if name == "Pink"@ || name == "pink"@ {
        Some("FFC0CB"@)
    } else if name == "Plum"@ || name == "plum"@ {
        Some("DDA0DD"@)
    } else if name == "PowderBlue"@ || name == "powder-blue"@ {
        Some("B0E0E6"@)
    } else if name == "Purple"@ || name == "purple"@ {
        Some("800080"@)
    } else if name == "RebeccaPurple"@ || name == "rebecca-purple"@ {
        Some("663399"@)
    } else if name == "Red"@ || name == "red"@ {
        Some("FF0000"@)
    } else if name == "RosyBrown"@ || name == "rosy-brown"@ {
        Some("BC8F8F"@)
    } else if name == "RoyalBlue"@ || name == "royal-blue"@ {
        Some("4169E1"@)
    } else if name == "SaddleBrown"@ || name == "saddle-brown"@ {
        Some("8B4513"@)
    } else if name == "Salmon"@ || name == "salmon"@ {
        Some("FA8072"@)
    } else {
        None
    }
}

/// Looks up a name among the colors of `named_color_part_4`.
fn find_named_color_part_4(name: &str) -> (r: Option<&'static str>)
    ensures
        match r {
            Some(h) => named_color_part_4(name@) == Some(h@),
            None => named_color_part_4(name@) is None,
        },
{
    if str_eq(name, "NavajoWhite") || str_eq(name, "navajo-white") {
        Some("FFDEAD")
    } else if str_eq(name, "Navy") || str_eq(name, "navy") {
        Some("000080")
    } else if str_eq(name, "OldLace") || str_eq(name, "old-lace") {
        Some("FDF5E6")
    } else if str_eq(name, "Olive") || str_eq(name, "olive") {
        Some("808000")
    } else if str_eq(name, "OliveDrab") || str_eq(name, "olive-drab") {
        Some("6B8E23")
    } else if str_eq(name, "Orange") || str_eq(name, "orange") {
        Some("FFA500")
    } else if str_eq(name, "OrangeRed") || str_eq(name, "orange-red") {
        Some("FF4500")
    } else if str_eq(name, "Orchid") || str_eq(name, "orchid") {
        Some("DA70D6")
    } else if str_eq(name, "PaleGoldenRod") || str_eq(name, "pale-golden-rod") {
        Some("EEE8AA")
    } else if str_eq(name, "PaleGreen") || str_eq(name, "pale-green") {
        Some("98FB98")
    } else if str_eq(name, "PaleTurquoise") || str_eq(name, "pale-turquoise") {
        Some("AFEEEE")
    } else if str_eq(name, "PaleVioletRed") || str_eq(name, "pale-violet-red") {
        Some("DB7093")
    } else if str_eq(name, "PapayaWhip") || str_eq(name, "papaya-whip") {
        Some("FFEFD5")
    } else if str_eq(name, "PeachPuff") || str_eq(name, "peach-puff") {
        Some("FFDAB9")
    } else if str_eq(name, "Peru") || str_eq(name, "peru") {
        Some("CD853F")
    } else if str_eq(name, "Pink") || str_eq(name, "pink") {
        Some("FFC0CB")
    } else if str_eq(name, "Plum") || str_eq(name, "plum") {
        Some("DDA0DD")
    } else if str_eq(name, "PowderBlue") || str_eq(name, "powder-blue") {
        Some("B0E0E6")
    } else if str_eq(name, "Purple") || str_eq(name, "purple") {
        Some("800080")
    } else if str_eq(name, "RebeccaPurple") || str_eq(name, "rebecca-purple") {
        Some("663399")
    } else if str_eq(name, "Red") || str_eq(name, "red") {
        Some("FF0000")
    } else if str_eq(name, "RosyBrown") || str_eq(name, "rosy-brown") {
        Some("BC8F8F")
    } else if str_eq(name, "RoyalBlue") || str_eq(name, "royal-blue") {
        Some("4169E1")
    } else if str_eq(name, "SaddleBrown") || str_eq(name, "saddle-brown") {
        Some("8B4513")
    } else if str_eq(name, "Salmon") || str_eq(name, "salmon") {
        Some("FA8072")
    } else {
        None
    }
}

/// The hex digits of a named color from `SandyBrown` to `YellowGreen`.
pub open spec fn named_color_part_5(name: Seq<char>) -> Option<Seq<char>> {
    if name == "SandyBrown"@ || name == "sandy-brown"@ {
        Some("F4A460"@)
    } else if name == "SeaGreen"@ || name == "sea-green"@ {
        Some("2E8B57"@)
    } else if name == "SeaShell"@ || name == "sea-shell"@ {
        Some("FFF5EE"@)
    } else if name == "Sienna"@ || name == "sienna"@ {
        Some("A0522D"@)
    } else if name == "Silver"@ || name == "silver"@ {
        Some("C0C0C0"@)
    } else if name == "SkyBlue"@ || name == "sky-blue"@ {
        Some("87CEEB"@)
    } else if name == "SlateBlue"@ || name == "slate-blue"@ {
        Some("6A5ACD"@)
    } else if name == "SlateGray"@ || name == "slate-gray"@ {
        Some("708090"@)
    } else if name == "SlateGrey"@ || name == "slate-grey"@ {
        Some("708090"@)
    } else if name == "Snow"@ || name == "snow"@ {
        Some("FFFAFA"@)
    } else if name == "SpringGreen"@ || name == "spring-green"@ {
        Some("00FF7F"@)
    } else if name == "SteelBlue"@ || name == "steel-blue"@ {
        Some("4682B4"@)
    } else if name == "Tan"@ || name == "tan"@ {
        Some("D2B48C"@)
    } else if name == "Teal"@ || name == "teal"@ {
        Some("008080"@)
    } else if name == "Thistle"@ || name == "thistle"@ {
        Some("D8BFD8"@)
    } else if name == "Tomato"@ || name == "tomato"@ {
        Some("FF6347"@)
    } else if name == "Turquoise"@ || name == "turquoise"@ {
        Some("40E0D0"@)
    } else if name == "Violet"@ || name == "violet"@ {
        Some("EE82EE"@)
    } else if name == "Wheat"@ || name == "wheat"@ {
        Some("F5DEB3"@)
    } else if name == "White"@ || name == "white"@ {
        Some("FFFFFF"@)
    } else if name == "WhiteSmoke"@ || name == "white-smoke"@ {
        Some("F5F5F5"@)
    } else if name == "Yellow"@ || name == "yellow"@ {
        Some("FFFF00"@)
    } else if name == "YellowGreen"@ || name == "yellow-green"@ {
        Some("9ACD32"@)
    } else {
        None
    }
}

/// Looks up a name among the colors of `named_color_part_5`.
fn find_named_color_part_5(name: &str) -> (r: Option<&'static str>)
    ensures
        match r {
            Some(h) => named_color_part_5(name@) == Some(h@),
            None => named_color_part_5(name@) is None,
        },
{
    if str_eq(name, "SandyBrown") || str_eq(name, "sandy-brown") {
        Some("F4A460")
    } else if str_eq(name, "SeaGreen") || str_eq(name, "sea-green") {
        Some("2E8B57")
    } else if str_eq(name, "SeaShell") || str_eq(name, "sea-shell") {
        Some("FFF5EE")
    } else if str_eq(name, "Sienna") || str_eq(name, "sienna") {
        Some("A0522D")
    } else if str_eq(name, "Silver") || str_eq(name, "silver") {
        Some("C0C0C0")
    } else if str_eq(name, "SkyBlue") || str_eq(name, "sky-blue") {
        Some("87CEEB")
    } else if str_eq(name, "SlateBlue") || str_eq(name, "slate-blue") {
        Some("6A5ACD")
    } else if str_eq(name, "SlateGray") || str_eq(name, "slate-gray") {
        Some("708090")
    } else if str_eq(name, "SlateGrey") || str_eq(name, "slate-grey") {
        Some("708090")
    } else if str_eq(name, "Snow") || str_eq(name, "snow") {
        Some("FFFAFA")
    } else if str_eq(name, "SpringGreen") || str_eq(name, "spring-green") {
        Some("00FF7F")
    } else if str_eq(name, "SteelBlue") || str_eq(name, "steel-blue") {
        Some("4682B4")
    } else if str_eq(name, "Tan") || str_eq(name, "tan") {
        Some("D2B48C")
    } else if str_eq(name, "Teal") || str_eq(name, "teal") {
        Some("008080")
    } else if str_eq(name, "Thistle") || str_eq(name, "thistle") {
        Some("D8BFD8")
    } else if str_eq(name, "Tomato") || str_eq(name, "tomato") {
        Some("FF6347")
    } else if str_eq(name, "Turquoise") || str_eq(name, "turquoise") {
        Some("40E0D0")
    } else if str_eq(name, "Violet") || str_eq(name, "violet") {
        Some("EE82EE")
    } else if str_eq(name, "Wheat") || str_eq(name, "wheat") {
        Some("F5DEB3")
    } else if str_eq(name, "White") || str_eq(name, "white") {
        Some("FFFFFF")
    } else if str_eq(name, "WhiteSmoke") || str_eq(name, "white-smoke") {
        Some("F5F5F5")
    } else if str_eq(name, "Yellow") || str_eq(name, "yellow") {
        Some("FFFF00")
    } else if str_eq(name, "YellowGreen") || str_eq(name, "yellow-green") {
        Some("9ACD32")
    } else {
        None
    }
}

/// The hex digits of the color of a name, if it names a color.
pub open spec fn named_color_hex(name: Seq<char>) -> Option<Seq<char>> {
    if named_color_part_0(name) is Some {
        named_color_part_0(name)
    } else if named_color_part_1(name) is Some {
        named_color_part_1(name)
    } else if named_color_part_2(name) is Some {
        named_color_part_2(name)
    } else if named_color_part_3(name) is Some {
        named_color_part_3(name)
    } else if named_color_part_4(name) is Some {
        named_color_part_4(name)
    } else if named_color_part_5(name) is Some {
        named_color_part_5(name)
    } else {
        None
    }
}

/// Looks up the hex digits of the color of a name.
pub fn find_named_color(name: &str) -> (r: Option<&'static str>)
    ensures
        match r {
            Some(h) => named_color_hex(name@) == Some(h@),
            None => named_color_hex(name@) is None,
        },
{
    if let Some(h) = find_named_color_part_0(name) {
        return Some(h);
    }
    if let Some(h) = find_named_color_part_1(name) {
        return Some(h);
    }
    if let Some(h) = find_named_color_part_2(name) {
        return Some(h);
    }
    if let Some(h) = find_named_color_part_3(name) {
        return Some(h);
    }
    if let Some(h) = find_named_color_part_4(name) {
        return Some(h);
    }
    if let Some(h) = find_named_color_part_5(name) {
        return Some(h);
    }
    None
}

/// Six upper-case hexadecimal digits.
pub open spec fn is_six_hex_digits(h: Seq<char>) -> bool {
    &&& h.len() == 6
    &&& forall|i| 0 <= i < 6 ==> ('0' <= #[trigger] h[i] <= '9' || 'A' <= h[i] <= 'F')
}

/// The colors of `named_color_part_0` are six hex digits, under
/// names that do not start with `#`.
proof fn lemma_named_color_part_0_digits(name: Seq<char>)
    ensures
        named_color_part_0(name) matches Some(h) ==> is_six_hex_digits(h),
        named_color_part_0(name) is Some ==> name.len() > 0 && name[0] != '#',
{
    reveal_strlit("AliceBlue");
    reveal_strlit("alice-blue");
    reveal_strlit("AntiqueWhite");
    reveal_strlit("antique-white");
    reveal_strlit("Aqua");
    reveal_strlit("aqua");
    reveal_strlit("Aquamarine");
    reveal_strlit("aquamarine");
    reveal_strlit("Azure");
    reveal_strlit("azure");
    reveal_strlit("Beige");
    reveal_strlit("beige");
    reveal_strlit("Bisque");
    reveal_strlit("bisque");
    reveal_strlit("Black");
    reveal_strlit("black");
    reveal_strlit("BlanchedAlmond");
    reveal_strlit("blanched-almond");
    reveal_strlit("Blue");
    reveal_strlit("blue");
    reveal_strlit("BlueViolet");
    reveal_strlit("blue-violet");
    reveal_strlit("Brown");
    reveal_strlit("brown");
    reveal_strlit("BurlyWood");
    reveal_strlit("burly-wood");
    reveal_strlit("CadetBlue");
    reveal_strlit("cadet-blue");
    reveal_strlit("Chartreuse");
    reveal_strlit("chartreuse");
    reveal_strlit("Chocolate");
    reveal_strlit("chocolate");
    reveal_strlit("Coral");
    reveal_strlit("coral");
    reveal_strlit("CornflowerBlue");
    reveal_strlit("cornflower-blue");
    reveal_strlit("Cornsilk");
    reveal_strlit("cornsilk");
    reveal_strlit("Crimson");
    reveal_strlit("crimson");
    reveal_strlit("Cyan");
    reveal_strlit("cyan");
    reveal_strlit("DarkBlue");
    reveal_strlit("dark-blue");
    reveal_strlit("DarkCyan");
    reveal_strlit("dark-cyan");
    reveal_strlit("DarkGoldenRod");
    reveal_strlit("dark-golden-rod");
    reveal_strlit("DarkGray");
    reveal_strlit("dark-gray");
    reveal_strlit("000000");
    reveal_strlit("00008B");
    reveal_strlit("0000FF");
    reveal_strlit("008B8B");
    reveal_strlit("00FFFF");
    reveal_strlit("5F9EA0");
    reveal_strlit("6495ED");
    reveal_strlit("7FFF00");
    reveal_strlit("7FFFD4");
    reveal_strlit("8A2BE2");
    reveal_strlit("A52A2A");
    reveal_strlit("A9A9A9");
    reveal_strlit("B8860B");
    reveal_strlit("D2691E");
    reveal_strlit("DC143C");
    reveal_strlit("DEB887");
    reveal_strlit("F0F8FF");
    reveal_strlit("F0FFFF");
    reveal_strlit("F5F5DC");
    reveal_strlit("FAEBD7");
    reveal_strlit("FF7F50");
    reveal_strlit("FFE4C4");
    reveal_strlit("FFEBCD");
    reveal_strlit("FFF8DC");
}

/// The colors of `named_color_part_1` are six hex digits, under
/// names that do not start with `#`.
proof fn lemma_named_color_part_1_digits(name: Seq<char>)
    ensures
        named_color_part_1(name) matches Some(h) ==> is_six_hex_digits(h),
        named_color_part_1(name) is Some ==> name.len() > 0 && name[0] != '#',
{
    reveal_strlit("DarkGrey");
    reveal_strlit("dark-grey");
    reveal_strlit("DarkGreen");
    reveal_strlit("dark-green");
    reveal_strlit("DarkKhaki");
    reveal_strlit("dark-khaki");
    reveal_strlit("DarkMagenta");
    reveal_strlit("dark-magenta");
    reveal_strlit("DarkOliveGreen");
    reveal_strlit("dark-olive-green");
    reveal_strlit("DarkOrange");
    reveal_strlit("dark-orange");
    reveal_strlit("DarkOrchid");
    reveal_strlit("dark-orchid");
    reveal_strlit("DarkRed");
    reveal_strlit("dark-red");
    reveal_strlit("DarkSalmon");
    reveal_strlit("dark-salmon");
    reveal_strlit("DarkSeaGreen");
    reveal_strlit("dark-sea-green");
    reveal_strlit("DarkSlateBlue");
    reveal_strlit("dark-slate-blue");
    reveal_strlit("DarkSlateGray");
    reveal_strlit("dark-slate-gray");
    reveal_strlit("DarkSlateGrey");
    reveal_strlit("dark-slate-grey");
    reveal_strlit("DarkTurquoise");
    reveal_strlit("dark-turquoise");
    reveal_strlit("DarkViolet");
    reveal_strlit("dark-violet");
    reveal_strlit("DeepPink");
    reveal_strlit("deep-pink");
    reveal_strlit("DeepSkyBlue");
    reveal_strlit("deep-sky-blue");
    reveal_strlit("DimGray");
    reveal_strlit("dim-gray");
    reveal_strlit("DimGrey");
    reveal_strlit("dim-grey");
    reveal_strlit("DodgerBlue");
    reveal_strlit("dodger-blue");
    reveal_strlit("FireBrick");
    reveal_strlit("fire-brick");
    reveal_strlit("FloralWhite");
    reveal_strlit("floral-white");
    reveal_strlit("ForestGreen");
    reveal_strlit("forest-green");
    reveal_strlit("Fuchsia");
    reveal_strlit("fuchsia");
    reveal_strlit("Gainsboro");
    reveal_strlit("gainsboro");
    reveal_strlit("006400");
    reveal_strlit("00BFFF");
    reveal_strlit("00CED1");
    reveal_strlit("1E90FF");
    reveal_strlit("228B22");
    reveal_strlit("2F4F4F");
    reveal_strlit("483D8B");
    reveal_strlit("556B2F");
    reveal_strlit("696969");
    reveal_strlit("8B0000");
    reveal_strlit("8B008B");
    reveal_strlit("8FBC8F");
    reveal_strlit("9400D3");
    reveal_strlit("9932CC");
    reveal_strlit("A9A9A9");
    reveal_strlit("B22222");
    reveal_strlit("BDB76B");
    reveal_strlit("DCDCDC");
    reveal_strlit("E9967A");
    reveal_strlit("FF00FF");
    reveal_strlit("FF1493");
    reveal_strlit("FF8C00");
    reveal_strlit("FFFAF0");
}

/// The colors of `named_color_part_2` are six hex digits, under
/// names that do not start with `#`.
proof fn lemma_named_color_part_2_digits(name: Seq<char>)
    ensures
        named_color_part_2(name) matches Some(h) ==> is_six_hex_digits(h),
        named_color_part_2(name) is Some ==> name.len() > 0 && name[0] != '#',
{
    reveal_strlit("GhostWhite");
    reveal_strlit("ghost-white");
    reveal_strlit("Gold");
    reveal_strlit("gold");
    reveal_strlit("GoldenRod");
    reveal_strlit("golden-rod");
    reveal_strlit("Gray");
    reveal_strlit("gray");
    reveal_strlit("Grey");
    reveal_strlit("grey");
    reveal_strlit("Green");
    reveal_strlit("green");
    reveal_strlit("GreenYellow");
    reveal_strlit("green-yellow");
    reveal_strlit("HoneyDew");
    reveal_strlit("honey-dew");
    reveal_strlit("HotPink");
    reveal_strlit("hot-pink");
    reveal_strlit("IndianRed");
    reveal_strlit("indian-red");
    reveal_strlit("Indigo");
    reveal_strlit("indigo");
    reveal_strlit("Ivory");
    reveal_strlit("ivory");
    reveal_strlit("Khaki");
    reveal_strlit("khaki");
    reveal_strlit("Lavender");
    reveal_strlit("lavender");
    reveal_strlit("LavenderBlush");
    reveal_strlit("lavender-blush");
    reveal_strlit("LawnGreen");
    reveal_strlit("lawn-green");
    reveal_strlit("LemonChiffon");
    reveal_strlit("lemon-chiffon");
    reveal_strlit("LightBlue");
    reveal_strlit("light-blue");
    reveal_strlit("LightCoral");
    reveal_strlit("light-coral");
    reveal_strlit("LightCyan");
    reveal_strlit("light-cyan");
    reveal_strlit("LightGoldenRodYellow");
    reveal_strlit("light-golden-rod-yellow");
    reveal_strlit("LightGray");
    reveal_strlit("light-gray");
    reveal_strlit("LightGrey");
    reveal_strlit("light-grey");
    reveal_strlit("LightGreen");
    reveal_strlit("light-green");
    reveal_strlit("LightPink");
    reveal_strlit("light-pink");
    reveal_strlit("008000");
    reveal_strlit("4B0082");
    reveal_strlit("7CFC00");
    reveal_strlit("808080");
    reveal_strlit("90EE90");
    reveal_strlit("ADD8E6");
    reveal_strlit("ADFF2F");
    reveal_strlit("CD5C5C");
    reveal_strlit("D3D3D3");
    reveal_strlit("DAA520");
    reveal_strlit("E0FFFF");
    reveal_strlit("E6E6FA");
    reveal_strlit("F08080");
    reveal_strlit("F0E68C");
    reveal_strlit("F0FFF0");
    reveal_strlit("F8F8FF");
    reveal_strlit("FAFAD2");
    reveal_strlit("FF69B4");
    reveal_strlit("FFB6C1");
    reveal_strlit("FFD700");
    reveal_strlit("FFF0F5");
    reveal_strlit("FFFACD");
    reveal_strlit("FFFFF0");
}

/// The colors of `named_color_part_3` are six hex digits, under
/// names that do not start with `#`.
proof fn lemma_named_color_part_3_digits(name: Seq<char>)
    ensures
        named_color_part_3(name) matches Some(h) ==> is_six_hex_digits(h),
        named_color_part_3(name) is Some ==> name.len() > 0 && name[0] != '#',
{
    reveal_strlit("LightSalmon");
    reveal_strlit("light-salmon");
    reveal_strlit("LightSeaGreen");
    reveal_strlit("light-sea-green");
    reveal_strlit("LightSkyBlue");
    reveal_strlit("light-sky-blue");
    reveal_strlit("LightSlateGray");
    reveal_strlit("light-slate-gray");
    reveal_strlit("LightSlateGrey");
    reveal_strlit("light-slate-grey");
    reveal_strlit("LightSteelBlue");
    reveal_strlit("light-steel-blue");
    reveal_strlit("LightYellow");
    reveal_strlit("light-yellow");
    reveal_strlit("Lime");
    reveal_strlit("lime");
    reveal_strlit("LimeGreen");
    reveal_strlit("lime-green");
    reveal_strlit("Linen");
    reveal_strlit("linen");
    reveal_strlit("Magenta");
    reveal_strlit("magenta");
    reveal_strlit("Maroon");
    reveal_strlit("maroon");
    reveal_strlit("MediumAquaMarine");
    reveal_strlit("medium-aqua-marine");
    reveal_strlit("MediumBlue");
    reveal_strlit("medium-blue");
    reveal_strlit("MediumOrchid");
    reveal_strlit("medium-orchid");
    reveal_strlit("MediumPurple");
    reveal_strlit("medium-purple");
    reveal_strlit("MediumSeaGreen");
    reveal_strlit("medium-sea-green");
    reveal_strlit("MediumSlateBlue");
    reveal_strlit("medium-slate-blue");
    reveal_strlit("MediumSpringGreen");
    reveal_strlit("medium-spring-green");
    reveal_strlit("MediumTurquoise");
    reveal_strlit("medium-turquoise");
    reveal_strlit("MediumVioletRed");
    reveal_strlit("medium-violet-red");
    reveal_strlit("MidnightBlue");
    reveal_strlit("midnight-blue");
    reveal_strlit("MintCream");
    reveal_strlit("mint-cream");
    reveal_strlit("MistyRose");
    reveal_strlit("misty-rose");
    reveal_strlit("Moccasin");
    reveal_strlit("moccasin");
    reveal_strlit("0000CD");
    reveal_strlit("00FA9A");
    reveal_strlit("00FF00");
    reveal_strlit("191970");
    reveal_strlit("20B2AA");
    reveal_strlit("32CD32");
    reveal_strlit("3CB371");
    reveal_strlit("48D1CC");
    reveal_strlit("66CDAA");
    reveal_strlit("778899");
    reveal_strlit("7B68EE");
    reveal_strlit("800000");
    reveal_strlit("87CEFA");
    reveal_strlit("9370DB");
    reveal_strlit("B0C4DE");
    reveal_strlit("BA55D3");
    reveal_strlit("C71585");
    reveal_strlit("F5FFFA");
    reveal_strlit("FAF0E6");
    reveal_strlit("FF00FF");
    reveal_strlit("FFA07A");
    reveal_strlit("FFE4B5");
    reveal_strlit("FFE4E1");
    reveal_strlit("FFFFE0");
}

/// The colors of `named_color_part_4` are six hex digits, under
/// names that do not start with `#`.
proof fn lemma_named_color_part_4_digits(name: Seq<char>)
    ensures
        named_color_part_4(name) matches Some(h) ==> is_six_hex_digits(h),
        named_color_part_4(name) is Some ==> name.len() > 0 && name[0] != '#',
{
    reveal_strlit("NavajoWhite");
    reveal_strlit("navajo-white");
    reveal_strlit("Navy");
    reveal_strlit("navy");
    reveal_strlit("OldLace");
    reveal_strlit("old-lace");
    reveal_strlit("Olive");
    reveal_strlit("olive");
    reveal_strlit("OliveDrab");
    reveal_strlit("olive-drab");
    reveal_strlit("Orange");
    reveal_strlit("orange");
    reveal_strlit("OrangeRed");
    reveal_strlit("orange-red");
    reveal_strlit("Orchid");
    reveal_strlit("orchid");
    reveal_strlit("PaleGoldenRod");
    reveal_strlit("pale-golden-rod");
    reveal_strlit("PaleGreen");
    reveal_strlit("pale-green");
    reveal_strlit("PaleTurquoise");
    reveal_strlit("pale-turquoise");
    reveal_strlit("PaleVioletRed");
    reveal_strlit("pale-violet-red");
    reveal_strlit("PapayaWhip");
    reveal_strlit("papaya-whip");
    reveal_strlit("PeachPuff");
    reveal_strlit("peach-puff");
    reveal_strlit("Peru");
    reveal_strlit("peru");
    reveal_strlit("Pink");
    reveal_strlit("pink");
    reveal_strlit("Plum");
    reveal_strlit("plum");
    reveal_strlit("PowderBlue");
    reveal_strlit("powder-blue");
    reveal_strlit("Purple");
    reveal_strlit("purple");
    reveal_strlit("RebeccaPurple");
    reveal_strlit("rebecca-purple");
    reveal_strlit("Red");
    reveal_strlit("red");
    reveal_strlit("RosyBrown");
    reveal_strlit("rosy-brown");
    reveal_strlit("RoyalBlue");
    reveal_strlit("royal-blue");
    reveal_strlit("SaddleBrown");
    reveal_strlit("saddle-brown");
    reveal_strlit("Salmon");
    reveal_strlit("salmon");
    reveal_strlit("000080");
    reveal_strlit("4169E1");
    reveal_strlit("663399");
    reveal_strlit("6B8E23");
    reveal_strlit("800080");
    reveal_strlit("808000");
    reveal_strlit("8B4513");
    reveal_strlit("98FB98");
    reveal_strlit("AFEEEE");
    reveal_strlit("B0E0E6");
    reveal_strlit("BC8F8F");
    reveal_strlit("CD853F");
    reveal_strlit("DA70D6");
    reveal_strlit("DB7093");
    reveal_strlit("DDA0DD");
    reveal_strlit("EEE8AA");
    reveal_strlit("FA8072");
    reveal_strlit("FDF5E6");
    reveal_strlit("FF0000");
    reveal_strlit("FF4500");
    reveal_strlit("FFA500");
    reveal_strlit("FFC0CB");
    reveal_strlit("FFDAB9");
    reveal_strlit("FFDEAD");
    reveal_strlit("FFEFD5");
}

/// The colors of `named_color_part_5` are six hex digits, under
/// names that do not start with `#`.
proof fn lemma_named_color_part_5_digits(name: Seq<char>)
    ensures
        named_color_part_5(name) matches Some(h) ==> is_six_hex_digits(h),
        named_color_part_5(name) is Some ==> name.len() > 0 && name[0] != '#',
{
    reveal_strlit("SandyBrown");
    reveal_strlit("sandy-brown");
    reveal_strlit("SeaGreen");
    reveal_strlit("sea-green");
    reveal_strlit("SeaShell");
    reveal_strlit("sea-shell");
    reveal_strlit("Sienna");
    reveal_strlit("sienna");
    reveal_strlit("Silver");
    reveal_strlit("silver");
    reveal_strlit("SkyBlue");
    reveal_strlit("sky-blue");
    reveal_strlit("SlateBlue");
    reveal_strlit("slate-blue");
    reveal_strlit("SlateGray");
    reveal_strlit("slate-gray");
    reveal_strlit("SlateGrey");
    reveal_strlit("slate-grey");
    reveal_strlit("Snow");
    reveal_strlit("snow");
    reveal_strlit("SpringGreen");
    reveal_strlit("spring-green");
    reveal_strlit("SteelBlue");
    reveal_strlit("steel-blue");
    reveal_strlit("Tan");
    reveal_strlit("tan");
    reveal_strlit("Teal");
    reveal_strlit("teal");
    reveal_strlit("Thistle");
    reveal_strlit("thistle");
    reveal_strlit("Tomato");
    reveal_strlit("tomato");
    reveal_strlit("Turquoise");
    reveal_strlit("turquoise");
    reveal_strlit("Violet");
    reveal_strlit("violet");
    reveal_strlit("Wheat");
    reveal_strlit("wheat");
    reveal_strlit("White");
    reveal_strlit("white");
    reveal_strlit("WhiteSmoke");
    reveal_strlit("white-smoke");
    reveal_strlit("Yellow");
    reveal_strlit("yellow");
    reveal_strlit("YellowGreen");
    reveal_strlit("yellow-green");
    reveal_strlit("008080");
    reveal_strlit("00FF7F");
    reveal_strlit("2E8B57");
    reveal_strlit("40E0D0");
    reveal_strlit("4682B4");
    reveal_strlit("6A5ACD");
    reveal_strlit("708090");
    reveal_strlit("87CEEB");
    reveal_strlit("9ACD32");
    reveal_strlit("A0522D");
    reveal_strlit("C0C0C0");
    reveal_strlit("D2B48C");
    reveal_strlit("D8BFD8");
    reveal_strlit("EE82EE");
    reveal_strlit("F4A460");
    reveal_strlit("F5DEB3");
    reveal_strlit("F5F5F5");
    reveal_strlit("FF6347");
    reveal_strlit("FFF5EE");
    reveal_strlit("FFFAFA");
    reveal_strlit("FFFF00");
    reveal_strlit("FFFFFF");
}

/// Every named color is written as six upper-case hexadecimal digits, and
/// no color name starts with `#`.
pub proof fn lemma_named_colors_are_six_hex_digits(name: Seq<char>)
    ensures
        named_color_hex(name) matches Some(h) ==> is_six_hex_digits(h),
        named_color_hex(name) is Some ==> name.len() > 0 && name[0] != '#',
{
    lemma_named_color_part_0_digits(name);
    lemma_named_color_part_1_digits(name);
    lemma_named_color_part_2_digits(name);
    lemma_named_color_part_3_digits(name);
    lemma_named_color_part_4_digits(name);
    lemma_named_color_part_5_digits(name);
}

/// The length and the first and last two characters of the names of
/// `named_color_part_0`, which tell all color names apart.
proof fn lemma_name_letters_part_0()
    ensures
        "AliceBlue"@.len() == 9 && "AliceBlue"@[0] == 'A' && "AliceBlue"@[1] == 'l' && "AliceBlue"@[7] == 'u' && "AliceBlue"@[8] == 'e',
        "alice-blue"@.len() == 10 && "alice-blue"@[0] == 'a' && "alice-blue"@[1] == 'l' && "alice-blue"@[8] == 'u' && "alice-blue"@[9] == 'e',
        "AntiqueWhite"@.len() == 12 && "AntiqueWhite"@[0] == 'A' && "AntiqueWhite"@[1] == 'n' && "AntiqueWhite"@[10] == 't' && "AntiqueWhite"@[11] == 'e',
        "antique-white"@.len() == 13 && "antique-white"@[0] == 'a' && "antique-white"@[1] == 'n' && "antique-white"@[11] == 't' && "antique-white"@[12] == 'e',
        "Aqua"@.len() == 4 && "Aqua"@[0] == 'A' && "Aqua"@[1] == 'q' && "Aqua"@[2] == 'u' && "Aqua"@[3] == 'a',
        "aqua"@.len() == 4 && "aqua"@[0] == 'a' && "aqua"@[1] == 'q' && "aqua"@[2] == 'u' && "aqua"@[3] == 'a',
        "Aquamarine"@.len() == 10 && "Aquamarine"@[0] == 'A' && "Aquamarine"@[1] == 'q' && "Aquamarine"@[8] == 'n' && "Aquamarine"@[9] == 'e',
        "aquamarine"@.len() == 10 && "aquamarine"@[0] == 'a' && "aquamarine"@[1] == 'q' && "aquamarine"@[8] == 'n' && "aquamarine"@[9] == 'e',
        "Azure"@.len() == 5 && "Azure"@[0] == 'A' && "Azure"@[1] == 'z' && "Azure"@[3] == 'r' && "Azure"@[4] == 'e',
        "azure"@.len() == 5 && "azure"@[0] == 'a' && "azure"@[1] == 'z' && "azure"@[3] == 'r' && "azure"@[4] == 'e',
        "Beige"@.len() == 5 && "Beige"@[0] == 'B' && "Beige"@[1] == 'e' && "Beige"@[3] == 'g' && "Beige"@[4] == 'e',
        "beige"@.len() == 5 && "beige"@[0] == 'b' && "beige"@[1] == 'e' && "beige"@[3] == 'g' && "beige"@[4] == 'e',
        "Bisque"@.len() == 6 && "Bisque"@[0] == 'B' && "Bisque"@[1] == 'i' && "Bisque"@[4] == 'u' && "Bisque"@[5] == 'e',
        "bisque"@.len() == 6 && "bisque"@[0] == 'b' && "bisque"@[1] == 'i' && "bisque"@[4] == 'u' && "bisque"@[5] == 'e',
        "Black"@.len() == 5 && "Black"@[0] == 'B' && "Black"@[1] == 'l' && "Black"@[3] == 'c' && "Black"@[4] == 'k',
        "black"@.len() == 5 && "black"@[0] == 'b' && "black"@[1] == 'l' && "black"@[3] == 'c' && "black"@[4] == 'k',
        "BlanchedAlmond"@.len() == 14 && "BlanchedAlmond"@[0] == 'B' && "BlanchedAlmond"@[1] == 'l' && "BlanchedAlmond"@[12] == 'n' && "BlanchedAlmond"@[13] == 'd',
        "blanched-almond"@.len() == 15 && "blanched-almond"@[0] == 'b' && "blanched-almond"@[1] == 'l' && "blanched-almond"@[13] == 'n' && "blanched-almond"@[14] == 'd',
        "Blue"@.len() == 4 && "Blue"@[0] == 'B' && "Blue"@[1] == 'l' && "Blue"@[2] == 'u' && "Blue"@[3] == 'e',
        "blue"@.len() == 4 && "blue"@[0] == 'b' && "blue"@[1] == 'l' && "blue"@[2] == 'u' && "blue"@[3] == 'e',
        "BlueViolet"@.len() == 10 && "BlueViolet"@[0] == 'B' && "BlueViolet"@[1] == 'l' && "BlueViolet"@[8] == 'e' && "BlueViolet"@[9] == 't',
        "blue-violet"@.len() == 11 && "blue-violet"@[0] == 'b' && "blue-violet"@[1] == 'l' && "blue-violet"@[9] == 'e' && "blue-violet"@[10] == 't',
        "Brown"@.len() == 5 && "Brown"@[0] == 'B' && "Brown"@[1] == 'r' && "Brown"@[3] == 'w' && "Brown"@[4] == 'n',
        "brown"@.len() == 5 && "brown"@[0] == 'b' && "brown"@[1] == 'r' && "brown"@[3] == 'w' && "brown"@[4] == 'n',
        "BurlyWood"@.len() == 9 && "BurlyWood"@[0] == 'B' && "BurlyWood"@[1] == 'u' && "BurlyWood"@[7] == 'o' && "BurlyWood"@[8] == 'd',
        "burly-wood"@.len() == 10 && "burly-wood"@[0] == 'b' && "burly-wood"@[1] == 'u' && "burly-wood"@[8] == 'o' && "burly-wood"@[9] == 'd',
        "CadetBlue"@.len() == 9 && "CadetBlue"@[0] == 'C' && "CadetBlue"@[1] == 'a' && "CadetBlue"@[7] == 'u' && "CadetBlue"@[8] == 'e',
        "cadet-blue"@.len() == 10 && "cadet-blue"@[0] == 'c' && "cadet-blue"@[1] == 'a' && "cadet-blue"@[8] == 'u' && "cadet-blue"@[9] == 'e',
        "Chartreuse"@.len() == 10 && "Chartreuse"@[0] == 'C' && "Chartreuse"@[1] == 'h' && "Chartreuse"@[8] == 's' && "Chartreuse"@[9] == 'e',
        "chartreuse"@.len() == 10 && "chartreuse"@[0] == 'c' && "chartreuse"@[1] == 'h' && "chartreuse"@[8] == 's' && "chartreuse"@[9] == 'e',
        "Chocolate"@.len() == 9 && "Chocolate"@[0] == 'C' && "Chocolate"@[1] == 'h' && "Chocolate"@[7] == 't' && "Chocolate"@[8] == 'e',
        "chocolate"@.len() == 9 && "chocolate"@[0] == 'c' && "chocolate"@[1] == 'h' && "chocolate"@[7] == 't' && "chocolate"@[8] == 'e',
        "Coral"@.len() == 5 && "Coral"@[0] == 'C' && "Coral"@[1] == 'o' && "Coral"@[3] == 'a' && "Coral"@[4] == 'l',
        "coral"@.len() == 5 && "coral"@[0] == 'c' && "coral"@[1] == 'o' && "coral"@[3] == 'a' && "coral"@[4] == 'l',
        "CornflowerBlue"@.len() == 14 && "CornflowerBlue"@[0] == 'C' && "CornflowerBlue"@[1] == 'o' && "CornflowerBlue"@[12] == 'u' && "CornflowerBlue"@[13] == 'e',
        "cornflower-blue"@.len() == 15 && "cornflower-blue"@[0] == 'c' && "cornflower-blue"@[1] == 'o' && "cornflower-blue"@[13] == 'u' && "cornflower-blue"@[14] == 'e',
        "Cornsilk"@.len() == 8 && "Cornsilk"@[0] == 'C' && "Cornsilk"@[1] == 'o' && "Cornsilk"@[6] == 'l' && "Cornsilk"@[7] == 'k',
        "cornsilk"@.len() == 8 && "cornsilk"@[0] == 'c' && "cornsilk"@[1] == 'o' && "cornsilk"@[6] == 'l' && "cornsilk"@[7] == 'k',
        "Crimson"@.len() == 7 && "Crimson"@[0] == 'C' && "Crimson"@[1] == 'r' && "Crimson"@[5] == 'o' && "Crimson"@[6] == 'n',
        "crimson"@.len() == 7 && "crimson"@[0] == 'c' && "crimson"@[1] == 'r' && "crimson"@[5] == 'o' && "crimson"@[6] == 'n',
        "Cyan"@.len() == 4 && "Cyan"@[0] == 'C' && "Cyan"@[1] == 'y' && "Cyan"@[2] == 'a' && "Cyan"@[3] == 'n',
        "cyan"@.len() == 4 && "cyan"@[0] == 'c' && "cyan"@[1] == 'y' && "cyan"@[2] == 'a' && "cyan"@[3] == 'n',
        "DarkBlue"@.len() == 8 && "DarkBlue"@[0] == 'D' && "DarkBlue"@[1] == 'a' && "DarkBlue"@[6] == 'u' && "DarkBlue"@[7] == 'e',
        "dark-blue"@.len() == 9 && "dark-blue"@[0] == 'd' && "dark-blue"@[1] == 'a' && "dark-blue"@[7] == 'u' && "dark-blue"@[8] == 'e',
        "DarkCyan"@.len() == 8 && "DarkCyan"@[0] == 'D' && "DarkCyan"@[1] == 'a' && "DarkCyan"@[6] == 'a' && "DarkCyan"@[7] == 'n',
        "dark-cyan"@.len() == 9 && "dark-cyan"@[0] == 'd' && "dark-cyan"@[1] == 'a' && "dark-cyan"@[7] == 'a' && "dark-cyan"@[8] == 'n',
        "DarkGoldenRod"@.len() == 13 && "DarkGoldenRod"@[0] == 'D' && "DarkGoldenRod"@[1] == 'a' && "DarkGoldenRod"@[11] == 'o' && "DarkGoldenRod"@[12] == 'd',
        "dark-golden-rod"@.len() == 15 && "dark-golden-rod"@[0] == 'd' && "dark-golden-rod"@[1] == 'a' && "dark-golden-rod"@[13] == 'o' && "dark-golden-rod"@[14] == 'd',
        "DarkGray"@.len() == 8 && "DarkGray"@[0] == 'D' && "DarkGray"@[1] == 'a' && "DarkGray"@[6] == 'a' && "DarkGray"@[7] == 'y',
        "dark-gray"@.len() == 9 && "dark-gray"@[0] == 'd' && "dark-gray"@[1] == 'a' && "dark-gray"@[7] == 'a' && "dark-gray"@[8] == 'y',
{
    reveal_strlit("AliceBlue");
    reveal_strlit("alice-blue");
    reveal_strlit("AntiqueWhite");
    reveal_strlit("antique-white");
    reveal_strlit("Aqua");
    reveal_strlit("aqua");
    reveal_strlit("Aquamarine");
    reveal_strlit("aquamarine");
    reveal_strlit("Azure");
    reveal_strlit("azure");
    reveal_strlit("Beige");
    reveal_strlit("beige");
    reveal_strlit("Bisque");
    reveal_strlit("bisque");
    reveal_strlit("Black");
    reveal_strlit("black");
    reveal_strlit("BlanchedAlmond");
    reveal_strlit("blanched-almond");
    reveal_strlit("Blue");
    reveal_strlit("blue");
    reveal_strlit("BlueViolet");
    reveal_strlit("blue-violet");
    reveal_strlit("Brown");
    reveal_strlit("brown");
    reveal_strlit("BurlyWood");
    reveal_strlit("burly-wood");
    reveal_strlit("CadetBlue");
    reveal_strlit("cadet-blue");
    reveal_strlit("Chartreuse");
    reveal_strlit("chartreuse");
    reveal_strlit("Chocolate");
    reveal_strlit("chocolate");
    reveal_strlit("Coral");
    reveal_strlit("coral");
    reveal_strlit("CornflowerBlue");
    reveal_strlit("cornflower-blue");
    reveal_strlit("Cornsilk");
    reveal_strlit("cornsilk");
    reveal_strlit("Crimson");
    reveal_strlit("crimson");
    reveal_strlit("Cyan");
    reveal_strlit("cyan");
    reveal_strlit("DarkBlue");
    reveal_strlit("dark-blue");
    reveal_strlit("DarkCyan");
    reveal_strlit("dark-cyan");
    reveal_strlit("DarkGoldenRod");
    reveal_strlit("dark-golden-rod");
    reveal_strlit("DarkGray");
    reveal_strlit("dark-gray");
}

/// The length and the first and last two characters of the names of
/// `named_color_part_1`, which tell all color names apart.
proof fn lemma_name_letters_part_1()
    ensures
        "DarkGrey"@.len() == 8 && "DarkGrey"@[0] == 'D' && "DarkGrey"@[1] == 'a' && "DarkGrey"@[6] == 'e' && "DarkGrey"@[7] == 'y',
        "dark-grey"@.len() == 9 && "dark-grey"@[0] == 'd' && "dark-grey"@[1] == 'a' && "dark-grey"@[7] == 'e' && "dark-grey"@[8] == 'y',
        "DarkGreen"@.len() == 9 && "DarkGreen"@[0] == 'D' && "DarkGreen"@[1] == 'a' && "DarkGreen"@[7] == 'e' && "DarkGreen"@[8] == 'n',
        "dark-green"@.len() == 10 && "dark-green"@[0] == 'd' && "dark-green"@[1] == 'a' && "dark-green"@[8] == 'e' && "dark-green"@[9] == 'n',
        "DarkKhaki"@.len() == 9 && "DarkKhaki"@[0] == 'D' && "DarkKhaki"@[1] == 'a' && "DarkKhaki"@[7] == 'k' && "DarkKhaki"@[8] == 'i',
        "dark-khaki"@.len() == 10 && "dark-khaki"@[0] == 'd' && "dark-khaki"@[1] == 'a' && "dark-khaki"@[8] == 'k' && "dark-khaki"@[9] == 'i',
        "DarkMagenta"@.len() == 11 && "DarkMagenta"@[0] == 'D' && "DarkMagenta"@[1] == 'a' && "DarkMagenta"@[9] == 't' && "DarkMagenta"@[10] == 'a',
        "dark-magenta"@.len() == 12 && "dark-magenta"@[0] == 'd' && "dark-magenta"@[1] == 'a' && "dark-magenta"@[10] == 't' && "dark-magenta"@[11] == 'a',
        "DarkOliveGreen"@.len() == 14 && "DarkOliveGreen"@[0] == 'D' && "DarkOliveGreen"@[1] == 'a' && "DarkOliveGreen"@[12] == 'e' && "DarkOliveGreen"@[13] == 'n',
        "dark-olive-green"@.len() == 16 && "dark-olive-green"@[0] == 'd' && "dark-olive-green"@[1] == 'a' && "dark-olive-green"@[14] == 'e' && "dark-olive-green"@[15] == 'n',
        "DarkOrange"@.len() == 10 && "DarkOrange"@[0] == 'D' && "DarkOrange"@[1] == 'a' && "DarkOrange"@[8] == 'g' && "DarkOrange"@[9] == 'e',
        "dark-orange"@.len() == 11 && "dark-orange"@[0] == 'd' && "dark-orange"@[1] == 'a' && "dark-orange"@[9] == 'g' && "dark-orange"@[10] == 'e',
        "DarkOrchid"@.len() == 10 && "DarkOrchid"@[0] == 'D' && "DarkOrchid"@[1] == 'a' && "DarkOrchid"@[8] == 'i' && "DarkOrchid"@[9] == 'd',
        "dark-orchid"@.len() == 11 && "dark-orchid"@[0] == 'd' && "dark-orchid"@[1] == 'a' && "dark-orchid"@[9] == 'i' && "dark-orchid"@[10] == 'd',
        "DarkRed"@.len() == 7 && "DarkRed"@[0] == 'D' && "DarkRed"@[1] == 'a' && "DarkRed"@[5] == 'e' && "DarkRed"@[6] == 'd',
        "dark-red"@.len() == 8 && "dark-red"@[0] == 'd' && "dark-red"@[1] == 'a' && "dark-red"@[6] == 'e' && "dark-red"@[7] == 'd',
        "DarkSalmon"@.len() == 10 && "DarkSalmon"@[0] == 'D' && "DarkSalmon"@[1] == 'a' && "DarkSalmon"@[8] == 'o' && "DarkSalmon"@[9] == 'n',
        "dark-salmon"@.len() == 11 && "dark-salmon"@[0] == 'd' && "dark-salmon"@[1] == 'a' && "dark-salmon"@[9] == 'o' && "dark-salmon"@[10] == 'n',
        "DarkSeaGreen"@.len() == 12 && "DarkSeaGreen"@[0] == 'D' && "DarkSeaGreen"@[1] == 'a' && "DarkSeaGreen"@[10] == 'e' && "DarkSeaGreen"@[11] == 'n',
        "dark-sea-green"@.len() == 14 && "dark-sea-green"@[0] == 'd' && "dark-sea-green"@[1] == 'a' && "dark-sea-green"@[12] == 'e' && "dark-sea-green"@[13] == 'n',
        "DarkSlateBlue"@.len() == 13 && "DarkSlateBlue"@[0] == 'D' && "DarkSlateBlue"@[1] == 'a' && "DarkSlateBlue"@[11] == 'u' && "DarkSlateBlue"@[12] == 'e',
        "dark-slate-blue"@.len() == 15 && "dark-slate-blue"@[0] == 'd' && "dark-slate-blue"@[1] == 'a' && "dark-slate-blue"@[13] == 'u' && "dark-slate-blue"@[14] == 'e',
        "DarkSlateGray"@.len() == 13 && "DarkSlateGray"@[0] == 'D' && "DarkSlateGray"@[1] == 'a' && "DarkSlateGray"@[11] == 'a' && "DarkSlateGray"@[12] == 'y',
        "dark-slate-gray"@.len() == 15 && "dark-slate-gray"@[0] == 'd' && "dark-slate-gray"@[1] == 'a' && "dark-slate-gray"@[13] == 'a' && "dark-slate-gray"@[14] == 'y',
        "DarkSlateGrey"@.len() == 13 && "DarkSlateGrey"@[0] == 'D' && "DarkSlateGrey"@[1] == 'a' && "DarkSlateGrey"@[11] == 'e' && "DarkSlateGrey"@[12] == 'y',
        "dark-slate-grey"@.len() == 15 && "dark-slate-grey"@[0] == 'd' && "dark-slate-grey"@[1] == 'a' && "dark-slate-grey"@[13] == 'e' && "dark-slate-grey"@[14] == 'y',
        "DarkTurquoise"@.len() == 13 && "DarkTurquoise"@[0] == 'D' && "DarkTurquoise"@[1] == 'a' && "DarkTurquoise"@[11] == 's' && "DarkTurquoise"@[12] == 'e',
        "dark-turquoise"@.len() == 14 && "dark-turquoise"@[0] == 'd' && "dark-turquoise"@[1] == 'a' && "dark-turquoise"@[12] == 's' && "dark-turquoise"@[13] == 'e',
        "DarkViolet"@.len() == 10 && "DarkViolet"@[0] == 'D' && "DarkViolet"@[1] == 'a' && "DarkViolet"@[8] == 'e' && "DarkViolet"@[9] == 't',
        "dark-violet"@.len() == 11 && "dark-violet"@[0] == 'd' && "dark-violet"@[1] == 'a' && "dark-violet"@[9] == 'e' && "dark-violet"@[10] == 't',
        "DeepPink"@.len() == 8 && "DeepPink"@[0] == 'D' && "DeepPink"@[1] == 'e' && "DeepPink"@[6] == 'n' && "DeepPink"@[7] == 'k',
        "deep-pink"@.len() == 9 && "deep-pink"@[0] == 'd' && "deep-pink"@[1] == 'e' && "deep-pink"@[7] == 'n' && "deep-pink"@[8] == 'k',
        "DeepSkyBlue"@.len() == 11 && "DeepSkyBlue"@[0] == 'D' && "DeepSkyBlue"@[1] == 'e' && "DeepSkyBlue"@[9] == 'u' && "DeepSkyBlue"@[10] == 'e',
        "deep-sky-blue"@.len() == 13 && "deep-sky-blue"@[0] == 'd' && "deep-sky-blue"@[1] == 'e' && "deep-sky-blue"@[11] == 'u' && "deep-sky-blue"@[12] == 'e',
        "DimGray"@.len() == 7 && "DimGray"@[0] == 'D' && "DimGray"@[1] == 'i' && "DimGray"@[5] == 'a' && "DimGray"@[6] == 'y',
        "dim-gray"@.len() == 8 && "dim-gray"@[0] == 'd' && "dim-gray"@[1] == 'i' && "dim-gray"@[6] == 'a' && "dim-gray"@[7] == 'y',
        "DimGrey"@.len() == 7 && "DimGrey"@[0] == 'D' && "DimGrey"@[1] == 'i' && "DimGrey"@[5] == 'e' && "DimGrey"@[6] == 'y',
        "dim-grey"@.len() == 8 && "dim-grey"@[0] == 'd' && "dim-grey"@[1] == 'i' && "dim-grey"@[6] == 'e' && "dim-grey"@[7] == 'y',
        "DodgerBlue"@.len() == 10 && "DodgerBlue"@[0] == 'D' && "DodgerBlue"@[1] == 'o' && "DodgerBlue"@[8] == 'u' && "DodgerBlue"@[9] == 'e',
        "dodger-blue"@.len() == 11 && "dodger-blue"@[0] == 'd' && "dodger-blue"@[1] == 'o' && "dodger-blue"@[9] == 'u' && "dodger-blue"@[10] == 'e',
        "FireBrick"@.len() == 9 && "FireBrick"@[0] == 'F' && "FireBrick"@[1] == 'i' && "FireBrick"@[7] == 'c' && "FireBrick"@[8] == 'k',
        "fire-brick"@.len() == 10 && "fire-brick"@[0] == 'f' && "fire-brick"@[1] == 'i' && "fire-brick"@[8] == 'c' && "fire-brick"@[9] == 'k',
        "FloralWhite"@.len() == 11 && "FloralWhite"@[0] == 'F' && "FloralWhite"@[1] == 'l' && "FloralWhite"@[9] == 't' && "FloralWhite"@[10] == 'e',
        "floral-white"@.len() == 12 && "floral-white"@[0] == 'f' && "floral-white"@[1] == 'l' && "floral-white"@[10] == 't' && "floral-white"@[11] == 'e',
        "ForestGreen"@.len() == 11 && "ForestGreen"@[0] == 'F' && "ForestGreen"@[1] == 'o' && "ForestGreen"@[9] == 'e' && "ForestGreen"@[10] == 'n',
        "forest-green"@.len() == 12 && "forest-green"@[0] == 'f' && "forest-green"@[1] == 'o' && "forest-green"@[10] == 'e' && "forest-green"@[11] == 'n',
        "Fuchsia"@.len() == 7 && "Fuchsia"@[0] == 'F' && "Fuchsia"@[1] == 'u' && "Fuchsia"@[5] == 'i' && "Fuchsia"@[6] == 'a',
        "fuchsia"@.len() == 7 && "fuchsia"@[0] == 'f' && "fuchsia"@[1] == 'u' && "fuchsia"@[5] == 'i' && "fuchsia"@[6] == 'a',
        "Gainsboro"@.len() == 9 && "Gainsboro"@[0] == 'G' && "Gainsboro"@[1] == 'a' && "Gainsboro"@[7] == 'r' && "Gainsboro"@[8] == 'o',
        "gainsboro"@.len() == 9 && "gainsboro"@[0] == 'g' && "gainsboro"@[1] == 'a' && "gainsboro"@[7] == 'r' && "gainsboro"@[8] == 'o',
{
    reveal_strlit("DarkGrey");
    reveal_strlit("dark-grey");
    reveal_strlit("DarkGreen");
    reveal_strlit("dark-green");
    reveal_strlit("DarkKhaki");
    reveal_strlit("dark-khaki");
    reveal_strlit("DarkMagenta");
    reveal_strlit("dark-magenta");
    reveal_strlit("DarkOliveGreen");
    reveal_strlit("dark-olive-green");
    reveal_strlit("DarkOrange");
    reveal_strlit("dark-orange");
    reveal_strlit("DarkOrchid");
    reveal_strlit("dark-orchid");
    reveal_strlit("DarkRed");
    reveal_strlit("dark-red");
    reveal_strlit("DarkSalmon");
    reveal_strlit("dark-salmon");
    reveal_strlit("DarkSeaGreen");
    reveal_strlit("dark-sea-green");
    reveal_strlit("DarkSlateBlue");
    reveal_strlit("dark-slate-blue");
    reveal_strlit("DarkSlateGray");
    reveal_strlit("dark-slate-gray");
    reveal_strlit("DarkSlateGrey");
    reveal_strlit("dark-slate-grey");
    reveal_strlit("DarkTurquoise");
    reveal_strlit("dark-turquoise");
    reveal_strlit("DarkViolet");
    reveal_strlit("dark-violet");
    reveal_strlit("DeepPink");
    reveal_strlit("deep-pink");
    reveal_strlit("DeepSkyBlue");
    reveal_strlit("deep-sky-blue");
    reveal_strlit("DimGray");
    reveal_strlit("dim-gray");
    reveal_strlit("DimGrey");
    reveal_strlit("dim-grey");
    reveal_strlit("DodgerBlue");
    reveal_strlit("dodger-blue");
    reveal_strlit("FireBrick");
    reveal_strlit("fire-brick");
    reveal_strlit("FloralWhite");
    reveal_strlit("floral-white");
    reveal_strlit("ForestGreen");
    reveal_strlit("forest-green");
    reveal_strlit("Fuchsia");
    reveal_strlit("fuchsia");
    reveal_strlit("Gainsboro");
    reveal_strlit("gainsboro");
}

/// The length and the first and last two characters of the names of
/// `named_color_part_2`, which tell all color names apart.
proof fn lemma_name_letters_part_2()
    ensures
        "GhostWhite"@.len() == 10 && "GhostWhite"@[0] == 'G' && "GhostWhite"@[1] == 'h' && "GhostWhite"@[8] == 't' && "GhostWhite"@[9] == 'e',
        "ghost-white"@.len() == 11 && "ghost-white"@[0] == 'g' && "ghost-white"@[1] == 'h' && "ghost-white"@[9] == 't' && "ghost-white"@[10] == 'e',
        "Gold"@.len() == 4 && "Gold"@[0] == 'G' && "Gold"@[1] == 'o' && "Gold"@[2] == 'l' && "Gold"@[3] == 'd',
        "gold"@.len() == 4 && "gold"@[0] == 'g' && "gold"@[1] == 'o' && "gold"@[2] == 'l' && "gold"@[3] == 'd',
        "GoldenRod"@.len() == 9 && "GoldenRod"@[0] == 'G' && "GoldenRod"@[1] == 'o' && "GoldenRod"@[7] == 'o' && "GoldenRod"@[8] == 'd',
        "golden-rod"@.len() == 10 && "golden-rod"@[0] == 'g' && "golden-rod"@[1] == 'o' && "golden-rod"@[8] == 'o' && "golden-rod"@[9] == 'd',
        "Gray"@.len() == 4 && "Gray"@[0] == 'G' && "Gray"@[1] == 'r' && "Gray"@[2] == 'a' && "Gray"@[3] == 'y',
        "gray"@.len() == 4 && "gray"@[0] == 'g' && "gray"@[1] == 'r' && "gray"@[2] == 'a' && "gray"@[3] == 'y',
        "Grey"@.len() == 4 && "Grey"@[0] == 'G' && "Grey"@[1] == 'r' && "Grey"@[2] == 'e' && "Grey"@[3] == 'y',
        "grey"@.len() == 4 && "grey"@[0] == 'g' && "grey"@[1] == 'r' && "grey"@[2] == 'e' && "grey"@[3] == 'y',
        "Green"@.len() == 5 && "Green"@[0] == 'G' && "Green"@[1] == 'r' && "Green"@[3] == 'e' && "Green"@[4] == 'n',
        "green"@.len() == 5 && "green"@[0] == 'g' && "green"@[1] == 'r' && "green"@[3] == 'e' && "green"@[4] == 'n',
        "GreenYellow"@.len() == 11 && "GreenYellow"@[0] == 'G' && "GreenYellow"@[1] == 'r' && "GreenYellow"@[9] == 'o' && "GreenYellow"@[10] == 'w',
        "green-yellow"@.len() == 12 && "green-yellow"@[0] == 'g' && "green-yellow"@[1] == 'r' && "green-yellow"@[10] == 'o' && "green-yellow"@[11] == 'w',
        "HoneyDew"@.len() == 8 && "HoneyDew"@[0] == 'H' && "HoneyDew"@[1] == 'o' && "HoneyDew"@[6] == 'e' && "HoneyDew"@[7] == 'w',
        "honey-dew"@.len() == 9 && "honey-dew"@[0] == 'h' && "honey-dew"@[1] == 'o' && "honey-dew"@[7] == 'e' && "honey-dew"@[8] == 'w',
        "HotPink"@.len() == 7 && "HotPink"@[0] == 'H' && "HotPink"@[1] == 'o' && "HotPink"@[5] == 'n' && "HotPink"@[6] == 'k',
        "hot-pink"@.len() == 8 && "hot-pink"@[0] == 'h' && "hot-pink"@[1] == 'o' && "hot-pink"@[6] == 'n' && "hot-pink"@[7] == 'k',
        "IndianRed"@.len() == 9 && "IndianRed"@[0] == 'I' && "IndianRed"@[1] == 'n' && "IndianRed"@[7] == 'e' && "IndianRed"@[8] == 'd',
        "indian-red"@.len() == 10 && "indian-red"@[0] == 'i' && "indian-red"@[1] == 'n' && "indian-red"@[8] == 'e' && "indian-red"@[9] == 'd',
        "Indigo"@.len() == 6 && "Indigo"@[0] == 'I' && "Indigo"@[1] == 'n' && "Indigo"@[4] == 'g' && "Indigo"@[5] == 'o',
        "indigo"@.len() == 6 && "indigo"@[0] == 'i' && "indigo"@[1] == 'n' && "indigo"@[4] == 'g' && "indigo"@[5] == 'o',
        "Ivory"@.len() == 5 && "Ivory"@[0] == 'I' && "Ivory"@[1] == 'v' && "Ivory"@[3] == 'r' && "Ivory"@[4] == 'y',
        "ivory"@.len() == 5 && "ivory"@[0] == 'i' && "ivory"@[1] == 'v' && "ivory"@[3] == 'r' && "ivory"@[4] == 'y',
        "Khaki"@.len() == 5 && "Khaki"@[0] == 'K' && "Khaki"@[1] == 'h' && "Khaki"@[3] == 'k' && "Khaki"@[4] == 'i',
        "khaki"@.len() == 5 && "khaki"@[0] == 'k' && "khaki"@[1] == 'h' && "khaki"@[3] == 'k' && "khaki"@[4] == 'i',
        "Lavender"@.len() == 8 && "Lavender"@[0] == 'L' && "Lavender"@[1] == 'a' && "Lavender"@[6] == 'e' && "Lavender"@[7] == 'r',
        "lavender"@.len() == 8 && "lavender"@[0] == 'l' && "lavender"@[1] == 'a' && "lavender"@[6] == 'e' && "lavender"@[7] == 'r',
        "LavenderBlush"@.len() == 13 && "LavenderBlush"@[0] == 'L' && "LavenderBlush"@[1] == 'a' && "LavenderBlush"@[11] == 's' && "LavenderBlush"@[12] == 'h',
        "lavender-blush"@.len() == 14 && "lavender-blush"@[0] == 'l' && "lavender-blush"@[1] == 'a' && "lavender-blush"@[12] == 's' && "lavender-blush"@[13] == 'h',
        "LawnGreen"@.len() == 9 && "LawnGreen"@[0] == 'L' && "LawnGreen"@[1] == 'a' && "LawnGreen"@[7] == 'e' && "LawnGreen"@[8] == 'n',
        "lawn-green"@.len() == 10 && "lawn-green"@[0] == 'l' && "lawn-green"@[1] == 'a' && "lawn-green"@[8] == 'e' && "lawn-green"@[9] == 'n',
        "LemonChiffon"@.len() == 12 && "LemonChiffon"@[0] == 'L' && "LemonChiffon"@[1] == 'e' && "LemonChiffon"@[10] == 'o' && "LemonChiffon"@[11] == 'n',
        "lemon-chiffon"@.len() == 13 && "lemon-chiffon"@[0] == 'l' && "lemon-chiffon"@[1] == 'e' && "lemon-chiffon"@[11] == 'o' && "lemon-chiffon"@[12] == 'n',
        "LightBlue"@.len() == 9 && "LightBlue"@[0] == 'L' && "LightBlue"@[1] == 'i' && "LightBlue"@[7] == 'u' && "LightBlue"@[8] == 'e',
        "light-blue"@.len() == 10 && "light-blue"@[0] == 'l' && "light-blue"@[1] == 'i' && "light-blue"@[8] == 'u' && "light-blue"@[9] == 'e',
        "LightCoral"@.len() == 10 && "LightCoral"@[0] == 'L' && "LightCoral"@[1] == 'i' && "LightCoral"@[8] == 'a' && "LightCoral"@[9] == 'l',
        "light-coral"@.len() == 11 && "light-coral"@[0] == 'l' && "light-coral"@[1] == 'i' && "light-coral"@[9] == 'a' && "light-coral"@[10] == 'l',
        "LightCyan"@.len() == 9 && "LightCyan"@[0] == 'L' && "LightCyan"@[1] == 'i' && "LightCyan"@[7] == 'a' && "LightCyan"@[8] == 'n',
        "light-cyan"@.len() == 10 && "light-cyan"@[0] == 'l' && "light-cyan"@[1] == 'i' && "light-cyan"@[8] == 'a' && "light-cyan"@[9] == 'n',
        "LightGoldenRodYellow"@.len() == 20 && "LightGoldenRodYellow"@[0] == 'L' && "LightGoldenRodYellow"@[1] == 'i' && "LightGoldenRodYellow"@[18] == 'o' && "LightGoldenRodYellow"@[19] == 'w',
        "light-golden-rod-yellow"@.len() == 23 && "light-golden-rod-yellow"@[0] == 'l' && "light-golden-rod-yellow"@[1] == 'i' && "light-golden-rod-yellow"@[21] == 'o' && "light-golden-rod-yellow"@[22] == 'w',
        "LightGray"@.len() == 9 && "LightGray"@[0] == 'L' && "LightGray"@[1] == 'i' && "LightGray"@[7] == 'a' && "LightGray"@[8] == 'y',
        "light-gray"@.len() == 10 && "light-gray"@[0] == 'l' && "light-gray"@[1] == 'i' && "light-gray"@[8] == 'a' && "light-gray"@[9] == 'y',
        "LightGrey"@.len() == 9 && "LightGrey"@[0] == 'L' && "LightGrey"@[1] == 'i' && "LightGrey"@[7] == 'e' && "LightGrey"@[8] == 'y',
        "light-grey"@.len() == 10 && "light-grey"@[0] == 'l' && "light-grey"@[1] == 'i' && "light-grey"@[8] == 'e' && "light-grey"@[9] == 'y',
        "LightGreen"@.len() == 10 && "LightGreen"@[0] == 'L' && "LightGreen"@[1] == 'i' && "LightGreen"@[8] == 'e' && "LightGreen"@[9] == 'n',
        "light-green"@.len() == 11 && "light-green"@[0] == 'l' && "light-green"@[1] == 'i' && "light-green"@[9] == 'e' && "light-green"@[10] == 'n',
        "LightPink"@.len() == 9 && "LightPink"@[0] == 'L' && "LightPink"@[1] == 'i' && "LightPink"@[7] == 'n' && "LightPink"@[8] == 'k',
        "light-pink"@.len() == 10 && "light-pink"@[0] == 'l' && "light-pink"@[1] == 'i' && "light-pink"@[8] == 'n' && "light-pink"@[9] == 'k',
{
    reveal_strlit("GhostWhite");
    reveal_strlit("ghost-white");
    reveal_strlit("Gold");
    reveal_strlit("gold");
    reveal_strlit("GoldenRod");
    reveal_strlit("golden-rod");
    reveal_strlit("Gray");
    reveal_strlit("gray");
    reveal_strlit("Grey");
    reveal_strlit("grey");
    reveal_strlit("Green");
    reveal_strlit("green");
    reveal_strlit("GreenYellow");
    reveal_strlit("green-yellow");
    reveal_strlit("HoneyDew");
    reveal_strlit("honey-dew");
    reveal_strlit("HotPink");
    reveal_strlit("hot-pink");
    reveal_strlit("IndianRed");
    reveal_strlit("indian-red");
    reveal_strlit("Indigo");
    reveal_strlit("indigo");
    reveal_strlit("Ivory");
    reveal_strlit("ivory");
    reveal_strlit("Khaki");
    reveal_strlit("khaki");
    reveal_strlit("Lavender");
    reveal_strlit("lavender");
    reveal_strlit("LavenderBlush");
    reveal_strlit("lavender-blush");
    reveal_strlit("LawnGreen");
    reveal_strlit("lawn-green");
    reveal_strlit("LemonChiffon");
    reveal_strlit("lemon-chiffon");
    reveal_strlit("LightBlue");
    reveal_strlit("light-blue");
    reveal_strlit("LightCoral");
    reveal_strlit("light-coral");
    reveal_strlit("LightCyan");
    reveal_strlit("light-cyan");
    reveal_strlit("LightGoldenRodYellow");
    reveal_strlit("light-golden-rod-yellow");
    reveal_strlit("LightGray");
    reveal_strlit("light-gray");
    reveal_strlit("LightGrey");
    reveal_strlit("light-grey");
    reveal_strlit("LightGreen");
    reveal_strlit("light-green");
    reveal_strlit("LightPink");
    reveal_strlit("light-pink");
}

/// The length and the first and last two characters of the names of
/// `named_color_part_3`, which tell all color names apart.
proof fn lemma_name_letters_part_3()
    ensures
        "LightSalmon"@.len() == 11 && "LightSalmon"@[0] == 'L' && "LightSalmon"@[1] == 'i' && "LightSalmon"@[9] == 'o' && "LightSalmon"@[10] == 'n',
        "light-salmon"@.len() == 12 && "light-salmon"@[0] == 'l' && "light-salmon"@[1] == 'i' && "light-salmon"@[10] == 'o' && "light-salmon"@[11] == 'n',
        "LightSeaGreen"@.len() == 13 && "LightSeaGreen"@[0] == 'L' && "LightSeaGreen"@[1] == 'i' && "LightSeaGreen"@[11] == 'e' && "LightSeaGreen"@[12] == 'n',
        "light-sea-green"@.len() == 15 && "light-sea-green"@[0] == 'l' && "light-sea-green"@[1] == 'i' && "light-sea-green"@[13] == 'e' && "light-sea-green"@[14] == 'n',
        "LightSkyBlue"@.len() == 12 && "LightSkyBlue"@[0] == 'L' && "LightSkyBlue"@[1] == 'i' && "LightSkyBlue"@[10] == 'u' && "LightSkyBlue"@[11] == 'e',
        "light-sky-blue"@.len() == 14 && "light-sky-blue"@[0] == 'l' && "light-sky-blue"@[1] == 'i' && "light-sky-blue"@[12] == 'u' && "light-sky-blue"@[13] == 'e',
        "LightSlateGray"@.len() == 14 && "LightSlateGray"@[0] == 'L' && "LightSlateGray"@[1] == 'i' && "LightSlateGray"@[12] == 'a' && "LightSlateGray"@[13] == 'y',
        "light-slate-gray"@.len() == 16 && "light-slate-gray"@[0] == 'l' && "light-slate-gray"@[1] == 'i' && "light-slate-gray"@[14] == 'a' && "light-slate-gray"@[15] == 'y',
        "LightSlateGrey"@.len() == 14 && "LightSlateGrey"@[0] == 'L' && "LightSlateGrey"@[1] == 'i' && "LightSlateGrey"@[12] == 'e' && "LightSlateGrey"@[13] == 'y',
        "light-slate-grey"@.len() == 16 && "light-slate-grey"@[0] == 'l' && "light-slate-grey"@[1] == 'i' && "light-slate-grey"@[14] == 'e' && "light-slate-grey"@[15] == 'y',
        "LightSteelBlue"@.len() == 14 && "LightSteelBlue"@[0] == 'L' && "LightSteelBlue"@[1] == 'i' && "LightSteelBlue"@[12] == 'u' && "LightSteelBlue"@[13] == 'e',
        "light-steel-blue"@.len() == 16 && "light-steel-blue"@[0] == 'l' && "light-steel-blue"@[1] == 'i' && "light-steel-blue"@[14] == 'u' && "light-steel-blue"@[15] == 'e',
        "LightYellow"@.len() == 11 && "LightYellow"@[0] == 'L' && "LightYellow"@[1] == 'i' && "LightYellow"@[9] == 'o' && "LightYellow"@[10] == 'w',
        "light-yellow"@.len() == 12 && "light-yellow"@[0] == 'l' && "light-yellow"@[1] == 'i' && "light-yellow"@[10] == 'o' && "light-yellow"@[11] == 'w',
        "Lime"@.len() == 4 && "Lime"@[0] == 'L' && "Lime"@[1] == 'i' && "Lime"@[2] == 'm' && "Lime"@[3] == 'e',
        "lime"@.len() == 4 && "lime"@[0] == 'l' && "lime"@[1] == 'i' && "lime"@[2] == 'm' && "lime"@[3] == 'e',
        "LimeGreen"@.len() == 9 && "LimeGreen"@[0] == 'L' && "LimeGreen"@[1] == 'i' && "LimeGreen"@[7] == 'e' && "LimeGreen"@[8] == 'n',
        "lime-green"@.len() == 10 && "lime-green"@[0] == 'l' && "lime-green"@[1] == 'i' && "lime-green"@[8] == 'e' && "lime-green"@[9] == 'n',
        "Linen"@.len() == 5 && "Linen"@[0] == 'L' && "Linen"@[1] == 'i' && "Linen"@[3] == 'e' && "Linen"@[4] == 'n',
        "linen"@.len() == 5 && "linen"@[0] == 'l' && "linen"@[1] == 'i' && "linen"@[3] == 'e' && "linen"@[4] == 'n',
        "Magenta"@.len() == 7 && "Magenta"@[0] == 'M' && "Magenta"@[1] == 'a' && "Magenta"@[5] == 't' && "Magenta"@[6] == 'a',
        "magenta"@.len() == 7 && "magenta"@[0] == 'm' && "magenta"@[1] == 'a' && "magenta"@[5] == 't' && "magenta"@[6] == 'a',
        "Maroon"@.len() == 6 && "Maroon"@[0] == 'M' && "Maroon"@[1] == 'a' && "Maroon"@[4] == 'o' && "Maroon"@[5] == 'n',
        "maroon"@.len() == 6 && "maroon"@[0] == 'm' && "maroon"@[1] == 'a' && "maroon"@[4] == 'o' && "maroon"@[5] == 'n',
        "MediumAquaMarine"@.len() == 16 && "MediumAquaMarine"@[0] == 'M' && "MediumAquaMarine"@[1] == 'e' && "MediumAquaMarine"@[14] == 'n' && "MediumAquaMarine"@[15] == 'e',
        "medium-aqua-marine"@.len() == 18 && "medium-aqua-marine"@[0] == 'm' && "medium-aqua-marine"@[1] == 'e' && "medium-aqua-marine"@[16] == 'n' && "medium-aqua-marine"@[17] == 'e',
        "MediumBlue"@.len() == 10 && "MediumBlue"@[0] == 'M' && "MediumBlue"@[1] == 'e' && "MediumBlue"@[8] == 'u' && "MediumBlue"@[9] == 'e',
        "medium-blue"@.len() == 11 && "medium-blue"@[0] == 'm' && "medium-blue"@[1] == 'e' && "medium-blue"@[9] == 'u' && "medium-blue"@[10] == 'e',
        "MediumOrchid"@.len() == 12 && "MediumOrchid"@[0] == 'M' && "MediumOrchid"@[1] == 'e' && "MediumOrchid"@[10] == 'i' && "MediumOrchid"@[11] == 'd',
        "medium-orchid"@.len() == 13 && "medium-orchid"@[0] == 'm' && "medium-orchid"@[1] == 'e' && "medium-orchid"@[11] == 'i' && "medium-orchid"@[12] == 'd',
        "MediumPurple"@.len() == 12 && "MediumPurple"@[0] == 'M' && "MediumPurple"@[1] == 'e' && "MediumPurple"@[10] == 'l' && "MediumPurple"@[11] == 'e',
        "medium-purple"@.len() == 13 && "medium-purple"@[0] == 'm' && "medium-purple"@[1] == 'e' && "medium-purple"@[11] == 'l' && "medium-purple"@[12] == 'e',
        "MediumSeaGreen"@.len() == 14 && "MediumSeaGreen"@[0] == 'M' && "MediumSeaGreen"@[1] == 'e' && "MediumSeaGreen"@[12] == 'e' && "MediumSeaGreen"@[13] == 'n',
        "medium-sea-green"@.len() == 16 && "medium-sea-green"@[0] == 'm' && "medium-sea-green"@[1] == 'e' && "medium-sea-green"@[14] == 'e' && "medium-sea-green"@[15] == 'n',
        "MediumSlateBlue"@.len() == 15 && "MediumSlateBlue"@[0] == 'M' && "MediumSlateBlue"@[1] == 'e' && "MediumSlateBlue"@[13] == 'u' && "MediumSlateBlue"@[14] == 'e',
        "medium-slate-blue"@.len() == 17 && "medium-slate-blue"@[0] == 'm' && "medium-slate-blue"@[1] == 'e' && "medium-slate-blue"@[15] == 'u' && "medium-slate-blue"@[16] == 'e',
        "MediumSpringGreen"@.len() == 17 && "MediumSpringGreen"@[0] == 'M' && "MediumSpringGreen"@[1] == 'e' && "MediumSpringGreen"@[15] == 'e' && "MediumSpringGreen"@[16] == 'n',
        "medium-spring-green"@.len() == 19 && "medium-spring-green"@[0] == 'm' && "medium-spring-green"@[1] == 'e' && "medium-spring-green"@[17] == 'e' && "medium-spring-green"@[18] == 'n',
        "MediumTurquoise"@.len() == 15 && "MediumTurquoise"@[0] == 'M' && "MediumTurquoise"@[1] == 'e' && "MediumTurquoise"@[13] == 's' && "MediumTurquoise"@[14] == 'e',
        "medium-turquoise"@.len() == 16 && "medium-turquoise"@[0] == 'm' && "medium-turquoise"@[1] == 'e' && "medium-turquoise"@[14] == 's' && "medium-turquoise"@[15] == 'e',
        "MediumVioletRed"@.len() == 15 && "MediumVioletRed"@[0] == 'M' && "MediumVioletRed"@[1] == 'e' && "MediumVioletRed"@[13] == 'e' && "MediumVioletRed"@[14] == 'd',
        "medium-violet-red"@.len() == 17 && "medium-violet-red"@[0] == 'm' && "medium-violet-red"@[1] == 'e' && "medium-violet-red"@[15] == 'e' && "medium-violet-red"@[16] == 'd',
        "MidnightBlue"@.len() == 12 && "MidnightBlue"@[0] == 'M' && "MidnightBlue"@[1] == 'i' && "MidnightBlue"@[10] == 'u' && "MidnightBlue"@[11] == 'e',
        "midnight-blue"@.len() == 13 && "midnight-blue"@[0] == 'm' && "midnight-blue"@[1] == 'i' && "midnight-blue"@[11] == 'u' && "midnight-blue"@[12] == 'e',
        "MintCream"@.len() == 9 && "MintCream"@[0] == 'M' && "MintCream"@[1] == 'i' && "MintCream"@[7] == 'a' && "MintCream"@[8] == 'm',
        "mint-cream"@.len() == 10 && "mint-cream"@[0] == 'm' && "mint-cream"@[1] == 'i' && "mint-cream"@[8] == 'a' && "mint-cream"@[9] == 'm',
        "MistyRose"@.len() == 9 && "MistyRose"@[0] == 'M' && "MistyRose"@[1] == 'i' && "MistyRose"@[7] == 's' && "MistyRose"@[8] == 'e',
        "misty-rose"@.len() == 10 && "misty-rose"@[0] == 'm' && "misty-rose"@[1] == 'i' && "misty-rose"@[8] == 's' && "misty-rose"@[9] == 'e',
        "Moccasin"@.len() == 8 && "Moccasin"@[0] == 'M' && "Moccasin"@[1] == 'o' && "Moccasin"@[6] == 'i' && "Moccasin"@[7] == 'n',
        "moccasin"@.len() == 8 && "moccasin"@[0] == 'm' && "moccasin"@[1] == 'o' && "moccasin"@[6] == 'i' && "moccasin"@[7] == 'n',
{
    reveal_strlit("LightSalmon");
    reveal_strlit("light-salmon");
    reveal_strlit("LightSeaGreen");
    reveal_strlit("light-sea-green");
    reveal_strlit("LightSkyBlue");
    reveal_strlit("light-sky-blue");
    reveal_strlit("LightSlateGray");
    reveal_strlit("light-slate-gray");
    reveal_strlit("LightSlateGrey");
    reveal_strlit("light-slate-grey");
    reveal_strlit("LightSteelBlue");
    reveal_strlit("light-steel-blue");
    reveal_strlit("LightYellow");
    reveal_strlit("light-yellow");
    reveal_strlit("Lime");
    reveal_strlit("lime");
    reveal_strlit("LimeGreen");
    reveal_strlit("lime-green");
    reveal_strlit("Linen");
    reveal_strlit("linen");
    reveal_strlit("Magenta");
    reveal_strlit("magenta");
    reveal_strlit("Maroon");
    reveal_strlit("maroon");
    reveal_strlit("MediumAquaMarine");
    reveal_strlit("medium-aqua-marine");
    reveal_strlit("MediumBlue");
    reveal_strlit("medium-blue");
    reveal_strlit("MediumOrchid");
    reveal_strlit("medium-orchid");
    reveal_strlit("MediumPurple");
    reveal_strlit("medium-purple");
    reveal_strlit("MediumSeaGreen");
    reveal_strlit("medium-sea-green");
    reveal_strlit("MediumSlateBlue");
    reveal_strlit("medium-slate-blue");
    reveal_strlit("MediumSpringGreen");
    reveal_strlit("medium-spring-green");
    reveal_strlit("MediumTurquoise");
    reveal_strlit("medium-turquoise");
    reveal_strlit("MediumVioletRed");
    reveal_strlit("medium-violet-red");
    reveal_strlit("MidnightBlue");
    reveal_strlit("midnight-blue");
    reveal_strlit("MintCream");
    reveal_strlit("mint-cream");
    reveal_strlit("MistyRose");
    reveal_strlit("misty-rose");
    reveal_strlit("Moccasin");
    reveal_strlit("moccasin");
}

/// The length and the first and last two characters of the names of
/// `named_color_part_4`, which tell all color names apart.
proof fn lemma_name_letters_part_4()
    ensures
        "NavajoWhite"@.len() == 11 && "NavajoWhite"@[0] == 'N' && "NavajoWhite"@[1] == 'a' && "NavajoWhite"@[9] == 't' && "NavajoWhite"@[10] == 'e',
        "navajo-white"@.len() == 12 && "navajo-white"@[0] == 'n' && "navajo-white"@[1] == 'a' && "navajo-white"@[10] == 't' && "navajo-white"@[11] == 'e',
        "Navy"@.len() == 4 && "Navy"@[0] == 'N' && "Navy"@[1] == 'a' && "Navy"@[2] == 'v' && "Navy"@[3] == 'y',
        "navy"@.len() == 4 && "navy"@[0] == 'n' && "navy"@[1] == 'a' && "navy"@[2] == 'v' && "navy"@[3] == 'y',
        "OldLace"@.len() == 7 && "OldLace"@[0] == 'O' && "OldLace"@[1] == 'l' && "OldLace"@[5] == 'c' && "OldLace"@[6] == 'e',
        "old-lace"@.len() == 8 && "old-lace"@[0] == 'o' && "old-lace"@[1] == 'l' && "old-lace"@[6] == 'c' && "old-lace"@[7] == 'e',
        "Olive"@.len() == 5 && "Olive"@[0] == 'O' && "Olive"@[1] == 'l' && "Olive"@[3] == 'v' && "Olive"@[4] == 'e',
        "olive"@.len() == 5 && "olive"@[0] == 'o' && "olive"@[1] == 'l' && "olive"@[3] == 'v' && "olive"@[4] == 'e',
        "OliveDrab"@.len() == 9 && "OliveDrab"@[0] == 'O' && "OliveDrab"@[1] == 'l' && "OliveDrab"@[7] == 'a' && "OliveDrab"@[8] == 'b',
        "olive-drab"@.len() == 10 && "olive-drab"@[0] == 'o' && "olive-drab"@[1] == 'l' && "olive-drab"@[8] == 'a' && "olive-drab"@[9] == 'b',
        "Orange"@.len() == 6 && "Orange"@[0] == 'O' && "Orange"@[1] == 'r' && "Orange"@[4] == 'g' && "Orange"@[5] == 'e',
        "orange"@.len() == 6 && "orange"@[0] == 'o' && "orange"@[1] == 'r' && "orange"@[4] == 'g' && "orange"@[5] == 'e',
        "OrangeRed"@.len() == 9 && "OrangeRed"@[0] == 'O' && "OrangeRed"@[1] == 'r' && "OrangeRed"@[7] == 'e' && "OrangeRed"@[8] == 'd',
        "orange-red"@.len() == 10 && "orange-red"@[0] == 'o' && "orange-red"@[1] == 'r' && "orange-red"@[8] == 'e' && "orange-red"@[9] == 'd',
        "Orchid"@.len() == 6 && "Orchid"@[0] == 'O' && "Orchid"@[1] == 'r' && "Orchid"@[4] == 'i' && "Orchid"@[5] == 'd',
        "orchid"@.len() == 6 && "orchid"@[0] == 'o' && "orchid"@[1] == 'r' && "orchid"@[4] == 'i' && "orchid"@[5] == 'd',
        "PaleGoldenRod"@.len() == 13 && "PaleGoldenRod"@[0] == 'P' && "PaleGoldenRod"@[1] == 'a' && "PaleGoldenRod"@[11] == 'o' && "PaleGoldenRod"@[12] == 'd',
        "pale-golden-rod"@.len() == 15 && "pale-golden-rod"@[0] == 'p' && "pale-golden-rod"@[1] == 'a' && "pale-golden-rod"@[13] == 'o' && "pale-golden-rod"@[14] == 'd',
        "PaleGreen"@.len() == 9 && "PaleGreen"@[0] == 'P' && "PaleGreen"@[1] == 'a' && "PaleGreen"@[7] == 'e' && "PaleGreen"@[8] == 'n',
        "pale-green"@.len() == 10 && "pale-green"@[0] == 'p' && "pale-green"@[1] == 'a' && "pale-green"@[8] == 'e' && "pale-green"@[9] == 'n',
        "PaleTurquoise"@.len() == 13 && "PaleTurquoise"@[0] == 'P' && "PaleTurquoise"@[1] == 'a' && "PaleTurquoise"@[11] == 's' && "PaleTurquoise"@[12] == 'e',
        "pale-turquoise"@.len() == 14 && "pale-turquoise"@[0] == 'p' && "pale-turquoise"@[1] == 'a' && "pale-turquoise"@[12] == 's' && "pale-turquoise"@[13] == 'e',
        "PaleVioletRed"@.len() == 13 && "PaleVioletRed"@[0] == 'P' && "PaleVioletRed"@[1] == 'a' && "PaleVioletRed"@[11] == 'e' && "PaleVioletRed"@[12] == 'd',
        "pale-violet-red"@.len() == 15 && "pale-violet-red"@[0] == 'p' && "pale-violet-red"@[1] == 'a' && "pale-violet-red"@[13] == 'e' && "pale-violet-red"@[14] == 'd',
        "PapayaWhip"@.len() == 10 && "PapayaWhip"@[0] == 'P' && "PapayaWhip"@[1] == 'a' && "PapayaWhip"@[8] == 'i' && "PapayaWhip"@[9] == 'p',
        "papaya-whip"@.len() == 11 && "papaya-whip"@[0] == 'p' && "papaya-whip"@[1] == 'a' && "papaya-whip"@[9] == 'i' && "papaya-whip"@[10] == 'p',
        "PeachPuff"@.len() == 9 && "PeachPuff"@[0] == 'P' && "PeachPuff"@[1] == 'e' && "PeachPuff"@[7] == 'f' && "PeachPuff"@[8] == 'f',
        "peach-puff"@.len() == 10 && "peach-puff"@[0] == 'p' && "peach-puff"@[1] == 'e' && "peach-puff"@[8] == 'f' && "peach-puff"@[9] == 'f',
        "Peru"@.len() == 4 && "Peru"@[0] == 'P' && "Peru"@[1] == 'e' && "Peru"@[2] == 'r' && "Peru"@[3] == 'u',
        "peru"@.len() == 4 && "peru"@[0] == 'p' && "peru"@[1] == 'e' && "peru"@[2] == 'r' && "peru"@[3] == 'u',
        "Pink"@.len() == 4 && "Pink"@[0] == 'P' && "Pink"@[1] == 'i' && "Pink"@[2] == 'n' && "Pink"@[3] == 'k',
        "pink"@.len() == 4 && "pink"@[0] == 'p' && "pink"@[1] == 'i' && "pink"@[2] == 'n' && "pink"@[3] == 'k',
        "Plum"@.len() == 4 && "Plum"@[0] == 'P' && "Plum"@[1] == 'l' && "Plum"@[2] == 'u' && "Plum"@[3] == 'm',
        "plum"@.len() == 4 && "plum"@[0] == 'p' && "plum"@[1] == 'l' && "plum"@[2] == 'u' && "plum"@[3] == 'm',
        "PowderBlue"@.len() == 10 && "PowderBlue"@[0] == 'P' && "PowderBlue"@[1] == 'o' && "PowderBlue"@[8] == 'u' && "PowderBlue"@[9] == 'e',
        "powder-blue"@.len() == 11 && "powder-blue"@[0] == 'p' && "powder-blue"@[1] == 'o' && "powder-blue"@[9] == 'u' && "powder-blue"@[10] == 'e',
        "Purple"@.len() == 6 && "Purple"@[0] == 'P' && "Purple"@[1] == 'u' && "Purple"@[4] == 'l' && "Purple"@[5] == 'e',
        "purple"@.len() == 6 && "purple"@[0] == 'p' && "purple"@[1] == 'u' && "purple"@[4] == 'l' && "purple"@[5] == 'e',
        "RebeccaPurple"@.len() == 13 && "RebeccaPurple"@[0] == 'R' && "RebeccaPurple"@[1] == 'e' && "RebeccaPurple"@[11] == 'l' && "RebeccaPurple"@[12] == 'e',
        "rebecca-purple"@.len() == 14 && "rebecca-purple"@[0] == 'r' && "rebecca-purple"@[1] == 'e' && "rebecca-purple"@[12] == 'l' && "rebecca-purple"@[13] == 'e',
        "Red"@.len() == 3 && "Red"@[0] == 'R' && "Red"@[1] == 'e' && "Red"@[2] == 'd',
        "red"@.len() == 3 && "red"@[0] == 'r' && "red"@[1] == 'e' && "red"@[2] == 'd',
        "RosyBrown"@.len() == 9 && "RosyBrown"@[0] == 'R' && "RosyBrown"@[1] == 'o' && "RosyBrown"@[7] == 'w' && "RosyBrown"@[8] == 'n',
        "rosy-brown"@.len() == 10 && "rosy-brown"@[0] == 'r' && "rosy-brown"@[1] == 'o' && "rosy-brown"@[8] == 'w' && "rosy-brown"@[9] == 'n',
        "RoyalBlue"@.len() == 9 && "RoyalBlue"@[0] == 'R' && "RoyalBlue"@[1] == 'o' && "RoyalBlue"@[7] == 'u' && "RoyalBlue"@[8] == 'e',
        "royal-blue"@.len() == 10 && "royal-blue"@[0] == 'r' && "royal-blue"@[1] == 'o' && "royal-blue"@[8] == 'u' && "royal-blue"@[9] == 'e',
        "SaddleBrown"@.len() == 11 && "SaddleBrown"@[0] == 'S' && "SaddleBrown"@[1] == 'a' && "SaddleBrown"@[9] == 'w' && "SaddleBrown"@[10] == 'n',
        "saddle-brown"@.len() == 12 && "saddle-brown"@[0] == 's' && "saddle-brown"@[1] == 'a' && "saddle-brown"@[10] == 'w' && "saddle-brown"@[11] == 'n',
        "Salmon"@.len() == 6 && "Salmon"@[0] == 'S' && "Salmon"@[1] == 'a' && "Salmon"@[4] == 'o' && "Salmon"@[5] == 'n',
        "salmon"@.len() == 6 && "salmon"@[0] == 's' && "salmon"@[1] == 'a' && "salmon"@[4] == 'o' && "salmon"@[5] == 'n',
{
    reveal_strlit("NavajoWhite");
    reveal_strlit("navajo-white");
    reveal_strlit("Navy");
    reveal_strlit("navy");
    reveal_strlit("OldLace");
    reveal_strlit("old-lace");
    reveal_strlit("Olive");
    reveal_strlit("olive");
    reveal_strlit("OliveDrab");
    reveal_strlit("olive-drab");
    reveal_strlit("Orange");
    reveal_strlit("orange");
    reveal_strlit("OrangeRed");
    reveal_strlit("orange-red");
    reveal_strlit("Orchid");
    reveal_strlit("orchid");
    reveal_strlit("PaleGoldenRod");
    reveal_strlit("pale-golden-rod");
    reveal_strlit("PaleGreen");
    reveal_strlit("pale-green");
    reveal_strlit("PaleTurquoise");
    reveal_strlit("pale-turquoise");
    reveal_strlit("PaleVioletRed");
    reveal_strlit("pale-violet-red");
    reveal_strlit("PapayaWhip");
    reveal_strlit("papaya-whip");
    reveal_strlit("PeachPuff");
    reveal_strlit("peach-puff");
    reveal_strlit("Peru");
    reveal_strlit("peru");
    reveal_strlit("Pink");
    reveal_strlit("pink");
    reveal_strlit("Plum");
    reveal_strlit("plum");
    reveal_strlit("PowderBlue");
    reveal_strlit("powder-blue");
    reveal_strlit("Purple");
    reveal_strlit("purple");
    reveal_strlit("RebeccaPurple");
    reveal_strlit("rebecca-purple");
    reveal_strlit("Red");
    reveal_strlit("red");
    reveal_strlit("RosyBrown");
    reveal_strlit("rosy-brown");
    reveal_strlit("RoyalBlue");
    reveal_strlit("royal-blue");
    reveal_strlit("SaddleBrown");
    reveal_strlit("saddle-brown");
    reveal_strlit("Salmon");
    reveal_strlit("salmon");
}

/// The length and the first and last two characters of the names of
/// `named_color_part_5`, which tell all color names apart.
proof fn lemma_name_letters_part_5()
    ensures
        "SandyBrown"@.len() == 10 && "SandyBrown"@[0] == 'S' && "SandyBrown"@[1] == 'a' && "SandyBrown"@[8] == 'w' && "SandyBrown"@[9] == 'n',
        "sandy-brown"@.len() == 11 && "sandy-brown"@[0] == 's' && "sandy-brown"@[1] == 'a' && "sandy-brown"@[9] == 'w' && "sandy-brown"@[10] == 'n',
        "SeaGreen"@.len() == 8 && "SeaGreen"@[0] == 'S' && "SeaGreen"@[1] == 'e' && "SeaGreen"@[6] == 'e' && "SeaGreen"@[7] == 'n',
        "sea-green"@.len() == 9 && "sea-green"@[0] == 's' && "sea-green"@[1] == 'e' && "sea-green"@[7] == 'e' && "sea-green"@[8] == 'n',
        "SeaShell"@.len() == 8 && "SeaShell"@[0] == 'S' && "SeaShell"@[1] == 'e' && "SeaShell"@[6] == 'l' && "SeaShell"@[7] == 'l',
        "sea-shell"@.len() == 9 && "sea-shell"@[0] == 's' && "sea-shell"@[1] == 'e' && "sea-shell"@[7] == 'l' && "sea-shell"@[8] == 'l',
        "Sienna"@.len() == 6 && "Sienna"@[0] == 'S' && "Sienna"@[1] == 'i' && "Sienna"@[4] == 'n' && "Sienna"@[5] == 'a',
        "sienna"@.len() == 6 && "sienna"@[0] == 's' && "sienna"@[1] == 'i' && "sienna"@[4] == 'n' && "sienna"@[5] == 'a',
        "Silver"@.len() == 6 && "Silver"@[0] == 'S' && "Silver"@[1] == 'i' && "Silver"@[4] == 'e' && "Silver"@[5] == 'r',
        "silver"@.len() == 6 && "silver"@[0] == 's' && "silver"@[1] == 'i' && "silver"@[4] == 'e' && "silver"@[5] == 'r',
        "SkyBlue"@.len() == 7 && "SkyBlue"@[0] == 'S' && "SkyBlue"@[1] == 'k' && "SkyBlue"@[5] == 'u' && "SkyBlue"@[6] == 'e',
        "sky-blue"@.len() == 8 && "sky-blue"@[0] == 's' && "sky-blue"@[1] == 'k' && "sky-blue"@[6] == 'u' && "sky-blue"@[7] == 'e',
        "SlateBlue"@.len() == 9 && "SlateBlue"@[0] == 'S' && "SlateBlue"@[1] == 'l' && "SlateBlue"@[7] == 'u' && "SlateBlue"@[8] == 'e',
        "slate-blue"@.len() == 10 && "slate-blue"@[0] == 's' && "slate-blue"@[1] == 'l' && "slate-blue"@[8] == 'u' && "slate-blue"@[9] == 'e',
        "SlateGray"@.len() == 9 && "SlateGray"@[0] == 'S' && "SlateGray"@[1] == 'l' && "SlateGray"@[7] == 'a' && "SlateGray"@[8] == 'y',
        "slate-gray"@.len() == 10 && "slate-gray"@[0] == 's' && "slate-gray"@[1] == 'l' && "slate-gray"@[8] == 'a' && "slate-gray"@[9] == 'y',
        "SlateGrey"@.len() == 9 && "SlateGrey"@[0] == 'S' && "SlateGrey"@[1] == 'l' && "SlateGrey"@[7] == 'e' && "SlateGrey"@[8] == 'y',
        "slate-grey"@.len() == 10 && "slate-grey"@[0] == 's' && "slate-grey"@[1] == 'l' && "slate-grey"@[8] == 'e' && "slate-grey"@[9] == 'y',
        "Snow"@.len() == 4 && "Snow"@[0] == 'S' && "Snow"@[1] == 'n' && "Snow"@[2] == 'o' && "Snow"@[3] == 'w',
        "snow"@.len() == 4 && "snow"@[0] == 's' && "snow"@[1] == 'n' && "snow"@[2] == 'o' && "snow"@[3] == 'w',
        "SpringGreen"@.len() == 11 && "SpringGreen"@[0] == 'S' && "SpringGreen"@[1] == 'p' && "SpringGreen"@[9] == 'e' && "SpringGreen"@[10] == 'n',
        "spring-green"@.len() == 12 && "spring-green"@[0] == 's' && "spring-green"@[1] == 'p' && "spring-green"@[10] == 'e' && "spring-green"@[11] == 'n',
        "SteelBlue"@.len() == 9 && "SteelBlue"@[0] == 'S' && "SteelBlue"@[1] == 't' && "SteelBlue"@[7] == 'u' && "SteelBlue"@[8] == 'e',
        "steel-blue"@.len() == 10 && "steel-blue"@[0] == 's' && "steel-blue"@[1] == 't' && "steel-blue"@[8] == 'u' && "steel-blue"@[9] == 'e',
        "Tan"@.len() == 3 && "Tan"@[0] == 'T' && "Tan"@[1] == 'a' && "Tan"@[2] == 'n',
        "tan"@.len() == 3 && "tan"@[0] == 't' && "tan"@[1] == 'a' && "tan"@[2] == 'n',
        "Teal"@.len() == 4 && "Teal"@[0] == 'T' && "Teal"@[1] == 'e' && "Teal"@[2] == 'a' && "Teal"@[3] == 'l',
        "teal"@.len() == 4 && "teal"@[0] == 't' && "teal"@[1] == 'e' && "teal"@[2] == 'a' && "teal"@[3] == 'l',
        "Thistle"@.len() == 7 && "Thistle"@[0] == 'T' && "Thistle"@[1] == 'h' && "Thistle"@[5] == 'l' && "Thistle"@[6] == 'e',
        "thistle"@.len() == 7 && "thistle"@[0] == 't' && "thistle"@[1] == 'h' && "thistle"@[5] == 'l' && "thistle"@[6] == 'e',
        "Tomato"@.len() == 6 && "Tomato"@[0] == 'T' && "Tomato"@[1] == 'o' && "Tomato"@[4] == 't' && "Tomato"@[5] == 'o',
        "tomato"@.len() == 6 && "tomato"@[0] == 't' && "tomato"@[1] == 'o' && "tomato"@[4] == 't' && "tomato"@[5] == 'o',
        "Turquoise"@.len() == 9 && "Turquoise"@[0] == 'T' && "Turquoise"@[1] == 'u' && "Turquoise"@[7] == 's' && "Turquoise"@[8] == 'e',
        "turquoise"@.len() == 9 && "turquoise"@[0] == 't' && "turquoise"@[1] == 'u' && "turquoise"@[7] == 's' && "turquoise"@[8] == 'e',
        "Violet"@.len() == 6 && "Violet"@[0] == 'V' && "Violet"@[1] == 'i' && "Violet"@[4] == 'e' && "Violet"@[5] == 't',
        "violet"@.len() == 6 && "violet"@[0] == 'v' && "violet"@[1] == 'i' && "violet"@[4] == 'e' && "violet"@[5] == 't',
        "Wheat"@.len() == 5 && "Wheat"@[0] == 'W' && "Wheat"@[1] == 'h' && "Wheat"@[3] == 'a' && "Wheat"@[4] == 't',
        "wheat"@.len() == 5 && "wheat"@[0] == 'w' && "wheat"@[1] == 'h' && "wheat"@[3] == 'a' && "wheat"@[4] == 't',
        "White"@.len() == 5 && "White"@[0] == 'W' && "White"@[1] == 'h' && "White"@[3] == 't' && "White"@[4] == 'e',
        "white"@.len() == 5 && "white"@[0] == 'w' && "white"@[1] == 'h' && "white"@[3] == 't' && "white"@[4] == 'e',
        "WhiteSmoke"@.len() == 10 && "WhiteSmoke"@[0] == 'W' && "WhiteSmoke"@[1] == 'h' && "WhiteSmoke"@[8] == 'k' && "WhiteSmoke"@[9] == 'e',
        "white-smoke"@.len() == 11 && "white-smoke"@[0] == 'w' && "white-smoke"@[1] == 'h' && "white-smoke"@[9] == 'k' && "white-smoke"@[10] == 'e',
        "Yellow"@.len() == 6 && "Yellow"@[0] == 'Y' && "Yellow"@[1] == 'e' && "Yellow"@[4] == 'o' && "Yellow"@[5] == 'w',
        "yellow"@.len() == 6 && "yellow"@[0] == 'y' && "yellow"@[1] == 'e' && "yellow"@[4] == 'o' && "yellow"@[5] == 'w',
        "YellowGreen"@.len() == 11 && "YellowGreen"@[0] == 'Y' && "YellowGreen"@[1] == 'e' && "YellowGreen"@[9] == 'e' && "YellowGreen"@[10] == 'n',
        "yellow-green"@.len() == 12 && "yellow-green"@[0] == 'y' && "yellow-green"@[1] == 'e' && "yellow-green"@[10] == 'e' && "yellow-green"@[11] == 'n',
{
    reveal_strlit("SandyBrown");
    reveal_strlit("sandy-brown");
    reveal_strlit("SeaGreen");
    reveal_strlit("sea-green");
    reveal_strlit("SeaShell");
    reveal_strlit("sea-shell");
    reveal_strlit("Sienna");
    reveal_strlit("sienna");
    reveal_strlit("Silver");
    reveal_strlit("silver");
    reveal_strlit("SkyBlue");
    reveal_strlit("sky-blue");
    reveal_strlit("SlateBlue");
    reveal_strlit("slate-blue");
    reveal_strlit("SlateGray");
    reveal_strlit("slate-gray");
    reveal_strlit("SlateGrey");
    reveal_strlit("slate-grey");
    reveal_strlit("Snow");
    reveal_strlit("snow");
    reveal_strlit("SpringGreen");
    reveal_strlit("spring-green");
    reveal_strlit("SteelBlue");
    reveal_strlit("steel-blue");
    reveal_strlit("Tan");
    reveal_strlit("tan");
    reveal_strlit("Teal");
    reveal_strlit("teal");
    reveal_strlit("Thistle");
    reveal_strlit("thistle");
    reveal_strlit("Tomato");
    reveal_strlit("tomato");
    reveal_strlit("Turquoise");
    reveal_strlit("turquoise");
    reveal_strlit("Violet");
    reveal_strlit("violet");
    reveal_strlit("Wheat");
    reveal_strlit("wheat");
    reveal_strlit("White");
    reveal_strlit("white");
    reveal_strlit("WhiteSmoke");
    reveal_strlit("white-smoke");
    reveal_strlit("Yellow");
    reveal_strlit("yellow");
    reveal_strlit("YellowGreen");
    reveal_strlit("yellow-green");
}

/// The rows of the color table from `AliceBlue` to `DarkGray`: a CamelCase name, its
/// hyphenated name and the hex digits of its color.
pub open spec fn named_color_row_part_0(camel: Seq<char>, hyphenated: Seq<char>, hex: Seq<char>) -> bool {
    ||| camel == "AliceBlue"@ && hyphenated == "alice-blue"@ && hex == "F0F8FF"@
    ||| camel == "AntiqueWhite"@ && hyphenated == "antique-white"@ && hex == "FAEBD7"@
    ||| camel == "Aqua"@ && hyphenated == "aqua"@ && hex == "00FFFF"@
    ||| camel == "Aquamarine"@ && hyphenated == "aquamarine"@ && hex == "7FFFD4"@
    ||| camel == "Azure"@ && hyphenated == "azure"@ && hex == "F0FFFF"@
    ||| camel == "Beige"@ && hyphenated == "beige"@ && hex == "F5F5DC"@
    ||| camel == "Bisque"@ && hyphenated == "bisque"@ && hex == "FFE4C4"@
    ||| camel == "Black"@ && hyphenated == "black"@ && hex == "000000"@
    ||| camel == "BlanchedAlmond"@ && hyphenated == "blanched-almond"@ && hex == "FFEBCD"@
    ||| camel == "Blue"@ && hyphenated == "blue"@ && hex == "0000FF"@
    ||| camel == "BlueViolet"@ && hyphenated == "blue-violet"@ && hex == "8A2BE2"@
    ||| camel == "Brown"@ && hyphenated == "brown"@ && hex == "A52A2A"@
    ||| camel == "BurlyWood"@ && hyphenated == "burly-wood"@ && hex == "DEB887"@
    ||| camel == "CadetBlue"@ && hyphenated == "cadet-blue"@ && hex == "5F9EA0"@
    ||| camel == "Chartreuse"@ && hyphenated == "chartreuse"@ && hex == "7FFF00"@
    ||| camel == "Chocolate"@ && hyphenated == "chocolate"@ && hex == "D2691E"@
    ||| camel == "Coral"@ && hyphenated == "coral"@ && hex == "FF7F50"@
    ||| camel == "CornflowerBlue"@ && hyphenated == "cornflower-blue"@ && hex == "6495ED"@
    ||| camel == "Cornsilk"@ && hyphenated == "cornsilk"@ && hex == "FFF8DC"@
    ||| camel == "Crimson"@ && hyphenated == "crimson"@ && hex == "DC143C"@
    ||| camel == "Cyan"@ && hyphenated == "cyan"@ && hex == "00FFFF"@
    ||| camel == "DarkBlue"@ && hyphenated == "dark-blue"@ && hex == "00008B"@
    ||| camel == "DarkCyan"@ && hyphenated == "dark-cyan"@ && hex == "008B8B"@
    ||| camel == "DarkGoldenRod"@ && hyphenated == "dark-golden-rod"@ && hex == "B8860B"@
    ||| camel == "DarkGray"@ && hyphenated == "dark-gray"@ && hex == "A9A9A9"@
}

/// The rows of the color table from `DarkGrey` to `Gainsboro`: a CamelCase name, its
/// hyphenated name and the hex digits of its color.
pub open spec fn named_color_row_part_1(camel: Seq<char>, hyphenated: Seq<char>, hex: Seq<char>) -> bool {
    ||| camel == "DarkGrey"@ && hyphenated == "dark-grey"@ && hex == "A9A9A9"@
    ||| camel == "DarkGreen"@ && hyphenated == "dark-green"@ && hex == "006400"@
    ||| camel == "DarkKhaki"@ && hyphenated == "dark-khaki"@ && hex == "BDB76B"@
    ||| camel == "DarkMagenta"@ && hyphenated == "dark-magenta"@ && hex == "8B008B"@
    ||| camel == "DarkOliveGreen"@ && hyphenated == "dark-olive-green"@ && hex == "556B2F"@
    ||| camel == "DarkOrange"@ && hyphenated == "dark-orange"@ && hex == "FF8C00"@
    ||| camel == "DarkOrchid"@ && hyphenated == "dark-orchid"@ && hex == "9932CC"@
    ||| camel == "DarkRed"@ && hyphenated == "dark-red"@ && hex == "8B0000"@
    ||| camel == "DarkSalmon"@ && hyphenated == "dark-salmon"@ && hex == "E9967A"@
    ||| camel == "DarkSeaGreen"@ && hyphenated == "dark-sea-green"@ && hex == "8FBC8F"@
    ||| camel == "DarkSlateBlue"@ && hyphenated == "dark-slate-blue"@ && hex == "483D8B"@
    ||| camel == "DarkSlateGray"@ && hyphenated == "dark-slate-gray"@ && hex == "2F4F4F"@
    ||| camel == "DarkSlateGrey"@ && hyphenated == "dark-slate-grey"@ && hex == "2F4F4F"@
    ||| camel == "DarkTurquoise"@ && hyphenated == "dark-turquoise"@ && hex == "00CED1"@
    ||| camel == "DarkViolet"@ && hyphenated == "dark-violet"@ && hex == "9400D3"@
    ||| camel == "DeepPink"@ && hyphenated == "deep-pink"@ && hex == "FF1493"@
    ||| camel == "DeepSkyBlue"@ && hyphenated == "deep-sky-blue"@ && hex == "00BFFF"@
    ||| camel == "DimGray"@ && hyphenated == "dim-gray"@ && hex == "696969"@
    ||| camel == "DimGrey"@ && hyphenated == "dim-grey"@ && hex == "696969"@
    ||| camel == "DodgerBlue"@ && hyphenated == "dodger-blue"@ && hex == "1E90FF"@
    ||| camel == "FireBrick"@ && hyphenated == "fire-brick"@ && hex == "B22222"@
    ||| camel == "FloralWhite"@ && hyphenated == "floral-white"@ && hex == "FFFAF0"@
    ||| camel == "ForestGreen"@ && hyphenated == "forest-green"@ && hex == "228B22"@
    ||| camel == "Fuchsia"@ && hyphenated == "fuchsia"@ && hex == "FF00FF"@
    ||| camel == "Gainsboro"@ && hyphenated == "gainsboro"@ && hex == "DCDCDC"@
}

/// The rows of the color table from `GhostWhite` to `LightPink`: a CamelCase name, its
/// hyphenated name and the hex digits of its color.
pub open spec fn named_color_row_part_2(camel: Seq<char>, hyphenated: Seq<char>, hex: Seq<char>) -> bool {
    ||| camel == "GhostWhite"@ && hyphenated == "ghost-white"@ && hex == "F8F8FF"@
    ||| camel == "Gold"@ && hyphenated == "gold"@ && hex == "FFD700"@
    ||| camel == "GoldenRod"@ && hyphenated == "golden-rod"@ && hex == "DAA520"@
    ||| camel == "Gray"@ && hyphenated == "gray"@ && hex == "808080"@
    ||| camel == "Grey"@ && hyphenated == "grey"@ && hex == "808080"@
    ||| camel == "Green"@ && hyphenated == "green"@ && hex == "008000"@
    ||| camel == "GreenYellow"@ && hyphenated == "green-yellow"@ && hex == "ADFF2F"@
    ||| camel == "HoneyDew"@ && hyphenated == "honey-dew"@ && hex == "F0FFF0"@
    ||| camel == "HotPink"@ && hyphenated == "hot-pink"@ && hex == "FF69B4"@
    ||| camel == "IndianRed"@ && hyphenated == "indian-red"@ && hex == "CD5C5C"@
    ||| camel == "Indigo"@ && hyphenated == "indigo"@ && hex == "4B0082"@
    ||| camel == "Ivory"@ && hyphenated == "ivory"@ && hex == "FFFFF0"@
    ||| camel == "Khaki"@ && hyphenated == "khaki"@ && hex == "F0E68C"@
    ||| camel == "Lavender"@ && hyphenated == "lavender"@ && hex == "E6E6FA"@
    ||| camel == "LavenderBlush"@ && hyphenated == "lavender-blush"@ && hex == "FFF0F5"@
    ||| camel == "LawnGreen"@ && hyphenated == "lawn-green"@ && hex == "7CFC00"@
    ||| camel == "LemonChiffon"@ && hyphenated == "lemon-chiffon"@ && hex == "FFFACD"@
    ||| camel == "LightBlue"@ && hyphenated == "light-blue"@ && hex == "ADD8E6"@
    ||| camel == "LightCoral"@ && hyphenated == "light-coral"@ && hex == "F08080"@
    ||| camel == "LightCyan"@ && hyphenated == "light-cyan"@ && hex == "E0FFFF"@
    ||| camel == "LightGoldenRodYellow"@ && hyphenated == "light-golden-rod-yellow"@ && hex == "FAFAD2"@
    ||| camel == "LightGray"@ && hyphenated == "light-gray"@ && hex == "D3D3D3"@
    ||| camel == "LightGrey"@ && hyphenated == "light-grey"@ && hex == "D3D3D3"@
    ||| camel == "LightGreen"@ && hyphenated == "light-green"@ && hex == "90EE90"@
    ||| camel == "LightPink"@ && hyphenated == "light-pink"@ && hex == "FFB6C1"@
}

/// The rows of the color table from `LightSalmon` to `Moccasin`: a CamelCase name, its
/// hyphenated name and the hex digits of its color.
pub open spec fn named_color_row_part_3(camel: Seq<char>, hyphenated: Seq<char>, hex: Seq<char>) -> bool {
    ||| camel == "LightSalmon"@ && hyphenated == "light-salmon"@ && hex == "FFA07A"@
    ||| camel == "LightSeaGreen"@ && hyphenated == "light-sea-green"@ && hex == "20B2AA"@
    ||| camel == "LightSkyBlue"@ && hyphenated == "light-sky-blue"@ && hex == "87CEFA"@
    ||| camel == "LightSlateGray"@ && hyphenated == "light-slate-gray"@ && hex == "778899"@
    ||| camel == "LightSlateGrey"@ && hyphenated == "light-slate-grey"@ && hex == "778899"@
    ||| camel == "LightSteelBlue"@ && hyphenated == "light-steel-blue"@ && hex == "B0C4DE"@
    ||| camel == "LightYellow"@ && hyphenated == "light-yellow"@ && hex == "FFFFE0"@
    ||| camel == "Lime"@ && hyphenated == "lime"@ && hex == "00FF00"@
    ||| camel == "LimeGreen"@ && hyphenated == "lime-green"@ && hex == "32CD32"@
    ||| camel == "Linen"@ && hyphenated == "linen"@ && hex == "FAF0E6"@
    ||| camel == "Magenta"@ && hyphenated == "magenta"@ && hex == "FF00FF"@
    ||| camel == "Maroon"@ && hyphenated == "maroon"@ && hex == "800000"@
    ||| camel == "MediumAquaMarine"@ && hyphenated == "medium-aqua-marine"@ && hex == "66CDAA"@
    ||| camel == "MediumBlue"@ && hyphenated == "medium-blue"@ && hex == "0000CD"@
    ||| camel == "MediumOrchid"@ && hyphenated == "medium-orchid"@ && hex == "BA55D3"@
    ||| camel == "MediumPurple"@ && hyphenated == "medium-purple"@ && hex == "9370DB"@
    ||| camel == "MediumSeaGreen"@ && hyphenated == "medium-sea-green"@ && hex == "3CB371"@
    ||| camel == "MediumSlateBlue"@ && hyphenated == "medium-slate-blue"@ && hex == "7B68EE"@
    ||| camel == "MediumSpringGreen"@ && hyphenated == "medium-spring-green"@ && hex == "00FA9A"@
    ||| camel == "MediumTurquoise"@ && hyphenated == "medium-turquoise"@ && hex == "48D1CC"@
    ||| camel == "MediumVioletRed"@ && hyphenated == "medium-violet-red"@ && hex == "C71585"@
    ||| camel == "MidnightBlue"@ && hyphenated == "midnight-blue"@ && hex == "191970"@
    ||| camel == "MintCream"@ && hyphenated == "mint-cream"@ && hex == "F5FFFA"@
    ||| camel == "MistyRose"@ && hyphenated == "misty-rose"@ && hex == "FFE4E1"@
    ||| camel == "Moccasin"@ && hyphenated == "moccasin"@ && hex == "FFE4B5"@
}

/// The rows of the color table from `NavajoWhite` to `Salmon`: a CamelCase name, its
/// hyphenated name and the hex digits of its color.
pub open spec fn named_color_row_part_4(camel: Seq<char>, hyphenated: Seq<char>, hex: Seq<char>) -> bool {
    ||| camel == "NavajoWhite"@ && hyphenated == "navajo-white"@ && hex == "FFDEAD"@
    ||| camel == "Navy"@ && hyphenated == "navy"@ && hex == "000080"@
    ||| camel == "OldLace"@ && hyphenated == "old-lace"@ && hex == "FDF5E6"@
    ||| camel == "Olive"@ && hyphenated == "olive"@ && hex == "808000"@
    ||| camel == "OliveDrab"@ && hyphenated == "olive-drab"@ && hex == "6B8E23"@
    ||| camel == "Orange"@ && hyphenated == "orange"@ && hex == "FFA500"@
    ||| camel == "OrangeRed"@ && hyphenated == "orange-red"@ && hex == "FF4500"@
    ||| camel == "Orchid"@ && hyphenated == "orchid"@ && hex == "DA70D6"@
    ||| camel == "PaleGoldenRod"@ && hyphenated == "pale-golden-rod"@ && hex == "EEE8AA"@
    ||| camel == "PaleGreen"@ && hyphenated == "pale-green"@ && hex == "98FB98"@
    ||| camel == "PaleTurquoise"@ && hyphenated == "pale-turquoise"@ && hex == "AFEEEE"@
    ||| camel == "PaleVioletRed"@ && hyphenated == "pale-violet-red"@ && hex == "DB7093"@
    ||| camel == "PapayaWhip"@ && hyphenated == "papaya-whip"@ && hex == "FFEFD5"@
    ||| camel == "PeachPuff"@ && hyphenated == "peach-puff"@ && hex == "FFDAB9"@
    ||| camel == "Peru"@ && hyphenated == "peru"@ && hex == "CD853F"@
    ||| camel == "Pink"@ && hyphenated == "pink"@ && hex == "FFC0CB"@
    ||| camel == "Plum"@ && hyphenated == "plum"@ && hex == "DDA0DD"@
    ||| camel == "PowderBlue"@ && hyphenated == "powder-blue"@ && hex == "B0E0E6"@
    ||| camel == "Purple"@ && hyphenated == "purple"@ && hex == "800080"@
    ||| camel == "RebeccaPurple"@ && hyphenated == "rebecca-purple"@ && hex == "663399"@
    ||| camel == "Red"@ && hyphenated == "red"@ && hex == "FF0000"@
    ||| camel == "RosyBrown"@ && hyphenated == "rosy-brown"@ && hex == "BC8F8F"@
    ||| camel == "RoyalBlue"@ && hyphenated == "royal-blue"@ && hex == "4169E1"@
    ||| camel == "SaddleBrown"@ && hyphenated == "saddle-brown"@ && hex == "8B4513"@
    ||| camel == "Salmon"@ && hyphenated == "salmon"@ && hex == "FA8072"@
}

/// The rows of the color table from `SandyBrown` to `YellowGreen`: a CamelCase name, its
/// hyphenated name and the hex digits of its color.
pub open spec fn named_color_row_part_5(camel: Seq<char>, hyphenated: Seq<char>, hex: Seq<char>) -> bool {
    ||| camel == "SandyBrown"@ && hyphenated == "sandy-brown"@ && hex == "F4A460"@
    ||| camel == "SeaGreen"@ && hyphenated == "sea-green"@ && hex == "2E8B57"@
    ||| camel == "SeaShell"@ && hyphenated == "sea-shell"@ && hex == "FFF5EE"@
    ||| camel == "Sienna"@ && hyphenated == "sienna"@ && hex == "A0522D"@
    ||| camel == "Silver"@ && hyphenated == "silver"@ && hex == "C0C0C0"@
    ||| camel == "SkyBlue"@ && hyphenated == "sky-blue"@ && hex == "87CEEB"@
    ||| camel == "SlateBlue"@ && hyphenated == "slate-blue"@ && hex == "6A5ACD"@
    ||| camel == "SlateGray"@ && hyphenated == "slate-gray"@ && hex == "708090"@
    ||| camel == "SlateGrey"@ && hyphenated == "slate-grey"@ && hex == "708090"@
    ||| camel == "Snow"@ && hyphenated == "snow"@ && hex == "FFFAFA"@
    ||| camel == "SpringGreen"@ && hyphenated == "spring-green"@ && hex == "00FF7F"@
    ||| camel == "SteelBlue"@ && hyphenated == "steel-blue"@ && hex == "4682B4"@
    ||| camel == "Tan"@ && hyphenated == "tan"@ && hex == "D2B48C"@
    ||| camel == "Teal"@ && hyphenated == "teal"@ && hex == "008080"@
    ||| camel == "Thistle"@ && hyphenated == "thistle"@ && hex == "D8BFD8"@
    ||| camel == "Tomato"@ && hyphenated == "tomato"@ && hex == "FF6347"@
    ||| camel == "Turquoise"@ && hyphenated == "turquoise"@ && hex == "40E0D0"@
    ||| camel == "Violet"@ && hyphenated == "violet"@ && hex == "EE82EE"@
    ||| camel == "Wheat"@ && hyphenated == "wheat"@ && hex == "F5DEB3"@
    ||| camel == "White"@ && hyphenated == "white"@ && hex == "FFFFFF"@
    ||| camel == "WhiteSmoke"@ && hyphenated == "white-smoke"@ && hex == "F5F5F5"@
    ||| camel == "Yellow"@ && hyphenated == "yellow"@ && hex == "FFFF00"@
    ||| camel == "YellowGreen"@ && hyphenated == "yellow-green"@ && hex == "9ACD32"@
}

/// The rows of the color table: a CamelCase name, its hyphenated name and
/// the hex digits of its color.
pub open spec fn named_color_row(camel: Seq<char>, hyphenated: Seq<char>, hex: Seq<char>) -> bool {
    ||| named_color_row_part_0(camel, hyphenated, hex)
    ||| named_color_row_part_1(camel, hyphenated, hex)
    ||| named_color_row_part_2(camel, hyphenated, hex)
    ||| named_color_row_part_3(camel, hyphenated, hex)
    ||| named_color_row_part_4(camel, hyphenated, hex)
    ||| named_color_row_part_5(camel, hyphenated, hex)
}

/// Both names of a row of `named_color_row_part_0` denote its color.
proof fn lemma_named_color_rows_part_0(camel: Seq<char>, hyphenated: Seq<char>, hex: Seq<char>)
    requires
        named_color_row_part_0(camel, hyphenated, hex),
    ensures
        named_color_hex(camel) == Some(hex),
        named_color_hex(hyphenated) == Some(hex),
{
    lemma_name_letters_part_0();
    lemma_name_letters_part_1();
    lemma_name_letters_part_2();
    lemma_name_letters_part_3();
    lemma_name_letters_part_4();
    lemma_name_letters_part_5();
}

/// Both names of a row of `named_color_row_part_1` denote its color.
proof fn lemma_named_color_rows_part_1(camel: Seq<char>, hyphenated: Seq<char>, hex: Seq<char>)
    requires
        named_color_row_part_1(camel, hyphenated, hex),
    ensures
        named_color_hex(camel) == Some(hex),
        named_color_hex(hyphenated) == Some(hex),
{
    lemma_name_letters_part_0();
    lemma_name_letters_part_1();
    lemma_name_letters_part_2();
    lemma_name_letters_part_3();
    lemma_name_letters_part_4();
    lemma_name_letters_part_5();
}

/// Both names of a row of `named_color_row_part_2` denote its color.
proof fn lemma_named_color_rows_part_2(camel: Seq<char>, hyphenated: Seq<char>, hex: Seq<char>)
    requires
        named_color_row_part_2(camel, hyphenated, hex),
    ensures
        named_color_hex(camel) == Some(hex),
        named_color_hex(hyphenated) == Some(hex),
{
    lemma_name_letters_part_0();
    lemma_name_letters_part_1();
    lemma_name_letters_part_2();
    lemma_name_letters_part_3();
    lemma_name_letters_part_4();
    lemma_name_letters_part_5();
}

/// Both names of a row of `named_color_row_part_3` denote its color.
proof fn lemma_named_color_rows_part_3(camel: Seq<char>, hyphenated: Seq<char>, hex: Seq<char>)
    requires
        named_color_row_part_3(camel, hyphenated, hex),
    ensures
        named_color_hex(camel) == Some(hex),
        named_color_hex(hyphenated) == Some(hex),
{
    lemma_name_letters_part_0();
    lemma_name_letters_part_1();
    lemma_name_letters_part_2();
    lemma_name_letters_part_3();
    lemma_name_letters_part_4();
    lemma_name_letters_part_5();
}

/// Both names of a row of `named_color_row_part_4` denote its color.
proof fn lemma_named_color_rows_part_4(camel: Seq<char>, hyphenated: Seq<char>, hex: Seq<char>)
    requires
        named_color_row_part_4(camel, hyphenated, hex),
    ensures
        named_color_hex(camel) == Some(hex),
        named_color_hex(hyphenated) == Some(hex),
{
    lemma_name_letters_part_0();
    lemma_name_letters_part_1();
    lemma_name_letters_part_2();
    lemma_name_letters_part_3();
    lemma_name_letters_part_4();
    lemma_name_letters_part_5();
}

/// Both names of a row of `named_color_row_part_5` denote its color.
proof fn lemma_named_color_rows_part_5(camel: Seq<char>, hyphenated: Seq<char>, hex: Seq<char>)
    requires
        named_color_row_part_5(camel, hyphenated, hex),
    ensures
        named_color_hex(camel) == Some(hex),
        named_color_hex(hyphenated) == Some(hex),
{
    lemma_name_letters_part_0();
    lemma_name_letters_part_1();
    lemma_name_letters_part_2();
    lemma_name_letters_part_3();
    lemma_name_letters_part_4();
    lemma_name_letters_part_5();
}

/// The law of the two spellings: both names of a row of the color table,
/// the CamelCase one and the hyphenated one, denote the color of that row.
pub proof fn law_both_spellings_name_the_same_color(
    camel: Seq<char>,
    hyphenated: Seq<char>,
    hex: Seq<char>,
)
    requires
        named_color_row(camel, hyphenated, hex),
    ensures
        named_color_hex(camel) == Some(hex),
        named_color_hex(hyphenated) == Some(hex),
{
    if named_color_row_part_0(camel, hyphenated, hex) {
        lemma_named_color_rows_part_0(camel, hyphenated, hex);
    }
    if named_color_row_part_1(camel, hyphenated, hex) {
        lemma_named_color_rows_part_1(camel, hyphenated, hex);
    }
    if named_color_row_part_2(camel, hyphenated, hex) {
        lemma_named_color_rows_part_2(camel, hyphenated, hex);
    }
    if named_color_row_part_3(camel, hyphenated, hex) {
        lemma_named_color_rows_part_3(camel, hyphenated, hex);
    }
    if named_color_row_part_4(camel, hyphenated, hex) {
        lemma_named_color_rows_part_4(camel, hyphenated, hex);
    }
    if named_color_row_part_5(camel, hyphenated, hex) {
        lemma_named_color_rows_part_5(camel, hyphenated, hex);
    }
}

} // verus!
