//! RGB swatches of the built-in palettes, for the settings preview
//! cards (drawn with raw RGB triples rather than through GTK's CSS).
use vstd::prelude::*;
use crate::text::{chars_of, chars_eq_str, lower_chars, trim_chars};
use super::builtin::{builtin_name, first_builtin, theme_key, BUILTIN_COUNT};

verus! {

/// Six tokens that survive being shrunk to a thumbnail: the surfaces
/// that read as "the chat" plus the accent that brands it.
#[derive(Debug, Clone, Copy, PartialEq, Eq)]
pub struct PaletteSwatch {
    pub name: &'static str,
    pub bg: [u8; 3],
    pub mantle: [u8; 3],
    pub surface: [u8; 3],
    pub fg: [u8; 3],
    pub subtle: [u8; 3],
    pub accent: [u8; 3],
}

/// Swatch of the `i`-th built-in theme.
pub open spec fn swatch(i: int) -> PaletteSwatch {
    if i == 0 {
        PaletteSwatch {
            name: "catppuccin-mocha",
            bg: [0x1e, 0x1e, 0x2e],
            mantle: [0x18, 0x18, 0x25],
            surface: [0x31, 0x32, 0x44],
            fg: [0xcd, 0xd6, 0xf4],
            subtle: [0xa6, 0xad, 0xc8],
            accent: [0xcb, 0xa6, 0xf7],
        }
    } else if i == 1 {
        PaletteSwatch {
            name: "catppuccin-latte",
            bg: [0xef, 0xf1, 0xf5],
            mantle: [0xe6, 0xe9, 0xef],
            surface: [0xcc, 0xd0, 0xda],
            fg: [0x4c, 0x4f, 0x69],
            subtle: [0x6c, 0x6f, 0x85],
            accent: [0x88, 0x39, 0xef],
        }
    } else if i == 2 {
        PaletteSwatch {
            name: "catppuccin-frappe",
            bg: [0x30, 0x34, 0x46],
            mantle: [0x29, 0x2c, 0x3c],
            surface: [0x41, 0x45, 0x59],
            fg: [0xc6, 0xd0, 0xf5],
            subtle: [0xa5, 0xad, 0xce],
            accent: [0xca, 0x9e, 0xe6],
        }
    } else if i == 3 {
        PaletteSwatch {
            name: "catppuccin-macchiato",
            bg: [0x24, 0x27, 0x3a],
            mantle: [0x1e, 0x20, 0x30],
            surface: [0x36, 0x3a, 0x4f],
            fg: [0xca, 0xd3, 0xf5],
            subtle: [0xa5, 0xad, 0xcb],
            accent: [0xc6, 0xa0, 0xf6],
        }
    } else if i == 4 {
        PaletteSwatch {
            name: "gruvbox",
            bg: [0x28, 0x28, 0x28],
            mantle: [0x1d, 0x20, 0x21],
            surface: [0x3c, 0x38, 0x36],
            fg: [0xeb, 0xdb, 0xb2],
            subtle: [0xa8, 0x99, 0x84],
            accent: [0xd3, 0x86, 0x9b],
        }
    } else if i == 5 {
        PaletteSwatch {
            name: "gruvbox-light",
            bg: [0xfb, 0xf1, 0xc7],
            mantle: [0xf9, 0xf5, 0xd7],
            surface: [0xeb, 0xdb, 0xb2],
            fg: [0x3c, 0x38, 0x36],
            subtle: [0x7c, 0x6f, 0x64],
            accent: [0xb1, 0x62, 0x86],
        }
    } else if i == 6 {
        PaletteSwatch {
            name: "tokyo-night",
            bg: [0x1a, 0x1b, 0x26],
            mantle: [0x16, 0x16, 0x1e],
            surface: [0x29, 0x2e, 0x42],
            fg: [0xc0, 0xca, 0xf5],
            subtle: [0xa9, 0xb1, 0xd6],
            accent: [0xbb, 0x9a, 0xf7],
        }
    } else if i == 7 {
        PaletteSwatch {
            name: "tokyo-night-storm",
            bg: [0x24, 0x28, 0x3b],
            mantle: [0x1f, 0x23, 0x35],
            surface: [0x2e, 0x34, 0x50],
            fg: [0xc0, 0xca, 0xf5],
            subtle: [0xa9, 0xb1, 0xd6],
            accent: [0xbb, 0x9a, 0xf7],
        }
    } else if i == 8 {
        PaletteSwatch {
            name: "everforest-dark",
            bg: [0x2d, 0x35, 0x3b],
            mantle: [0x27, 0x2e, 0x33],
            surface: [0x37, 0x41, 0x45],
            fg: [0xd3, 0xc6, 0xaa],
            subtle: [0x9d, 0xa9, 0xa0],
            accent: [0xa7, 0xc0, 0x80],
        }
    } else if i == 9 {
        PaletteSwatch {
            name: "everforest-dark-soft",
            bg: [0x33, 0x3c, 0x43],
            mantle: [0x2d, 0x35, 0x3b],
            surface: [0x3e, 0x4a, 0x51],
            fg: [0xd3, 0xc6, 0xaa],
            subtle: [0x9d, 0xa9, 0xa0],
            accent: [0xa7, 0xc0, 0x80],
        }
    } else if i == 10 {
        PaletteSwatch {
            name: "everforest-light",
            bg: [0xfd, 0xf6, 0xe3],
            mantle: [0xf4, 0xf0, 0xd9],
            surface: [0xef, 0xeb, 0xd4],
            fg: [0x5c, 0x6a, 0x72],
            subtle: [0x82, 0x91, 0x81],
            accent: [0x8d, 0xa1, 0x01],
        }
    } else if i == 11 {
        PaletteSwatch {
            name: "everforest-light-soft",
            bg: [0xf3, 0xea, 0xd3],
            mantle: [0xea, 0xe4, 0xca],
            surface: [0xe5, 0xdf, 0xb8],
            fg: [0x5c, 0x6a, 0x72],
            subtle: [0x82, 0x91, 0x81],
            accent: [0x8d, 0xa1, 0x01],
        }
    } else if i == 12 {
        PaletteSwatch {
            name: "rose-pine",
            bg: [0x19, 0x17, 0x24],
            mantle: [0x1f, 0x1d, 0x2e],
            surface: [0x26, 0x23, 0x3a],
            fg: [0xe0, 0xde, 0xf4],
            subtle: [0x90, 0x8c, 0xaa],
            accent: [0xc4, 0xa7, 0xe7],
        }
    } else if i == 13 {
        PaletteSwatch {
            name: "rose-pine-moon",
            bg: [0x23, 0x21, 0x36],
            mantle: [0x2a, 0x27, 0x3f],
            surface: [0x39, 0x35, 0x52],
            fg: [0xe0, 0xde, 0xf4],
            subtle: [0x90, 0x8c, 0xaa],
            accent: [0xc4, 0xa7, 0xe7],
        }
    } else if i == 14 {
        PaletteSwatch {
            name: "rose-pine-dawn",
            bg: [0xfa, 0xf4, 0xed],
            mantle: [0xff, 0xfa, 0xf3],
            surface: [0xf2, 0xe9, 0xe1],
            fg: [0x57, 0x52, 0x79],
            subtle: [0x79, 0x75, 0x93],
            accent: [0x90, 0x7a, 0xa9],
        }
    } else {
        PaletteSwatch {
            name: "nord",
            bg: [0x2e, 0x34, 0x40],
            mantle: [0x3b, 0x42, 0x52],
            surface: [0x43, 0x4c, 0x5e],
            fg: [0xec, 0xef, 0xf4],
            subtle: [0xd8, 0xde, 0xe9],
            accent: [0x88, 0xc0, 0xd0],
        }
    }
}

/// The `i`-th swatch; swatches come in the order of the built-in themes.
pub fn swatch_at(i: usize) -> (p: PaletteSwatch)
    requires
        i < BUILTIN_COUNT,
    ensures
        p == swatch(i as int),
        p.name@ == builtin_name(i as int),
{
    match i {
        0 => PaletteSwatch {
            name: "catppuccin-mocha",
            bg: [0x1e, 0x1e, 0x2e],
            mantle: [0x18, 0x18, 0x25],
            surface: [0x31, 0x32, 0x44],
            fg: [0xcd, 0xd6, 0xf4],
            subtle: [0xa6, 0xad, 0xc8],
            accent: [0xcb, 0xa6, 0xf7],
        },
        1 => PaletteSwatch {
            name: "catppuccin-latte",
            bg: [0xef, 0xf1, 0xf5],
            mantle: [0xe6, 0xe9, 0xef],
            surface: [0xcc, 0xd0, 0xda],
            fg: [0x4c, 0x4f, 0x69],
            subtle: [0x6c, 0x6f, 0x85],
            accent: [0x88, 0x39, 0xef],
        },
        2 => PaletteSwatch {
            name: "catppuccin-frappe",
            bg: [0x30, 0x34, 0x46],
            mantle: [0x29, 0x2c, 0x3c],
            surface: [0x41, 0x45, 0x59],
            fg: [0xc6, 0xd0, 0xf5],
            subtle: [0xa5, 0xad, 0xce],
            accent: [0xca, 0x9e, 0xe6],
        },
        3 => PaletteSwatch {
            name: "catppuccin-macchiato",
            bg: [0x24, 0x27, 0x3a],
            mantle: [0x1e, 0x20, 0x30],
            surface: [0x36, 0x3a, 0x4f],
            fg: [0xca, 0xd3, 0xf5],
            subtle: [0xa5, 0xad, 0xcb],
            accent: [0xc6, 0xa0, 0xf6],
        },
        4 => PaletteSwatch {
            name: "gruvbox",
            bg: [0x28, 0x28, 0x28],
            mantle: [0x1d, 0x20, 0x21],
            surface: [0x3c, 0x38, 0x36],
            fg: [0xeb, 0xdb, 0xb2],
            subtle: [0xa8, 0x99, 0x84],
            accent: [0xd3, 0x86, 0x9b],
        },
        5 => PaletteSwatch {
            name: "gruvbox-light",
            bg: [0xfb, 0xf1, 0xc7],
            mantle: [0xf9, 0xf5, 0xd7],
            surface: [0xeb, 0xdb, 0xb2],
            fg: [0x3c, 0x38, 0x36],
            subtle: [0x7c, 0x6f, 0x64],
            accent: [0xb1, 0x62, 0x86],
        },
        6 => PaletteSwatch {
            name: "tokyo-night",
            bg: [0x1a, 0x1b, 0x26],
            mantle: [0x16, 0x16, 0x1e],
            surface: [0x29, 0x2e, 0x42],
            fg: [0xc0, 0xca, 0xf5],
            subtle: [0xa9, 0xb1, 0xd6],
            accent: [0xbb, 0x9a, 0xf7],
        },
        7 => PaletteSwatch {
            name: "tokyo-night-storm",
            bg: [0x24, 0x28, 0x3b],
            mantle: [0x1f, 0x23, 0x35],
            surface: [0x2e, 0x34, 0x50],
            fg: [0xc0, 0xca, 0xf5],
            subtle: [0xa9, 0xb1, 0xd6],
            accent: [0xbb, 0x9a, 0xf7],
        },
        8 => PaletteSwatch {
            name: "everforest-dark",
            bg: [0x2d, 0x35, 0x3b],
            mantle: [0x27, 0x2e, 0x33],
            surface: [0x37, 0x41, 0x45],
            fg: [0xd3, 0xc6, 0xaa],
            subtle: [0x9d, 0xa9, 0xa0],
            accent: [0xa7, 0xc0, 0x80],
        },
        9 => PaletteSwatch {
            name: "everforest-dark-soft",
            bg: [0x33, 0x3c, 0x43],
            mantle: [0x2d, 0x35, 0x3b],
            surface: [0x3e, 0x4a, 0x51],
            fg: [0xd3, 0xc6, 0xaa],
            subtle: [0x9d, 0xa9, 0xa0],
            accent: [0xa7, 0xc0, 0x80],
        },
        10 => PaletteSwatch {
            name: "everforest-light",
            bg: [0xfd, 0xf6, 0xe3],
            mantle: [0xf4, 0xf0, 0xd9],
            surface: [0xef, 0xeb, 0xd4],
            fg: [0x5c, 0x6a, 0x72],
            subtle: [0x82, 0x91, 0x81],
            accent: [0x8d, 0xa1, 0x01],
        },
        11 => PaletteSwatch {
            name: "everforest-light-soft",
            bg: [0xf3, 0xea, 0xd3],
            mantle: [0xea, 0xe4, 0xca],
            surface: [0xe5, 0xdf, 0xb8],
            fg: [0x5c, 0x6a, 0x72],
            subtle: [0x82, 0x91, 0x81],
            accent: [0x8d, 0xa1, 0x01],
        },
        12 => PaletteSwatch {
            name: "rose-pine",
            bg: [0x19, 0x17, 0x24],
            mantle: [0x1f, 0x1d, 0x2e],
            surface: [0x26, 0x23, 0x3a],
            fg: [0xe0, 0xde, 0xf4],
            subtle: [0x90, 0x8c, 0xaa],
            accent: [0xc4, 0xa7, 0xe7],
        },
        13 => PaletteSwatch {
            name: "rose-pine-moon",
            bg: [0x23, 0x21, 0x36],
            mantle: [0x2a, 0x27, 0x3f],
            surface: [0x39, 0x35, 0x52],
            fg: [0xe0, 0xde, 0xf4],
            subtle: [0x90, 0x8c, 0xaa],
            accent: [0xc4, 0xa7, 0xe7],
        },
        14 => PaletteSwatch {
            name: "rose-pine-dawn",
            bg: [0xfa, 0xf4, 0xed],
            mantle: [0xff, 0xfa, 0xf3],
            surface: [0xf2, 0xe9, 0xe1],
            fg: [0x57, 0x52, 0x79],
            subtle: [0x79, 0x75, 0x93],
            accent: [0x90, 0x7a, 0xa9],
        },
        _ => PaletteSwatch {
            name: "nord",
            bg: [0x2e, 0x34, 0x40],
            mantle: [0x3b, 0x42, 0x52],
            surface: [0x43, 0x4c, 0x5e],
            fg: [0xec, 0xef, 0xf4],
            subtle: [0xd8, 0xde, 0xe9],
            accent: [0x88, 0xc0, 0xd0],
        },
    }
}

/// Case-insensitive lookup of a built-in palette's swatch.
pub fn palette_for(name: &str) -> (r: Option<PaletteSwatch>)
    ensures
        match first_builtin(theme_key(name@), 0) {
            Some(i) => r == Some(swatch(i)),
            None => r is None,
        },
{
    let v = chars_of(name);
    let t = trim_chars(v.as_slice());
    let needle = lower_chars(t.as_slice());
    let ghost key = theme_key(name@);
    let mut i: usize = 0;
    while i < BUILTIN_COUNT
        invariant
            i <= BUILTIN_COUNT,
            needle@ == key,
            key == theme_key(name@),
            first_builtin(key, 0) == first_builtin(key, i as int),
        decreases BUILTIN_COUNT - i,
    {
        let p = swatch_at(i);
        if chars_eq_str(needle.as_slice(), p.name) {
            return Some(p);
        }
        i = i + 1;
    }
    None
}

} // verus!
