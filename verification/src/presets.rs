//! The sources of the built-in presets.

use vstd::prelude::*;

verus! {

/// The TokyoNight theme in its night style: a base theme.
pub const TOKYONIGHT: &'static str = r##"[meta]
name = "TokyoNight (Night)"
preset_id = "tokyonight"
schema_version = "1"
style = "night"
kind = "preset-base"
upstream_repo = "https://github.com/folke/tokyonight.nvim"

[base]
background = "#1a1b2a"
background_dark = "#16161e"
background_highlight = "#292e42"
foreground = "#c0caf5"
foreground_dark = "#a9b1d6"
border = "#15161e"
border_highlight = "#27a1b9"

[semantic]
success = "#73daca"
error = "#db4b4b"
warning = "#e0af68"
info = "#0db9d7"
hint = "#1abc9c"

[diff]
added = "#449dab"
added_bg = "#243e4a"
added_fg = "#b8db87"
modified = "#6183bb"
modified_bg = "#1f2231"
modified_fg = "#7ca1f2"
removed = "#914c54"
removed_bg = "#4a272f"
removed_fg = "#e26a75"
text_bg = "#394b70"
ignored = "#545c7e"

[surface]
menu = "#16161e"
sidebar = "#16161e"
statusline = "#16161e"
popup = "#16161e"
overlay = "#16161e"
highlight = "#292e42"
selection = "#283457"
focus = "#3d59a1"
search = "#3d59a1"

[typography]
comment = "#565f89"
gutter = "#3b4261"
line_number = "#3b4261"
selection_text = "#c0caf5"
link = "#1abc9c"
title = "#7aa2f7"

[syntax]
keywords = "#9d7cd8"
functions = "#7aa2f7"
types = "#2ac3de"
strings = "#9ece6a"
numbers = "#ff9e64"
constants = "#ff9e64"
operators = "#89ddff"
variables = "#c0caf5"
parameters = "#e0af68"
properties = "#73daca"
tags = "#f7768e"
attributes = "#bb9af7"

[editor]
cursor = "#c0caf5"
cursor_text = "#1a1b2a"
match_paren = "#ff9e64"
selection_bg = "#283457"
selection_fg = "#c0caf5"
inlay_hint_bg = "#1f2335"
inlay_hint_fg = "#545c7e"
search_bg = "#3d59a1"
search_fg = "#c0caf5"

[terminal]
black = "#15161e"
red = "#f7768e"
green = "#9ece6a"
yellow = "#e0af68"
blue = "#7aa2f7"
magenta = "#bb9af7"
cyan = "#7dcfff"
white = "#a9b1d6"
bright_black = "#414868"
bright_red = "#ff899d"
bright_green = "#9fe044"
bright_yellow = "#faba4a"
bright_blue = "#8db0ff"
bright_magenta = "#c7a9ff"
bright_cyan = "#a4daff"
bright_white = "#c0caf5"
"##;

/// The TokyoNight theme in its storm style: a variant of the night style.
pub const TOKYONIGHT_STORM: &'static str = r##"[meta]
name = "TokyoNight (Storm)"
preset_id = "tokyonight_storm"
schema_version = "1"
style = "storm"
kind = "preset-variant"
upstream_repo = "https://github.com/folke/tokyonight.nvim"
inherits = "tokyonight"

[base]
background = "#24283b"
background_dark = "#1f2335"

[surface]
menu = "#1f2335"

[terminal]
black = "#1d202f"
"##;

} // verus!
