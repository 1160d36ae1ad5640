//! The colour definitions of the themes, each as the text of a
//! `colors.properties` file: one `name=#rrggbb` line for the background, the
//! foreground, the cursor and each of the sixteen terminal colours.
use vstd::prelude::*;

verus! {

/// Base16 default dark.
pub const BASE16_DEFAULT_DARK: &'static str = "\
background=#181818\n\
foreground=#d8d8d8\n\
cursor=#d8d8d8\n\
color0=#181818\n\
color1=#ab4642\n\
color2=#a1b56c\n\
color3=#f7ca88\n\
color4=#7cafc2\n\
color5=#ba8baf\n\
color6=#86c1b9\n\
color7=#d8d8d8\n\
color8=#585858\n\
color9=#ab4642\n\
color10=#a1b56c\n\
color11=#f7ca88\n\
color12=#7cafc2\n\
color13=#ba8baf\n\
color14=#86c1b9\n\
color15=#f8f8f8\n";

/// Base16 default light.
pub const BASE16_DEFAULT_LIGHT: &'static str = "\
background=#f8f8f8\n\
foreground=#383838\n\
cursor=#383838\n\
color0=#f8f8f8\n\
color1=#ab4642\n\
color2=#a1b56c\n\
color3=#f7ca88\n\
color4=#7cafc2\n\
color5=#ba8baf\n\
color6=#86c1b9\n\
color7=#383838\n\
color8=#b8b8b8\n\
color9=#ab4642\n\
color10=#a1b56c\n\
color11=#f7ca88\n\
color12=#7cafc2\n\
color13=#ba8baf\n\
color14=#86c1b9\n\
color15=#181818\n";

/// Base16 greenscreen dark.
pub const BASE16_GREENSCREEN_DARK: &'static str = "\
background=#001100\n\
foreground=#00bb00\n\
cursor=#00bb00\n\
color0=#001100\n\
color1=#007700\n\
color2=#00bb00\n\
color3=#007700\n\
color4=#009900\n\
color5=#00bb00\n\
color6=#005500\n\
color7=#00bb00\n\
color8=#007700\n\
color9=#007700\n\
color10=#00bb00\n\
color11=#007700\n\
color12=#009900\n\
color13=#00bb00\n\
color14=#005500\n\
color15=#00ff00\n";

/// Dracula.
pub const DRACULA: &'static str = "\
background=#282a36\n\
foreground=#f8f8f2\n\
cursor=#f8f8f2\n\
color0=#21222c\n\
color1=#ff5555\n\
color2=#50fa7b\n\
color3=#f1fa8c\n\
color4=#bd93f9\n\
color5=#ff79c6\n\
color6=#8be9fd\n\
color7=#f8f8f2\n\
color8=#6272a4\n\
color9=#ff6e6e\n\
color10=#69ff94\n\
color11=#ffffa5\n\
color12=#d6acff\n\
color13=#ff92df\n\
color14=#a4ffff\n\
color15=#ffffff\n";

/// Gnometerm new.
pub const GNOMETERM_NEW: &'static str = "\
background=#171421\n\
foreground=#d0cfcc\n\
cursor=#d0cfcc\n\
color0=#171421\n\
color1=#c01c28\n\
color2=#26a269\n\
color3=#a2734c\n\
color4=#12488b\n\
color5=#a347ba\n\
color6=#2aa1b3\n\
color7=#d0cfcc\n\
color8=#5e5c64\n\
color9=#f66151\n\
color10=#33d17a\n\
color11=#e9ad0c\n\
color12=#2a7bde\n\
color13=#c061cb\n\
color14=#33c7de\n\
color15=#ffffff\n";

/// Gruvbox dark.
pub const GRUVBOX_DARK: &'static str = "\
background=#282828\n\
foreground=#ebdbb2\n\
cursor=#ebdbb2\n\
color0=#282828\n\
color1=#cc241d\n\
color2=#98971a\n\
color3=#d79921\n\
color4=#458588\n\
color5=#b16286\n\
color6=#689d6a\n\
color7=#a89984\n\
color8=#928374\n\
color9=#fb4934\n\
color10=#b8bb26\n\
color11=#fabd2f\n\
color12=#83a598\n\
color13=#d3869b\n\
color14=#8ec07c\n\
color15=#ebdbb2\n";

/// Gruvbox light.
pub const GRUVBOX_LIGHT: &'static str = "\
background=#fbf1c7\n\
foreground=#3c3836\n\
cursor=#3c3836\n\
color0=#fbf1c7\n\
color1=#cc241d\n\
color2=#98971a\n\
color3=#d79921\n\
color4=#458588\n\
color5=#b16286\n\
color6=#689d6a\n\
color7=#7c6f64\n\
color8=#928374\n\
color9=#9d0006\n\
color10=#79740e\n\
color11=#b57614\n\
color12=#076678\n\
color13=#8f3f71\n\
color14=#427b58\n\
color15=#3c3836\n";

/// Material.
pub const MATERIAL: &'static str = "\
background=#263238\n\
foreground=#eceff1\n\
cursor=#eceff1\n\
color0=#263238\n\
color1=#ff9800\n\
color2=#8bc34a\n\
color3=#ffc107\n\
color4=#03a9f4\n\
color5=#e91e63\n\
color6=#009688\n\
color7=#cfd8dc\n\
color8=#37474f\n\
color9=#ffa74d\n\
color10=#9ccc65\n\
color11=#ffa000\n\
color12=#81d4fa\n\
color13=#ad1457\n\
color14=#26a69a\n\
color15=#eceff1\n";

/// Solarized dark.
pub const SOLARIZED_DARK: &'static str = "\
background=#002b36\n\
foreground=#839496\n\
cursor=#93a1a1\n\
color0=#073642\n\
color1=#dc322f\n\
color2=#859900\n\
color3=#b58900\n\
color4=#268bd2\n\
color5=#d33682\n\
color6=#2aa198\n\
color7=#eee8d5\n\
color8=#002b36\n\
color9=#cb4b16\n\
color10=#586e75\n\
color11=#657b83\n\
color12=#839496\n\
color13=#6c71c4\n\
color14=#93a1a1\n\
color15=#fdf6e3\n";

/// Solarized light.
pub const SOLARIZED_LIGHT: &'static str = "\
background=#fdf6e3\n\
foreground=#657b83\n\
cursor=#586e75\n\
color0=#073642\n\
color1=#dc322f\n\
color2=#859900\n\
color3=#b58900\n\
color4=#268bd2\n\
color5=#d33682\n\
color6=#2aa198\n\
color7=#eee8d5\n\
color8=#002b36\n\
color9=#cb4b16\n\
color10=#586e75\n\
color11=#657b83\n\
color12=#839496\n\
color13=#6c71c4\n\
color14=#93a1a1\n\
color15=#fdf6e3\n";

/// Tokyo night dark.
pub const TOKYONIGHT_DARK: &'static str = "\
background=#1a1b26\n\
foreground=#c0caf5\n\
cursor=#c0caf5\n\
color0=#15161e\n\
color1=#f7768e\n\
color2=#9ece6a\n\
color3=#e0af68\n\
color4=#7aa2f7\n\
color5=#bb9af7\n\
color6=#7dcfff\n\
color7=#a9b1d6\n\
color8=#414868\n\
color9=#f7768e\n\
color10=#9ece6a\n\
color11=#e0af68\n\
color12=#7aa2f7\n\
color13=#bb9af7\n\
color14=#7dcfff\n\
color15=#c0caf5\n";

/// Tokyo night day.
pub const TOKYONIGHT_DAY: &'static str = "\
background=#e1e2e7\n\
foreground=#3760bf\n\
cursor=#3760bf\n\
color0=#e9e9ed\n\
color1=#f52a65\n\
color2=#587539\n\
color3=#8c6c3e\n\
color4=#2e7de9\n\
color5=#9854f1\n\
color6=#007197\n\
color7=#6172b0\n\
color8=#a1a6c5\n\
color9=#f52a65\n\
color10=#587539\n\
color11=#8c6c3e\n\
color12=#2e7de9\n\
color13=#9854f1\n\
color14=#007197\n\
color15=#3760bf\n";

/// Tomorrow Night.
pub const TOMORROW_NIGHT: &'static str = "\
background=#1d1f21\n\
foreground=#c5c8c6\n\
cursor=#c5c8c6\n\
color0=#1d1f21\n\
color1=#cc6666\n\
color2=#b5bd68\n\
color3=#f0c674\n\
color4=#81a2be\n\
color5=#b294bb\n\
color6=#8abeb7\n\
color7=#c5c8c6\n\
color8=#969896\n\
color9=#cc6666\n\
color10=#b5bd68\n\
color11=#f0c674\n\
color12=#81a2be\n\
color13=#b294bb\n\
color14=#8abeb7\n\
color15=#ffffff\n";

/// Ubuntu.
pub const UBUNTU: &'static str = "\
background=#300a24\n\
foreground=#ffffff\n\
cursor=#ffffff\n\
color0=#2e3436\n\
color1=#cc0000\n\
color2=#4e9a06\n\
color3=#c4a000\n\
color4=#3465a4\n\
color5=#75507b\n\
color6=#06989a\n\
color7=#d3d7cf\n\
color8=#555753\n\
color9=#ef2929\n\
color10=#8ae234\n\
color11=#fce94f\n\
color12=#729fcf\n\
color13=#ad7fa8\n\
color14=#34e2e2\n\
color15=#eeeeec\n";

/// Zenburn.
pub const ZENBURN: &'static str = "\
background=#3f3f3f\n\
foreground=#dcdccc\n\
cursor=#dcdccc\n\
color0=#4d4d4d\n\
color1=#705050\n\
color2=#60b48a\n\
color3=#f0dfaf\n\
color4=#506070\n\
color5=#dc8cc3\n\
color6=#8cd0d3\n\
color7=#dcdccc\n\
color8=#709080\n\
color9=#dca3a3\n\
color10=#c3bf9f\n\
color11=#e0cf9f\n\
color12=#94bff3\n\
color13=#ec93d3\n\
color14=#93e0e3\n\
color15=#ffffff\n";

} // verus!
