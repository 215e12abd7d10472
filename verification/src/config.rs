//! The settings of the module.

use vstd::prelude::*;

verus! {

/// The settings of the module, as the host hands them over for one render pass.
#[derive(Clone, Copy, Debug, PartialEq, Eq)]
pub struct RailwayConfig<'a> {
    /// The template of the rendered text.
    pub format: &'a str,
    /// The glyph shown before the project's name. Its trailing blank is part
    /// of the value: some terminals draw wide glyphs over the next cell.
    pub symbol: &'a str,
    /// The style of the rendered text.
    pub style: &'a str,
    /// Whether the module is switched off.
    pub disabled: bool,
    /// The token shown inside a Railway shell.
    pub shell_msg: &'a str,
}

/// What a `RailwayConfig` holds, as plain values.
pub struct ConfigView {
    pub format: Seq<char>,
    pub symbol: Seq<char>,
    pub style: Seq<char>,
    pub disabled: bool,
    pub shell_msg: Seq<char>,
}

impl<'a> View for RailwayConfig<'a> {
    type V = ConfigView;

    open spec fn view(&self) -> ConfigView {
        ConfigView {
            format: self.format@,
            symbol: self.symbol@,
            style: self.style@,
            disabled: self.disabled,
            shell_msg: self.shell_msg@,
        }
    }
}

/// The settings in force where the user has configured nothing.
pub open spec fn default_config() -> ConfigView {
    ConfigView {
        format: "on [$symbol$project_name( \\($environment_name\\)) $shell]($style)"@,
        symbol: "🚅 "@,
        style: "bold purple"@,
        disabled: false,
        shell_msg: "$"@,
    }
}

impl<'a> Default for RailwayConfig<'a> {
    fn default() -> (r: Self)
        ensures
            r@ == default_config(),
    {
        RailwayConfig {
            format: "on [$symbol$project_name( \\($environment_name\\)) $shell]($style)",
            symbol: "🚅 ",
            style: "bold purple",
            disabled: false,
            shell_msg: "$",
        }
    }
}

} // verus!
