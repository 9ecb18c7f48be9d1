//! How file names are displayed, and how that is deduced from the flags and
//! the environment.

use vstd::prelude::*;
use vstd::string::*;
use vstd::utf8::*;

use crate::error::{outcome, NumberSource, NumberSourceView, OptionsError, OptionsErrorView};
use crate::flags::{Flag, FlagsView, MatchedFlags};
use crate::number::{parse_decimal, parse_decimal_spec, ParseFailure};
use crate::token::{lossy_text, token_view, ValueToken};
use crate::vars::{Vars, EXA_ICON_SPACING};

verus! {

/// Whether a character that tells the file's type follows its name.
#[derive(Debug, Clone, Copy, PartialEq, Eq, Structural)]
pub enum Classify {
    /// Just display the file names, without any characters.
    JustFilenames,
    /// Add a character after the file name depending on what type of file it is.
    AddFileIndicators,
}

/// Whether and how icons are shown.
#[derive(Debug, Clone, Copy, PartialEq, Eq, Structural)]
pub enum ShowIcons {
    /// Never show icons.
    Never,
    /// Show an icon before each file name, followed by this many columns of
    /// space.
    Automatic(u32),
}

/// Whether file names are wrapped in terminal hyperlinks.
#[derive(Debug, Clone, Copy, PartialEq, Eq, Structural)]
pub enum EmbedHyperlinks {
    Off,
    On,
}

/// The options that decide how a file name is displayed.
#[derive(Debug, Clone, Copy, PartialEq, Eq, Structural)]
pub struct Options {
    /// Whether to append file class characters to file names.
    pub classify: Classify,
    /// Whether the output goes to a terminal.
    pub is_a_tty: bool,
    /// Whether to prepend icon characters before file names.
    pub show_icons: ShowIcons,
    /// Whether to make file names hyperlinks.
    pub embed_hyperlinks: EmbedHyperlinks,
}

/// What the words that `icons` accepts ask for, where they ask for icons.
#[derive(Debug, Clone, Copy, PartialEq, Eq, Structural)]
pub enum IconsMode {
    Always,
    Automatic,
}

/// The number of columns after an icon where the environment names none.
pub const DEFAULT_ICON_SPACING: u32 = 1;

/// What `classify` decides: the indicators are added exactly if the switch was
/// given.
pub open spec fn classify_spec(flags: FlagsView) -> Result<Classify, OptionsErrorView> {
    match flags.has(Flag::Classify) {
        Err(error) => Err(error),
        Ok(true) => Ok(Classify::AddFileIndicators),
        Ok(false) => Ok(Classify::JustFilenames),
    }
}

/// What `hyperlink` decides: hyperlinks are on exactly if the switch was given.
pub open spec fn hyperlinks_spec(flags: FlagsView) -> Result<EmbedHyperlinks, OptionsErrorView> {
    match flags.has(Flag::Hyperlink) {
        Err(error) => Err(error),
        Ok(true) => Ok(EmbedHyperlinks::On),
        Ok(false) => Ok(EmbedHyperlinks::Off),
    }
}

/// What a value given to `icons` asks for: `None` for no icons, a mode for
/// icons, an error for a value that is none of the four words. The words are
/// compared byte for byte.
pub open spec fn word_mode_spec(word: Seq<u8>) -> Result<Option<IconsMode>, OptionsErrorView> {
    if word == encode_utf8("always"@) {
        Ok(Some(IconsMode::Always))
    } else if word == encode_utf8("auto"@) || word == encode_utf8("automatic"@) {
        Ok(Some(IconsMode::Automatic))
    } else if word == encode_utf8("never"@) {
        Ok(None)
    } else {
        Err(OptionsErrorView::BadArgument(Flag::Icons, word))
    }
}

/// What the flags alone decide about icons: `None` for no icons, or the mode
/// in which they are shown.
///
/// The value of `icons` is looked up first, then the switch `no-icons`, which
/// overrides everything, then the switch `icons`. With neither switch nor
/// value there are no icons; a value decides by its word; the bare switch
/// means `Automatic`.
pub open spec fn icons_mode_spec(flags: FlagsView) -> Result<Option<IconsMode>, OptionsErrorView> {
    match flags.get(Flag::Icons) {
        Err(error) => Err(error),
        Ok(word) => match flags.has(Flag::NoIcons) {
            Err(error) => Err(error),
            Ok(true) => Ok(None),
            Ok(false) => match flags.has(Flag::Icons) {
                Err(error) => Err(error),
                Ok(bare) => match word {
                    Some(bytes) => word_mode_spec(bytes),
                    None => if bare {
                        Ok(Some(IconsMode::Automatic))
                    } else {
                        Ok(None)
                    },
                },
            },
        },
    }
}

/// The error for a value of the spacing variable that is no number: the
/// value as text, the variable's name and the reason.
pub open spec fn spacing_failure_spec(text: Seq<char>, failure: ParseFailure) -> OptionsErrorView {
    OptionsErrorView::FailedParse(text, NumberSourceView::Env(EXA_ICON_SPACING@), failure)
}

/// The number of columns after an icon, given the value of the spacing
/// variable: the default where the variable is unset, and the number that the
/// value spells where it is set. A value that spells no number is an error,
/// never the default. One that is not even text is reported as lossy text
/// with an invalid digit, since it holds a byte that is no digit.
pub open spec fn icon_spacing_spec(value: Option<Seq<u8>>) -> Result<u32, OptionsErrorView> {
    match value {
        None => Ok(DEFAULT_ICON_SPACING),
        Some(bytes) => if valid_utf8(bytes) {
            match parse_decimal_spec(bytes) {
                Ok(width) => Ok(width),
                Err(failure) => Err(spacing_failure_spec(decode_utf8(bytes), failure)),
            }
        } else {
            Err(spacing_failure_spec(lossy_text(bytes), ParseFailure::InvalidDigit))
        },
    }
}

/// How icons are shown in a mode that asks for them, given the value of the
/// spacing variable. Both modes show them alike, with the spacing that the
/// variable gives.
pub open spec fn icons_in_mode_spec(mode: IconsMode, spacing: Option<Seq<u8>>) -> Result<
    ShowIcons,
    OptionsErrorView,
> {
    match icon_spacing_spec(spacing) {
        Err(error) => Err(error),
        Ok(width) => Ok(ShowIcons::Automatic(width)),
    }
}

/// Whether icons are shown, given the flags and the value of the spacing
/// variable. The variable counts only where the flags ask for icons.
pub open spec fn show_icons_spec(flags: FlagsView, spacing: Option<Seq<u8>>) -> Result<
    ShowIcons,
    OptionsErrorView,
> {
    match icons_mode_spec(flags) {
        Err(error) => Err(error),
        Ok(None) => Ok(ShowIcons::Never),
        Ok(Some(mode)) => icons_in_mode_spec(mode, spacing),
    }
}

/// The options, given the flags, the value of the spacing variable and whether
/// the output is a terminal. The first part that fails decides the error:
/// indicators, then icons, then hyperlinks.
pub open spec fn options_spec(flags: FlagsView, spacing: Option<Seq<u8>>, is_a_tty: bool) -> Result<
    Options,
    OptionsErrorView,
> {
    match classify_spec(flags) {
        Err(error) => Err(error),
        Ok(classify) => match show_icons_spec(flags, spacing) {
            Err(error) => Err(error),
            Ok(show_icons) => match hyperlinks_spec(flags) {
                Err(error) => Err(error),
                Ok(embed_hyperlinks) => Ok(
                    Options { classify, is_a_tty, show_icons, embed_hyperlinks },
                ),
            },
        },
    }
}

impl Classify {
    /// Deduces from the flags whether file names get an indicator.
    pub fn deduce(matches: &MatchedFlags) -> (result: Result<Self, OptionsError>)
        ensures
            outcome(result) == classify_spec(matches@),
    {
        let flagged = matches.has(Flag::Classify)?;
        if flagged {
            Ok(Classify::AddFileIndicators)
        } else {
            Ok(Classify::JustFilenames)
        }
    }
}

impl EmbedHyperlinks {
    /// Deduces from the flags whether file names become hyperlinks.
    pub fn deduce(matches: &MatchedFlags) -> (result: Result<Self, OptionsError>)
        ensures
            outcome(result) == hyperlinks_spec(matches@),
    {
        let flagged = matches.has(Flag::Hyperlink)?;
        if flagged {
            Ok(EmbedHyperlinks::On)
        } else {
            Ok(EmbedHyperlinks::Off)
        }
    }
}

impl IconsMode {
    /// What the value given to `icons` asks for.
    pub fn of_word(word: &ValueToken) -> (result: Result<Option<Self>, OptionsError>)
        ensures
            outcome(result) == word_mode_spec(word@),
    {
        if word.is_word("always") {
            Ok(Some(IconsMode::Always))
        } else if word.is_word("auto") || word.is_word("automatic") {
            Ok(Some(IconsMode::Automatic))
        } else if word.is_word("never") {
            Ok(None)
        } else {
            Err(OptionsError::BadArgument(Flag::Icons, word.duplicate()))
        }
    }

    /// Deduces from the flags alone whether icons are asked for, and in which
    /// mode.
    pub fn deduce(matches: &MatchedFlags) -> (result: Result<Option<Self>, OptionsError>)
        ensures
            outcome(result) == icons_mode_spec(matches@),
    {
        let mode_opt = matches.get(Flag::Icons)?;
        if matches.has(Flag::NoIcons)? {
            return Ok(None);
        }
        let bare = matches.has(Flag::Icons)?;
        match mode_opt {
            Some(word) => IconsMode::of_word(word),
            None => if bare {
                Ok(Some(IconsMode::Automatic))
            } else {
                Ok(None)
            },
        }
    }
}

impl ShowIcons {
    /// The error for a value of the spacing variable that is no number.
    pub fn spacing_failure(text: String, failure: ParseFailure) -> (error: OptionsError)
        ensures
            error@ == spacing_failure_spec(text@, failure),
    {
        OptionsError::FailedParse(text, NumberSource::Env(EXA_ICON_SPACING), failure)
    }

    /// The number of columns after an icon, given what the lookup of the
    /// spacing variable returned.
    pub fn spacing(value: Option<ValueToken>) -> (result: Result<u32, OptionsError>)
        ensures
            outcome(result) == icon_spacing_spec(token_view(value)),
    {
        let token = match value {
            Some(token) => token,
            None => { return Ok(DEFAULT_ICON_SPACING); },
        };
        match token.to_str() {
            Some(columns) => match parse_decimal(columns.as_bytes()) {
                Ok(width) => Ok(width),
                Err(failure) => Err(ShowIcons::spacing_failure(columns.to_owned(), failure)),
            },
            None => Err(
                ShowIcons::spacing_failure(token.to_string_lossy(), ParseFailure::InvalidDigit),
            ),
        }
    }

    /// How icons are shown in a mode that asks for them, given what the lookup
    /// of the spacing variable returned.
    pub fn in_mode(mode: IconsMode, value: Option<ValueToken>) -> (result: Result<
        Self,
        OptionsError,
    >)
        ensures
            outcome(result) == icons_in_mode_spec(mode, token_view(value)),
    {
        let width = ShowIcons::spacing(value)?;
        match mode {
            IconsMode::Always => Ok(ShowIcons::Automatic(width)),
            IconsMode::Automatic => Ok(ShowIcons::Automatic(width)),
        }
    }

    /// Deduces from the flags and the environment whether icons are shown.
    ///
    /// The environment is asked for the spacing variable, and only where the
    /// flags ask for icons. Where they do not, the flags alone decide the
    /// result; where they do, the result is what `show_icons_spec` gives for
    /// the value that the environment returned.
    pub fn deduce<V: Vars>(matches: &MatchedFlags, vars: &V) -> (result: Result<
        Self,
        OptionsError,
    >)
        ensures
            icons_mode_spec(matches@) matches Ok(Some(_)) || outcome(result) == show_icons_spec(
                matches@,
                None,
            ),
            exists|spacing: Option<Seq<u8>>|
                outcome(result) == #[trigger] show_icons_spec(matches@, spacing),
    {
        match IconsMode::deduce(matches) {
            Err(error) => {
                let result = Err(error);
                assert(outcome(result) == show_icons_spec(matches@, None));
                result
            },
            Ok(None) => {
                let result = Ok(ShowIcons::Never);
                assert(outcome(result) == show_icons_spec(matches@, None));
                result
            },
            Ok(Some(mode)) => {
                let value = vars.get(EXA_ICON_SPACING);
                let ghost spacing = token_view(value);
                let result = ShowIcons::in_mode(mode, value);
                assert(outcome(result) == show_icons_spec(matches@, spacing));
                result
            },
        }
    }
}

impl Options {
    /// Deduces the options from the flags, the environment and whether the
    /// output is a terminal.
    ///
    /// The result is what `options_spec` gives for the value that the
    /// environment returned for the spacing variable; where the flags ask for
    /// no icons, or the indicators already fail, they decide it alone.
    pub fn deduce<V: Vars>(matches: &MatchedFlags, vars: &V, is_a_tty: bool) -> (result: Result<
        Self,
        OptionsError,
    >)
        ensures
            (classify_spec(matches@) is Ok && icons_mode_spec(matches@) matches Ok(Some(_)))
                || outcome(result) == options_spec(matches@, None, is_a_tty),
            exists|spacing: Option<Seq<u8>>|
                outcome(result) == #[trigger] options_spec(matches@, spacing, is_a_tty),
    {
        let classify = match Classify::deduce(matches) {
            Ok(classify) => classify,
            Err(error) => {
                let result = Err(error);
                assert(outcome(result) == options_spec(matches@, None, is_a_tty));
                return result;
            },
        };
        let icons = ShowIcons::deduce(matches, vars);
        let ghost spacing = choose|spacing: Option<Seq<u8>>|
            outcome(icons) == #[trigger] show_icons_spec(matches@, spacing);
        let result = match icons {
            Err(error) => Err(error),
            Ok(show_icons) => match EmbedHyperlinks::deduce(matches) {
                Err(error) => Err(error),
                Ok(embed_hyperlinks) => Ok(
                    Options { classify, is_a_tty, show_icons, embed_hyperlinks },
                ),
            },
        };
        assert(outcome(result) == options_spec(matches@, spacing, is_a_tty));
        result
    }
}

} // verus!
