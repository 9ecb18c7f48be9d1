use file_name_options::error::{NumberSource, OptionsError};
use file_name_options::file_name::{Classify, EmbedHyperlinks, Options, ShowIcons};
use file_name_options::flags::{Flag, MatchedFlags};
use file_name_options::number::ParseFailure;
use file_name_options::token::ValueToken;
use file_name_options::vars::Vars;

/// An environment in which every variable has the same value, or none.
struct Uniform(Option<&'static str>);

impl Vars for Uniform {
    fn get(&self, _name: &'static str) -> Option<ValueToken> {
        self.0.map(ValueToken::from_text)
    }
}

fn switches(flags: &[Flag], strict: bool) -> MatchedFlags {
    MatchedFlags { flags: flags.iter().map(|flag| (*flag, None)).collect(), strict }
}

#[test]
fn classify_follows_its_switch() {
    assert_eq!(Classify::deduce(&switches(&[], false)), Ok(Classify::JustFilenames));
    assert_eq!(Classify::deduce(&switches(&[Flag::Hyperlink], false)), Ok(Classify::JustFilenames));
    assert_eq!(Classify::deduce(&switches(&[Flag::Classify], false)), Ok(Classify::AddFileIndicators));
    assert_eq!(Classify::deduce(&switches(&[Flag::Classify], true)), Ok(Classify::AddFileIndicators));
    assert_eq!(
        Classify::deduce(&switches(&[Flag::Classify, Flag::Classify], false)),
        Ok(Classify::AddFileIndicators)
    );
}

#[test]
fn hyperlinks_follow_their_switch() {
    assert_eq!(EmbedHyperlinks::deduce(&switches(&[], false)), Ok(EmbedHyperlinks::Off));
    assert_eq!(EmbedHyperlinks::deduce(&switches(&[Flag::Classify], true)), Ok(EmbedHyperlinks::Off));
    assert_eq!(EmbedHyperlinks::deduce(&switches(&[Flag::Hyperlink], false)), Ok(EmbedHyperlinks::On));
    assert_eq!(EmbedHyperlinks::deduce(&switches(&[Flag::Hyperlink], true)), Ok(EmbedHyperlinks::On));
}

#[test]
fn a_switch_with_a_value_is_no_switch() {
    let matches = MatchedFlags {
        flags: vec![(Flag::Classify, Some(ValueToken::from_text("yes")))],
        strict: false,
    };
    assert_eq!(Classify::deduce(&matches), Ok(Classify::JustFilenames));
}

#[test]
fn strictness_refuses_a_switch_given_twice() {
    assert_eq!(
        Classify::deduce(&switches(&[Flag::Classify, Flag::Icons, Flag::Classify], true)),
        Err(OptionsError::Duplicate(Flag::Classify, Flag::Classify))
    );
    assert_eq!(
        EmbedHyperlinks::deduce(&switches(&[Flag::Hyperlink, Flag::Hyperlink], true)),
        Err(OptionsError::Duplicate(Flag::Hyperlink, Flag::Hyperlink))
    );
}

#[test]
fn options_without_flags() {
    for is_a_tty in [false, true] {
        assert_eq!(
            Options::deduce(&switches(&[], false), &Uniform(Some("4")), is_a_tty),
            Ok(Options {
                classify: Classify::JustFilenames,
                is_a_tty,
                show_icons: ShowIcons::Never,
                embed_hyperlinks: EmbedHyperlinks::Off,
            })
        );
    }
}

#[test]
fn options_with_every_switch() {
    let matches = switches(&[Flag::Hyperlink, Flag::Icons, Flag::Classify], true);
    assert_eq!(
        Options::deduce(&matches, &Uniform(Some("2")), true),
        Ok(Options {
            classify: Classify::AddFileIndicators,
            is_a_tty: true,
            show_icons: ShowIcons::Automatic(2),
            embed_hyperlinks: EmbedHyperlinks::On,
        })
    );
    assert_eq!(
        Options::deduce(&matches, &Uniform(None), false),
        Ok(Options {
            classify: Classify::AddFileIndicators,
            is_a_tty: false,
            show_icons: ShowIcons::Automatic(1),
            embed_hyperlinks: EmbedHyperlinks::On,
        })
    );
}

#[test]
fn options_fail_with_the_first_failure() {
    let matches = switches(
        &[Flag::Hyperlink, Flag::Hyperlink, Flag::Icons, Flag::Classify, Flag::Classify],
        true,
    );
    assert_eq!(
        Options::deduce(&matches, &Uniform(Some("abc")), true),
        Err(OptionsError::Duplicate(Flag::Classify, Flag::Classify))
    );
    let matches = switches(&[Flag::Hyperlink, Flag::Hyperlink, Flag::Icons], true);
    assert_eq!(
        Options::deduce(&matches, &Uniform(Some("abc")), true),
        Err(OptionsError::FailedParse(
            String::from("abc"),
            NumberSource::Env("EXA_ICON_SPACING"),
            ParseFailure::InvalidDigit
        ))
    );
    assert_eq!(
        Options::deduce(&matches, &Uniform(Some("3")), true),
        Err(OptionsError::Duplicate(Flag::Hyperlink, Flag::Hyperlink))
    );
}

#[test]
fn options_fail_on_an_unknown_word() {
    let matches = MatchedFlags {
        flags: vec![
            (Flag::Classify, None),
            (Flag::Icons, Some(ValueToken::from_text("sometimes"))),
        ],
        strict: false,
    };
    assert_eq!(
        Options::deduce(&matches, &Uniform(None), true),
        Err(OptionsError::BadArgument(Flag::Icons, ValueToken::from_text("sometimes")))
    );
}

#[test]
fn options_deduced_twice_are_the_same() {
    let matches = switches(&[Flag::Icons, Flag::Classify], false);
    let vars = Uniform(Some("7"));
    assert_eq!(Options::deduce(&matches, &vars, true), Options::deduce(&matches, &vars, true));
}

/// An environment in which every variable holds the same bytes.
struct Raw(Vec<u8>);

impl Vars for Raw {
    fn get(&self, _name: &'static str) -> Option<ValueToken> {
        Some(ValueToken::from_bytes(self.0.clone()))
    }
}

#[test]
fn options_fail_on_a_spacing_that_is_not_text() {
    let matches = switches(&[Flag::Icons, Flag::Classify], false);
    assert_eq!(
        Options::deduce(&matches, &Raw(vec![0xff]), true),
        Err(OptionsError::FailedParse(
            String::from("\u{fffd}"),
            NumberSource::Env("EXA_ICON_SPACING"),
            ParseFailure::InvalidDigit
        ))
    );
}
