//! What holds of the deduction for all flags and environments.

use vstd::prelude::*;
use vstd::string::*;
use vstd::utf8::*;

use crate::error::{NumberSourceView, OptionsErrorView};
use crate::file_name::{
    classify_spec, hyperlinks_spec, icons_mode_spec, options_spec, show_icons_spec,
    word_mode_spec, Classify, EmbedHyperlinks, IconsMode, Options, ShowIcons,
};
use crate::flags::{
    has_bare, lemma_bare_count_positive, lemma_unmentioned, mentions, Flag, FlagsView,
};
use crate::number::{
    all_digits, decimal_value, overflows, parse_decimal_spec, unsigned_part, ParseFailure,
};
use crate::token::lossy_text;

verus! {

/// Two texts with the same UTF-8 encoding are the same text.
pub proof fn lemma_encoding_is_injective(a: Seq<char>, b: Seq<char>)
    requires
        encode_utf8(a) == encode_utf8(b),
    ensures
        a == b,
{
    encode_utf8_decode_utf8(a);
    encode_utf8_decode_utf8(b);
}

/// The four words that `icons` accepts mean what they say.
pub proof fn lemma_known_words()
    ensures
        word_mode_spec(encode_utf8("always"@)) == Ok::<_, OptionsErrorView>(
            Some(IconsMode::Always),
        ),
        word_mode_spec(encode_utf8("auto"@)) == Ok::<_, OptionsErrorView>(
            Some(IconsMode::Automatic),
        ),
        word_mode_spec(encode_utf8("automatic"@)) == Ok::<_, OptionsErrorView>(
            Some(IconsMode::Automatic),
        ),
        word_mode_spec(encode_utf8("never"@)) == Ok::<Option<IconsMode>, OptionsErrorView>(None),
{
    reveal_strlit("always");
    reveal_strlit("auto");
    reveal_strlit("automatic");
    reveal_strlit("never");
    if encode_utf8("auto"@) == encode_utf8("always"@) {
        lemma_encoding_is_injective("auto"@, "always"@);
    }
    if encode_utf8("automatic"@) == encode_utf8("always"@) {
        lemma_encoding_is_injective("automatic"@, "always"@);
    }
    if encode_utf8("never"@) == encode_utf8("always"@) {
        lemma_encoding_is_injective("never"@, "always"@);
    }
    if encode_utf8("never"@) == encode_utf8("auto"@) {
        lemma_encoding_is_injective("never"@, "auto"@);
    }
    if encode_utf8("never"@) == encode_utf8("automatic"@) {
        lemma_encoding_is_injective("never"@, "automatic"@);
    }
}

/// Where the switch `no-icons` was given, no icons are shown, whatever value
/// `icons` has and whatever the environment holds. The flags on which the
/// queries themselves fail are left out: those that give `icons` a value
/// twice, or `no-icons` twice, under strictness.
pub proof fn law_no_icons_wins(flags: FlagsView, spacing: Option<Seq<u8>>)
    requires
        has_bare(flags.entries, Flag::NoIcons),
        flags.get(Flag::Icons) is Ok,
        flags.has(Flag::NoIcons) is Ok,
    ensures
        show_icons_spec(flags, spacing) == Ok::<_, OptionsErrorView>(ShowIcons::Never),
{
    lemma_bare_count_positive(flags.entries, Flag::NoIcons);
}

/// Where neither `no-icons` nor `icons` was given at all, no icons are shown.
pub proof fn law_unmentioned_icons(flags: FlagsView, spacing: Option<Seq<u8>>)
    requires
        !mentions(flags.entries, Flag::NoIcons),
        !mentions(flags.entries, Flag::Icons),
    ensures
        show_icons_spec(flags, spacing) == Ok::<_, OptionsErrorView>(ShowIcons::Never),
{
    lemma_unmentioned(flags.entries, Flag::NoIcons);
    lemma_unmentioned(flags.entries, Flag::Icons);
}

/// Where `icons` has the value `never`, no icons are shown, whatever the
/// environment holds. The flags on which the queries for the switches fail
/// are left out: those that give `no-icons` twice under strictness, or `icons`
/// twice as a switch without `no-icons`.
pub proof fn law_icons_never(flags: FlagsView, spacing: Option<Seq<u8>>)
    requires
        flags.get(Flag::Icons) == Ok::<_, OptionsErrorView>(Some(encode_utf8("never"@))),
        flags.has(Flag::NoIcons) is Ok,
        flags.has(Flag::NoIcons) == Ok::<_, OptionsErrorView>(false) ==> flags.has(Flag::Icons) is Ok,
    ensures
        show_icons_spec(flags, spacing) == Ok::<_, OptionsErrorView>(ShowIcons::Never),
{
    lemma_known_words();
}

/// Where `icons` was given as a switch and has no value, and the spacing
/// variable is not set, icons are shown with one column of space. Left out are
/// the flags with `no-icons` as a switch, which overrides `icons`, and those on
/// which the query for the switch `icons` fails.
pub proof fn law_bare_icons_default_spacing(flags: FlagsView)
    requires
        has_bare(flags.entries, Flag::Icons),
        flags.get(Flag::Icons) == Ok::<Option<Seq<u8>>, OptionsErrorView>(None),
        flags.has(Flag::NoIcons) == Ok::<_, OptionsErrorView>(false),
        flags.has(Flag::Icons) is Ok,
    ensures
        show_icons_spec(flags, None) == Ok::<_, OptionsErrorView>(ShowIcons::Automatic(1)),
{
    lemma_bare_count_positive(flags.entries, Flag::Icons);
}

/// The text `4` is the number four.
pub proof fn lemma_four()
    ensures
        valid_utf8(encode_utf8("4"@)),
        parse_decimal_spec(encode_utf8("4"@)) == Ok::<u32, ParseFailure>(4),
{
    reveal_strlit("4");
    let text = encode_utf8("4"@);
    encode_utf8_valid_utf8("4"@);
    assert(is_ascii_chars("4"@));
    is_ascii_chars_encode_utf8("4"@);
    assert(text.len() == 1);
    assert(text[0] == '4' as u8);
    assert(text[0] == 52u8);
    assert(unsigned_part(text) == text);
    assert(text.drop_last() =~= Seq::<u8>::empty());
    assert(decimal_value(text.drop_last()) == 0);
    assert(decimal_value(text) == 4);
    assert forall|k: int| 0 <= k <= text.len() implies decimal_value(#[trigger] text.take(k))
        <= u32::MAX by {
        if k == 0 {
            assert(text.take(0) =~= Seq::<u8>::empty());
        } else {
            assert(text.take(1) =~= text);
        }
    }
    assert(!overflows(text));
}

/// Where `icons` has one of the values `auto`, `automatic` and `always`, and
/// the spacing variable holds `4`, icons are shown with four columns of space.
/// Left out are the flags with `no-icons` as a switch, which overrides `icons`,
/// and those on which the query for the switch `icons` fails.
pub proof fn law_icons_with_spacing_four(flags: FlagsView, word: Seq<u8>)
    requires
        word == encode_utf8("auto"@) || word == encode_utf8("automatic"@) || word == encode_utf8(
            "always"@,
        ),
        flags.get(Flag::Icons) == Ok::<_, OptionsErrorView>(Some(word)),
        flags.has(Flag::NoIcons) == Ok::<_, OptionsErrorView>(false),
        flags.has(Flag::Icons) is Ok,
    ensures
        show_icons_spec(flags, Some(encode_utf8("4"@))) == Ok::<_, OptionsErrorView>(
            ShowIcons::Automatic(4),
        ),
{
    lemma_known_words();
    lemma_four();
}

/// Where the flags ask for icons and the spacing variable holds text that is
/// no number, the deduction fails with that text, the variable's name and the
/// reason.
pub proof fn law_bad_spacing_names_the_variable(flags: FlagsView, text: Seq<char>)
    requires
        icons_mode_spec(flags) matches Ok(Some(_)),
        parse_decimal_spec(encode_utf8(text)) is Err,
    ensures
        show_icons_spec(flags, Some(encode_utf8(text))) == Err::<ShowIcons, _>(
            OptionsErrorView::FailedParse(
                text,
                NumberSourceView::Env("EXA_ICON_SPACING"@),
                parse_decimal_spec(encode_utf8(text))->Err_0,
            ),
        ),
{
    encode_utf8_valid_utf8(text);
    encode_utf8_decode_utf8(text);
}

/// Where the flags ask for icons and the spacing variable holds a value that
/// is not valid UTF-8, the deduction fails with the value as lossy text and
/// the variable's name: a value that is set is never passed over for the
/// default.
pub proof fn law_spacing_that_is_no_text_fails(flags: FlagsView, bytes: Seq<u8>)
    requires
        icons_mode_spec(flags) matches Ok(Some(_)),
        !valid_utf8(bytes),
    ensures
        show_icons_spec(flags, Some(bytes)) == Err::<ShowIcons, _>(
            OptionsErrorView::FailedParse(
                lossy_text(bytes),
                NumberSourceView::Env("EXA_ICON_SPACING"@),
                ParseFailure::InvalidDigit,
            ),
        ),
{
}

/// Where the flags ask for icons and the spacing variable is set, the
/// deduction gives the number that the value spells, or fails: the default
/// is for the unset variable alone.
pub proof fn law_set_spacing_is_never_defaulted(flags: FlagsView, bytes: Seq<u8>)
    requires
        icons_mode_spec(flags) matches Ok(Some(_)),
    ensures
        show_icons_spec(flags, Some(bytes)) is Ok <==> valid_utf8(bytes) && parse_decimal_spec(
            bytes,
        ) is Ok,
        show_icons_spec(flags, Some(bytes)) matches Ok(shown) ==> shown == ShowIcons::Automatic(
            parse_decimal_spec(bytes)->Ok_0,
        ),
        show_icons_spec(flags, Some(bytes)) matches Err(error) ==> error
            is FailedParse && error->FailedParse_1 == NumberSourceView::Env("EXA_ICON_SPACING"@),
{
}

/// Where `icons` has the value `sometimes`, the deduction fails and names the
/// flag and the value. Left out are the flags with `no-icons` as a switch,
/// which overrides `icons`, and those on which the query for the switch
/// `icons` fails.
pub proof fn law_unknown_word(flags: FlagsView, spacing: Option<Seq<u8>>)
    requires
        flags.get(Flag::Icons) == Ok::<_, OptionsErrorView>(Some(encode_utf8("sometimes"@))),
        flags.has(Flag::NoIcons) == Ok::<_, OptionsErrorView>(false),
        flags.has(Flag::Icons) is Ok,
    ensures
        show_icons_spec(flags, spacing) == Err::<ShowIcons, _>(
            OptionsErrorView::BadArgument(Flag::Icons, encode_utf8("sometimes"@)),
        ),
{
    reveal_strlit("sometimes");
    reveal_strlit("always");
    reveal_strlit("auto");
    reveal_strlit("automatic");
    reveal_strlit("never");
    let word = "sometimes"@;
    if encode_utf8(word) == encode_utf8("always"@) {
        lemma_encoding_is_injective(word, "always"@);
    }
    if encode_utf8(word) == encode_utf8("auto"@) {
        lemma_encoding_is_injective(word, "auto"@);
    }
    if encode_utf8(word) == encode_utf8("automatic"@) {
        lemma_encoding_is_injective(word, "automatic"@);
        assert(word[0] == 's');
        assert("automatic"@[0] == 'a');
    }
    if encode_utf8(word) == encode_utf8("never"@) {
        lemma_encoding_is_injective(word, "never"@);
    }
}

/// The deduction is a function of its inputs: two results that each meet its
/// contract on the same flags, the same value of the spacing variable and the
/// same terminal flag are the same.
pub proof fn law_deduction_is_a_function(
    flags: FlagsView,
    spacing: Option<Seq<u8>>,
    is_a_tty: bool,
    first: Result<Options, OptionsErrorView>,
    second: Result<Options, OptionsErrorView>,
)
    requires
        first == options_spec(flags, spacing, is_a_tty),
        second == options_spec(flags, spacing, is_a_tty),
    ensures
        first == second,
{
}

/// The indicators are added exactly if `classify` was given as a switch, and
/// there is no third outcome. Left out are the flags on which the query
/// fails: those that give the switch twice under strictness.
pub proof fn law_classify_follows_its_switch(flags: FlagsView)
    requires
        flags.has(Flag::Classify) is Ok,
    ensures
        classify_spec(flags) == Ok::<_, OptionsErrorView>(
            if has_bare(flags.entries, Flag::Classify) {
                Classify::AddFileIndicators
            } else {
                Classify::JustFilenames
            },
        ),
{
    lemma_bare_count_positive(flags.entries, Flag::Classify);
}

/// Hyperlinks are on exactly if `hyperlink` was given as a switch, and there
/// is no third outcome. Left out are the flags on which the query fails: those
/// that give the switch twice under strictness.
pub proof fn law_hyperlinks_follow_their_switch(flags: FlagsView)
    requires
        flags.has(Flag::Hyperlink) is Ok,
    ensures
        hyperlinks_spec(flags) == Ok::<_, OptionsErrorView>(
            if has_bare(flags.entries, Flag::Hyperlink) {
                EmbedHyperlinks::On
            } else {
                EmbedHyperlinks::Off
            },
        ),
{
    lemma_bare_count_positive(flags.entries, Flag::Hyperlink);
}

/// A text that starts with a byte that is neither a digit nor a plus sign is
/// no number.
pub proof fn lemma_bad_first_byte(text: Seq<u8>)
    requires
        text.len() > 0,
        text[0] != 43,
        !(48 <= text[0] <= 57),
    ensures
        parse_decimal_spec(text) == Err::<u32, _>(ParseFailure::InvalidDigit),
{
    assert(unsigned_part(text) == text);
    assert forall|k: int| 0 <= k <= text.len() && all_digits(#[trigger] text.take(k)) implies k
        == 0 by {
        if k > 0 {
            assert(text.take(k)[0] == text[0]);
        }
    }
    assert(text.take(0) =~= Seq::<u8>::empty());
    assert(decimal_value(text.take(0)) == 0);
    assert(!overflows(text));
}

/// The texts `-1` and `abc` are no numbers.
pub proof fn lemma_not_numbers()
    ensures
        parse_decimal_spec(encode_utf8("-1"@)) == Err::<u32, _>(ParseFailure::InvalidDigit),
        parse_decimal_spec(encode_utf8("abc"@)) == Err::<u32, _>(ParseFailure::InvalidDigit),
{
    reveal_strlit("-1");
    reveal_strlit("abc");
    assert(is_ascii_chars("-1"@));
    assert(is_ascii_chars("abc"@));
    is_ascii_chars_encode_utf8("-1"@);
    is_ascii_chars_encode_utf8("abc"@);
    assert(encode_utf8("-1"@)[0] == '-' as u8);
    assert(encode_utf8("abc"@)[0] == 'a' as u8);
    lemma_bad_first_byte(encode_utf8("-1"@));
    lemma_bad_first_byte(encode_utf8("abc"@));
}

/// Where the flags ask for icons and the spacing variable holds `-1` or `abc`,
/// the deduction fails with that text and the variable's name.
pub proof fn law_negative_or_wordy_spacing(flags: FlagsView)
    requires
        icons_mode_spec(flags) matches Ok(Some(_)),
    ensures
        show_icons_spec(flags, Some(encode_utf8("-1"@))) == Err::<ShowIcons, _>(
            OptionsErrorView::FailedParse(
                "-1"@,
                NumberSourceView::Env("EXA_ICON_SPACING"@),
                ParseFailure::InvalidDigit,
            ),
        ),
        show_icons_spec(flags, Some(encode_utf8("abc"@))) == Err::<ShowIcons, _>(
            OptionsErrorView::FailedParse(
                "abc"@,
                NumberSourceView::Env("EXA_ICON_SPACING"@),
                ParseFailure::InvalidDigit,
            ),
        ),
{
    lemma_not_numbers();
    law_bad_spacing_names_the_variable(flags, "-1"@);
    law_bad_spacing_names_the_variable(flags, "abc"@);
}

} // verus!
