//! The flags that were matched on the command line, and the queries on them.

use vstd::prelude::*;

use crate::error::{OptionsError, OptionsErrorView};
use crate::token::{token_view, ValueToken};

verus! {

/// The flags that decide how file names are displayed.
#[derive(Debug, Clone, Copy, PartialEq, Eq, Structural)]
pub enum Flag {
    /// `classify`, a switch.
    Classify,
    /// `no-icons`, a switch.
    NoIcons,
    /// `icons`, a switch that may carry a value.
    Icons,
    /// `hyperlink`, a switch.
    Hyperlink,
}

impl Flag {
    /// The name by which the flag is written on the command line, after two
    /// hyphens.
    pub open spec fn long_name_spec(self) -> Seq<char> {
        match self {
            Flag::Classify => "classify"@,
            Flag::NoIcons => "no-icons"@,
            Flag::Icons => "icons"@,
            Flag::Hyperlink => "hyperlink"@,
        }
    }

    /// The name by which the flag is written on the command line, after two
    /// hyphens.
    pub fn long_name(self) -> (name: &'static str)
        ensures
            name@ == self.long_name_spec(),
    {
        match self {
            Flag::Classify => "classify",
            Flag::NoIcons => "no-icons",
            Flag::Icons => "icons",
            Flag::Hyperlink => "hyperlink",
        }
    }
}

/// One matched flag as a mathematical value: the flag, and the bytes of its
/// value if it was given one.
pub type Entry = (Flag, Option<Seq<u8>>);

/// Whether the entry is `flag` given as a switch, without a value.
pub open spec fn is_bare(entry: Entry, flag: Flag) -> bool {
    entry.0 == flag && entry.1.is_none()
}

/// Whether the entry is `flag` given with a value.
pub open spec fn is_valued(entry: Entry, flag: Flag) -> bool {
    entry.0 == flag && entry.1.is_some()
}

/// How many times `flag` stands among the entries as a switch.
pub open spec fn bare_count(entries: Seq<Entry>, flag: Flag) -> nat
    decreases entries.len(),
{
    if entries.len() == 0 {
        0
    } else {
        bare_count(entries.drop_last(), flag) + if is_bare(entries.last(), flag) {
            1nat
        } else {
            0nat
        }
    }
}

/// How many times `flag` stands among the entries with a value.
pub open spec fn valued_count(entries: Seq<Entry>, flag: Flag) -> nat
    decreases entries.len(),
{
    if entries.len() == 0 {
        0
    } else {
        valued_count(entries.drop_last(), flag) + if is_valued(entries.last(), flag) {
            1nat
        } else {
            0nat
        }
    }
}

/// The value that `flag` was last given among the entries.
pub open spec fn last_value(entries: Seq<Entry>, flag: Flag) -> Option<Seq<u8>>
    decreases entries.len(),
{
    if entries.len() == 0 {
        None
    } else if is_valued(entries.last(), flag) {
        entries.last().1
    } else {
        last_value(entries.drop_last(), flag)
    }
}

/// Whether `flag` stands among the entries as a switch.
pub open spec fn has_bare(entries: Seq<Entry>, flag: Flag) -> bool {
    exists|i: int| 0 <= i < entries.len() && is_bare(#[trigger] entries[i], flag)
}

/// Whether `flag` stands among the entries at all, with a value or without.
pub open spec fn mentions(entries: Seq<Entry>, flag: Flag) -> bool {
    exists|i: int| 0 <= i < entries.len() && (#[trigger] entries[i]).0 == flag
}

/// The count of a switch is positive exactly if the switch stands among the
/// entries.
pub proof fn lemma_bare_count_positive(entries: Seq<Entry>, flag: Flag)
    ensures
        bare_count(entries, flag) >= 1 <==> has_bare(entries, flag),
    decreases entries.len(),
{
    if entries.len() > 0 {
        let front = entries.drop_last();
        lemma_bare_count_positive(front, flag);
        if has_bare(front, flag) {
            let i = choose|i: int| 0 <= i < front.len() && is_bare(#[trigger] front[i], flag);
            assert(is_bare(entries[i], flag));
        }
        if is_bare(entries.last(), flag) {
            assert(is_bare(entries[entries.len() - 1], flag));
        }
        if has_bare(entries, flag) && !is_bare(entries.last(), flag) {
            let i = choose|i: int| 0 <= i < entries.len() && is_bare(#[trigger] entries[i], flag);
            assert(is_bare(front[i], flag));
        }
    }
}

/// A flag that does not stand among the entries is counted nowhere and has no
/// value.
pub proof fn lemma_unmentioned(entries: Seq<Entry>, flag: Flag)
    requires
        !mentions(entries, flag),
    ensures
        bare_count(entries, flag) == 0,
        valued_count(entries, flag) == 0,
        last_value(entries, flag) is None,
    decreases entries.len(),
{
    if entries.len() > 0 {
        let front = entries.drop_last();
        assert(entries[entries.len() - 1].0 != flag);
        assert forall|i: int| 0 <= i < front.len() implies (#[trigger] front[i]).0 != flag by {
            assert(entries[i].0 != flag);
        }
        lemma_unmentioned(front, flag);
    }
}

/// The matched flags as a mathematical value.
pub struct FlagsView {
    pub entries: Seq<Entry>,
    pub strict: bool,
}

impl FlagsView {
    /// Whether `flag` was given as a switch. Under strictness it is an error to
    /// give it so twice; otherwise once is as good as many times.
    pub open spec fn has(self, flag: Flag) -> Result<bool, OptionsErrorView> {
        if self.strict && bare_count(self.entries, flag) >= 2 {
            Err(OptionsErrorView::Duplicate(flag, flag))
        } else {
            Ok(bare_count(self.entries, flag) >= 1)
        }
    }

    /// The value that `flag` was given. Under strictness it is an error to give
    /// it a value twice; otherwise the last value counts.
    pub open spec fn get(self, flag: Flag) -> Result<Option<Seq<u8>>, OptionsErrorView> {
        if self.strict && valued_count(self.entries, flag) >= 2 {
            Err(OptionsErrorView::Duplicate(flag, flag))
        } else {
            Ok(last_value(self.entries, flag))
        }
    }
}

/// The flags that the command line was found to hold, in the order in which
/// they were given, each with its value if it has one.
#[derive(Debug, Clone, PartialEq, Eq)]
pub struct MatchedFlags {
    pub flags: Vec<(Flag, Option<ValueToken>)>,
    /// Whether a flag that is given twice is an error.
    pub strict: bool,
}

impl View for MatchedFlags {
    type V = FlagsView;

    open spec fn view(&self) -> FlagsView {
        FlagsView {
            entries: Seq::new(
                self.flags@.len(),
                |i: int| (self.flags@[i].0, token_view(self.flags@[i].1)),
            ),
            strict: self.strict,
        }
    }
}

/// A value that was looked up, taken by its view, or the error's view.
pub open spec fn found(result: Result<Option<&ValueToken>, OptionsError>) -> Result<
    Option<Seq<u8>>,
    OptionsErrorView,
> {
    match result {
        Ok(Some(token)) => Ok(Some(token@)),
        Ok(None) => Ok(None),
        Err(error) => Err(error@),
    }
}

impl MatchedFlags {
    /// Whether `flag` was given as a switch.
    pub fn has(&self, flag: Flag) -> (result: Result<bool, OptionsError>)
        ensures
            crate::error::outcome(result) == self@.has(flag),
    {
        let ghost entries = self@.entries;
        let mut count: usize = 0;
        let mut i: usize = 0;
        while i < self.flags.len()
            invariant
                i <= self.flags@.len(),
                entries == self@.entries,
                count == bare_count(entries.take(i as int), flag),
                count <= i,
            decreases self.flags@.len() - i,
        {
            proof {
                assert(entries.take(i + 1).drop_last() =~= entries.take(i as int));
            }
            if self.flags[i].0 == flag && self.flags[i].1.is_none() {
                count += 1;
            }
            i += 1;
        }
        proof {
            assert(entries.take(i as int) =~= entries);
        }
        if self.strict && count >= 2 {
            Err(OptionsError::Duplicate(flag, flag))
        } else {
            Ok(count >= 1)
        }
    }

    /// The value that `flag` was given, if any.
    pub fn get(&self, flag: Flag) -> (result: Result<Option<&ValueToken>, OptionsError>)
        ensures
            found(result) == self@.get(flag),
    {
        let ghost entries = self@.entries;
        let mut count: usize = 0;
        let mut last: Option<&ValueToken> = None;
        let mut i: usize = 0;
        while i < self.flags.len()
            invariant
                i <= self.flags@.len(),
                entries == self@.entries,
                count == valued_count(entries.take(i as int), flag),
                count <= i,
                (match last {
                    Some(token) => Some(token@),
                    None => None,
                }) == last_value(entries.take(i as int), flag),
            decreases self.flags@.len() - i,
        {
            proof {
                assert(entries.take(i + 1).drop_last() =~= entries.take(i as int));
            }
            if self.flags[i].0 == flag {
                match &self.flags[i].1 {
                    Some(token) => {
                        count += 1;
                        last = Some(token);
                    },
                    None => {},
                }
            }
            i += 1;
        }
        proof {
            assert(entries.take(i as int) =~= entries);
        }
        if self.strict && count >= 2 {
            Err(OptionsError::Duplicate(flag, flag))
        } else {
            Ok(last)
        }
    }
}

} // verus!
