//! Frame layout for the account panel and countdown gauge: which text, color,
//! and blink each row gets for a given position inside the code epoch, and
//! which key ends the viewer. Painting the plan to a terminal is left to the
//! binary around the library.

use vstd::prelude::*;
use vstd::string::StrSliceExecFns;

use crate::otp::EPOCH_MILLIS;
use crate::settings::{Account, TermColor, Theme};

verus! {

/// Remaining-time thresholds of the urgency tiers, in milliseconds. Each
/// bound corresponds to a whole percentage of the thirty-second epoch:
/// three hundred milliseconds make one percent.
pub const TIER_TOP_MILLIS: u64 = 1500;

/// Below this remaining time the second tier holds: ten percent of the epoch.
pub const TIER_SECOND_MILLIS: u64 = 3000;

/// Below this remaining time the third tier holds: twenty percent of the
/// epoch.
pub const TIER_THIRD_MILLIS: u64 = 6000;

/// How a code is blinked, by urgency.
#[derive(Clone, Copy, Debug, PartialEq, Eq, Structural)]
pub enum Blink {
    Rapid,
    Slow,
    /// No blinking; the modifier that hides the cue altogether.
    Hidden,
}

/// The color a code is painted with, given the milliseconds the epoch still
/// has to run: urgent red under five percent, light red under ten, yellow
/// under twenty, and the theme's code color above.
pub open spec fn code_color_spec(remaining_ms: u64, theme_code: TermColor) -> TermColor {
    if remaining_ms < TIER_TOP_MILLIS {
        TermColor::Red
    } else if remaining_ms < TIER_SECOND_MILLIS {
        TermColor::LightRed
    } else if remaining_ms < TIER_THIRD_MILLIS {
        TermColor::Yellow
    } else {
        theme_code
    }
}

/// The blink a code gets: rapid under ten percent remaining, slow under
/// twenty, hidden above.
pub open spec fn code_blink_spec(remaining_ms: u64) -> Blink {
    if remaining_ms < TIER_SECOND_MILLIS {
        Blink::Rapid
    } else if remaining_ms < TIER_THIRD_MILLIS {
        Blink::Slow
    } else {
        Blink::Hidden
    }
}

/// The color of the countdown gauge: the same tiers as the code color, with
/// green in place of the theme color at the calm top tier.
pub open spec fn gauge_color_spec(remaining_ms: u64) -> TermColor {
    if remaining_ms < TIER_TOP_MILLIS {
        TermColor::Red
    } else if remaining_ms < TIER_SECOND_MILLIS {
        TermColor::LightRed
    } else if remaining_ms < TIER_THIRD_MILLIS {
        TermColor::Yellow
    } else {
        TermColor::Green
    }
}

/// The color a code is painted with at this point of the epoch.
pub fn code_color(remaining_ms: u64, theme_code: TermColor) -> (r: TermColor)
    ensures
        r == code_color_spec(remaining_ms, theme_code),
{
    if remaining_ms < TIER_TOP_MILLIS {
        TermColor::Red
    } else if remaining_ms < TIER_SECOND_MILLIS {
        TermColor::LightRed
    } else if remaining_ms < TIER_THIRD_MILLIS {
        TermColor::Yellow
    } else {
        theme_code
    }
}

/// The blink a code gets at this point of the epoch.
pub fn code_blink(remaining_ms: u64) -> (r: Blink)
    ensures
        r == code_blink_spec(remaining_ms),
{
    if remaining_ms < TIER_SECOND_MILLIS {
        Blink::Rapid
    } else if remaining_ms < TIER_THIRD_MILLIS {
        Blink::Slow
    } else {
        Blink::Hidden
    }
}

/// The color of the countdown gauge at this point of the epoch.
pub fn gauge_color(remaining_ms: u64) -> (r: TermColor)
    ensures
        r == gauge_color_spec(remaining_ms),
{
    if remaining_ms < TIER_TOP_MILLIS {
        TermColor::Red
    } else if remaining_ms < TIER_SECOND_MILLIS {
        TermColor::LightRed
    } else if remaining_ms < TIER_THIRD_MILLIS {
        TermColor::Yellow
    } else {
        TermColor::Green
    }
}

/// The percentage of the epoch that remains, scaled: three hundred
/// milliseconds make one percent, so the value in percent is the remaining
/// milliseconds over three hundred. Inside one epoch it lies in the
/// half-open band above zero, and it falls strictly as the elapsed
/// milliseconds grow.
pub proof fn lemma_percent_remaining(elapsed_a: u64, elapsed_b: u64)
    requires
        elapsed_a < EPOCH_MILLIS,
        elapsed_b < EPOCH_MILLIS,
        elapsed_a < elapsed_b,
    ensures
        0 < EPOCH_MILLIS - elapsed_a <= EPOCH_MILLIS,
        0 < EPOCH_MILLIS - elapsed_b <= EPOCH_MILLIS,
        EPOCH_MILLIS - elapsed_b < EPOCH_MILLIS - elapsed_a,
{
}

/// A key press, as far as the viewer tells them apart: a printable character,
/// the escape key, or anything else.
#[derive(Clone, Copy, Debug, PartialEq, Eq, Structural)]
pub enum KeyPress {
    Char(char),
    Esc,
    Other,
}

/// Whether a key press ends the viewer: the letter `q` or the escape key
/// does, and nothing else.
pub fn should_quit(key: &KeyPress) -> (r: bool)
    ensures
        r <==> (*key == KeyPress::Char('q') || *key == KeyPress::Esc),
{
    match key {
        KeyPress::Char(c) => *c == 'q',
        KeyPress::Esc => true,
        KeyPress::Other => false,
    }
}

/// One row of the account panel: the account name in the theme's name color
/// and bold, a gap of spaces that aligns the codes, and the code styled by
/// urgency.
pub struct RowPlan {
    /// The account name, uppercased.
    pub name_text: String,
    pub name_color: TermColor,
    /// Spaces between name and code.
    pub gap: usize,
    pub code_text: String,
    pub code_color: TermColor,
    pub code_blink: Blink,
}

/// One frame of the viewer: blank rows that center the panel vertically, one
/// row per account, and the countdown gauge, whose fill ratio is the
/// remaining milliseconds over the epoch length.
pub struct FramePlan {
    /// Blank rows above the first account.
    pub top_padding: usize,
    pub rows: Vec<RowPlan>,
    pub gauge_color: TermColor,
    /// Milliseconds the epoch still has to run; the gauge fill ratio is this
    /// over the epoch length.
    pub remaining_ms: u64,
}

/// What `str::to_uppercase` yields: the Unicode uppercase form of the text,
/// a function of its characters alone.
pub uninterp spec fn upper_of(s: Seq<char>) -> Seq<char>;

/// Relies on `str::to_uppercase`: the result depends on the characters of the
/// input alone.
#[verifier::external_body]
fn to_upper(s: &String) -> (r: String)
    ensures
        r@ == upper_of(s@),
{
    s.to_uppercase()
}

/// The width one account takes in the panel: its name's characters plus its
/// code's digits.
pub open spec fn label_width(entry: (String, Account)) -> int {
    entry.0@.len() + entry.1.length
}

/// The widest label over all accounts, or zero where there is none; computed
/// once per run, since the account set does not change while the viewer runs.
pub fn max_label_width(accounts: &Vec<(String, Account)>) -> (r: usize)
    requires
        forall|i: int|
            0 <= i < accounts@.len() ==> #[trigger] label_width(accounts@[i]) <= usize::MAX,
    ensures
        forall|i: int| 0 <= i < accounts@.len() ==> #[trigger] label_width(accounts@[i]) <= r,
        accounts@.len() == 0 ==> r == 0,
        accounts@.len() > 0 ==> exists|i: int|
            0 <= i < accounts@.len() && #[trigger] label_width(accounts@[i]) == r,
{
    let n = accounts.len();
    let mut widest: usize = 0;
    let mut i: usize = 0;
    while i < n
        invariant
            n == accounts@.len(),
            i <= n,
            forall|j: int|
                0 <= j < accounts@.len() ==> #[trigger] label_width(accounts@[j]) <= usize::MAX,
            forall|j: int| 0 <= j < i ==> #[trigger] label_width(accounts@[j]) <= widest,
            i == 0 ==> widest == 0,
            i > 0 ==> exists|j: int|
                0 <= j < i && #[trigger] label_width(accounts@[j]) == widest,
        decreases n - i,
    {
        let entry = &accounts[i];
        proof {
            assert(label_width(accounts@[i as int]) <= usize::MAX);
        }
        let width = entry.0.as_str().unicode_len() + entry.1.length as usize;
        if width > widest {
            widest = width;
        }
        i += 1;
    }
    widest
}

/// The blank rows that center the account list: where the panel offers more
/// than two rows and its upper half outnumbers the accounts, the difference;
/// nowhere else.
pub open spec fn top_padding_spec(row_count: int, account_count: int) -> int {
    if row_count > 2 && row_count / 2 > account_count {
        row_count / 2 - account_count
    } else {
        0
    }
}

/// The row the panel owes one account at this point of the epoch.
pub open spec fn row_plan_spec(
    entry: (String, Account),
    theme: Theme,
    remaining_ms: u64,
    width: int,
    row: RowPlan,
) -> bool {
    &&& row.name_text@ == upper_of(entry.0@)
    &&& row.name_color == theme.name
    &&& row.gap == width - label_width(entry) + 1
    &&& row.code_text@ == entry.1.code@
    &&& row.code_color == code_color_spec(remaining_ms, theme.code)
    &&& row.code_blink == code_blink_spec(remaining_ms)
}

/// Lays out one frame: a row per account, names uppercased and padded so the
/// codes align one space past the widest label, colors and blink drawn from
/// the urgency tiers, the list centered vertically in the panel, and the
/// gauge colored and filled by the time the epoch still has to run.
pub fn build_frame(
    accounts: &Vec<(String, Account)>,
    theme: &Theme,
    remaining_ms: u64,
    width: usize,
    row_count: usize,
) -> (r: FramePlan)
    requires
        width < usize::MAX,
        forall|i: int| 0 <= i < accounts@.len() ==> #[trigger] label_width(accounts@[i]) <= width,
    ensures
        r.top_padding == top_padding_spec(row_count as int, accounts@.len() as int),
        r.rows@.len() == accounts@.len(),
        forall|i: int|
            0 <= i < accounts@.len() ==> row_plan_spec(
                accounts@[i],
                *theme,
                remaining_ms,
                width as int,
                #[trigger] r.rows@[i],
            ),
        r.gauge_color == gauge_color_spec(remaining_ms),
        r.remaining_ms == remaining_ms,
{
    let account_count = accounts.len();
    let top_padding: usize = if row_count > 2 && row_count / 2 > account_count {
        row_count / 2 - account_count
    } else {
        0
    };
    let mut rows: Vec<RowPlan> = Vec::new();
    let mut i: usize = 0;
    while i < account_count
        invariant
            account_count == accounts@.len(),
            i <= account_count,
            width < usize::MAX,
            forall|j: int|
                0 <= j < accounts@.len() ==> #[trigger] label_width(accounts@[j]) <= width,
            rows@.len() == i,
            forall|j: int|
                0 <= j < i ==> row_plan_spec(
                    accounts@[j],
                    *theme,
                    remaining_ms,
                    width as int,
                    #[trigger] rows@[j],
                ),
        decreases account_count - i,
    {
        let entry = &accounts[i];
        proof {
            assert(label_width(accounts@[i as int]) <= width);
        }
        let label = entry.0.as_str().unicode_len() + entry.1.length as usize;
        let row = RowPlan {
            name_text: to_upper(&entry.0),
            name_color: theme.name,
            gap: width - label + 1,
            code_text: entry.1.code.as_str().to_owned(),
            code_color: code_color(remaining_ms, theme.code),
            code_blink: code_blink(remaining_ms),
        };
        rows.push(row);
        i += 1;
    }
    FramePlan { top_padding, rows, gauge_color: gauge_color(remaining_ms), remaining_ms }
}

} // verus!
