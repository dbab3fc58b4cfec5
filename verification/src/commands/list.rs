//! `/list`: lists the channels watched in the guild, with their targets and since when.

use vstd::prelude::*;
use crate::commands::listen::unwrap_none_message;
use crate::ids::{db_key, stored_key};
use crate::protocol::{
    abort_plain, finish_err, finish_ok, joined, opt_text, reply, reply_text, Action, ActionView,
    ChannelRow, DbRequest, Outcome,
};
use crate::text::{decimal, decimal_char, decimal_text, decimal_text_chars, decimal_text_injective};

verus! {

/// The UTC date and time of a Unix timestamp in seconds, as chrono writes it with the
/// format `%Y-%m-%d %H:%M:%S`; `None` for a timestamp outside chrono's range of dates.
pub uninterp spec fn utc_date_text(secs: i64, nanos: u32, pattern: Seq<char>) -> Option<Seq<char>>;

/// The strftime pattern of the listing's dates.
pub open spec fn listing_pattern() -> Seq<char> {
    "%Y-%m-%d %H:%M:%S"@
}

/// The date text of a row's timestamp in the listing: whole seconds, in `listing_pattern`.
pub open spec fn listing_date(secs: i64) -> Option<Seq<char>> {
    utc_date_text(secs, 0, listing_pattern())
}

/// Timestamps well inside chrono's range of dates (years -262143 to 262142, that is
/// -8334601228800 to 8210266876799 seconds).
pub open spec fn in_date_range(secs: i64) -> bool {
    -8_000_000_000_000 <= secs <= 8_000_000_000_000
}

/// Calls `chrono::DateTime::<Utc>::from_timestamp(secs, nanos)` and formats the date it
/// gives with the strftime `pattern`. The contract claims that the result is `None` exactly
/// where chrono has no date for `secs` and `nanos`, that there is a date for every timestamp
/// in `in_date_range`, and that the text is a function of the three arguments alone; the
/// text itself is left unsaid (it is chrono's calendar arithmetic and formatting). The
/// pattern is held to the one the listing uses, which chrono always formats without error.
#[verifier::external_body]
fn utc_date(secs: i64, nanos: u32, pattern: &str) -> (text: Option<String>)
    requires
        nanos < 1_000_000_000,
        pattern@ == listing_pattern(),
    ensures
        opt_text(text) == utc_date_text(secs, nanos, pattern@),
        in_date_range(secs) ==> text is Some,
{
    match chrono::DateTime::<chrono::Utc>::from_timestamp(secs, nanos) {
        Some(date) => Some(date.format(pattern).to_string()),
        None => None,
    }
}

/// The line of one watched channel.
pub open spec fn listing_line(row: ChannelRow, date: Seq<char>) -> Seq<char> {
    "<#"@ + decimal_text(row.channel as int) + "> -> <#"@ + decimal_text(row.target as int)
        + "> (since "@ + date + ")\n"@
}

/// The lines of all rows, in their order; `None` when a row's timestamp has no date.
pub open spec fn listing(rows: Seq<ChannelRow>) -> Option<Seq<char>>
    decreases rows.len(),
{
    if rows.len() == 0 {
        Some(Seq::<char>::empty())
    } else {
        match (listing(rows.drop_last()), listing_date(rows.last().created_at)) {
            (Some(text), Some(date)) => Some(text + listing_line(rows.last(), date)),
            _ => None,
        }
    }
}

proof fn lemma_listing_none_extends(rows: Seq<ChannelRow>, j: int)
    requires
        0 <= j <= rows.len(),
        listing(rows.take(j)) is None,
    ensures
        listing(rows) is None,
    decreases rows.len() - j,
{
    if j < rows.len() {
        assert(rows.take(j + 1).drop_last() =~= rows.take(j));
        lemma_listing_none_extends(rows, j + 1);
    } else {
        assert(rows.take(j) =~= rows);
    }
}

/// The line of one watched channel, given the date text of its timestamp.
pub fn listing_line_text(row: ChannelRow, date: &String) -> (line: String)
    ensures
        line@ == listing_line(row, date@),
{
    let mut line = joined("<#", decimal(row.channel).as_str());
    line.append("> -> <#");
    line.append(decimal(row.target).as_str());
    line.append("> (since ");
    line.append(date.as_str());
    line.append(")\n");
    line
}

/// The listing of `rows`: one line per row, in order; `None` when a row's timestamp has
/// no date.
pub fn list_lines(rows: &Vec<ChannelRow>) -> (text: Option<String>)
    ensures
        opt_text(text) == listing(rows@),
        all_in_date_range(rows@) ==> text is Some,
{
    let mut text = String::new();
    let mut i: usize = 0;
    while i < rows.len()
        invariant
            i <= rows.len(),
            listing(rows@.take(i as int)) == Some(text@),
        decreases rows.len() - i,
    {
        let row = rows[i];
        assert(rows@.take(i + 1).drop_last() =~= rows@.take(i as int));
        match utc_date(row.created_at, 0, "%Y-%m-%d %H:%M:%S") {
            Some(date) => {
                text.append(listing_line_text(row, &date).as_str());
            },
            None => {
                proof {
                    lemma_listing_none_extends(rows@, i + 1);
                    assert(rows@[i as int] == row);
                }
                return None;
            },
        }
        i = i + 1;
    }
    assert(rows@.take(i as int) =~= rows@);
    Some(text)
}

/// The command's context.
pub struct ListInput {
    /// The guild the command runs in (always present for a guild-only command).
    pub guild: Option<u64>,
}

/// Where a run of `list` stands: the action whose outcome it awaits.
#[derive(Clone, Copy)]
pub enum ListStage {
    Start,
    Listed,
    Answered,
    Over,
}

pub open spec fn list_rank(stage: ListStage) -> nat {
    match stage {
        ListStage::Start => 3,
        ListStage::Listed => 2,
        ListStage::Answered => 1,
        ListStage::Over => 0,
    }
}

pub open spec fn list_awaits(stage: ListStage, outcome: Outcome) -> bool {
    match stage {
        ListStage::Start => outcome is Begin,
        ListStage::Listed => outcome is Rows,
        ListStage::Answered => outcome is Sent,
        ListStage::Over => false,
    }
}

/// One step of the command.
pub open spec fn list_next(input: ListInput, stage: ListStage, outcome: Outcome) -> (ListStage, ActionView) {
    let over = ListStage::Over;
    match stage {
        ListStage::Start => match input.guild {
            None => (over, ActionView::Abort { message: unwrap_none_message(), detail: None }),
            Some(g) => (
                ListStage::Listed,
                ActionView::Query(DbRequest::ListChannels { guild: stored_key(g) as i64 }),
            ),
        },
        ListStage::Listed => match outcome {
            Outcome::Rows(Ok(rows)) => if rows@.len() == 0 {
                (
                    ListStage::Answered,
                    ActionView::Reply {
                        content: "There are no channels being monitored."@,
                        ephemeral: true,
                    },
                )
            } else {
                match listing(rows@) {
                    Some(text) => (ListStage::Answered, ActionView::Reply { content: text, ephemeral: true }),
                    None => (over, ActionView::Abort { message: unwrap_none_message(), detail: None }),
                }
            },
            Outcome::Rows(Err(f)) => (
                ListStage::Answered,
                ActionView::Reply { content: "Failed to fetch channels: "@ + f.text@, ephemeral: true },
            ),
            _ => (over, ActionView::Finish { error: None }),
        },
        _ => match outcome {
            Outcome::Sent(Err(f)) => (over, ActionView::Finish { error: Some(f.text@) }),
            _ => (over, ActionView::Finish { error: None }),
        },
    }
}

/// The `/list` command (guild only): `stage` is where the run stands and `outcome` what
/// the action it asked for last gave back (`Begin` on the first call, with stage `Start`).
pub fn list(input: &ListInput, stage: ListStage, outcome: Outcome) -> (res: (ListStage, Action))
    requires
        list_awaits(stage, outcome),
    ensures
        (res.0, res.1@) == list_next(*input, stage, outcome),
        res.1@.ends() <==> res.0 is Over,
        list_rank(res.0) < list_rank(stage),
        (stage is Listed && (outcome matches Outcome::Rows(Ok(rows)) && all_in_date_range(rows@)))
            ==> res.1 is Reply,
{
    match stage {
        ListStage::Start => match input.guild {
            None => (ListStage::Over, abort_plain("called `Option::unwrap()` on a `None` value")),
            Some(g) => (ListStage::Listed, Action::Query(DbRequest::ListChannels { guild: db_key(g) })),
        },
        ListStage::Listed => match outcome {
            Outcome::Rows(Ok(rows)) => if rows.len() == 0 {
                (ListStage::Answered, reply_text("There are no channels being monitored.", true))
            } else {
                match list_lines(&rows) {
                    Some(text) => (ListStage::Answered, reply(text, true)),
                    None => (
                        ListStage::Over,
                        abort_plain("called `Option::unwrap()` on a `None` value"),
                    ),
                }
            },
            Outcome::Rows(Err(f)) => (
                ListStage::Answered,
                reply(joined("Failed to fetch channels: ", f.text.as_str()), true),
            ),
            _ => (ListStage::Over, finish_ok()),
        },
        _ => match outcome {
            Outcome::Sent(Err(f)) => (ListStage::Over, finish_err(&f)),
            _ => (ListStage::Over, finish_ok()),
        },
    }
}

/// Every timestamp of the rows has a date.
pub open spec fn all_dated(rows: Seq<ChannelRow>) -> bool {
    forall|i: int| 0 <= i < rows.len() ==> (#[trigger] listing_date(rows[i].created_at)) is Some
}

/// The listing exists exactly when every row's timestamp has a date; the command panics
/// otherwise.
pub proof fn listing_exists_iff_all_dated(rows: Seq<ChannelRow>)
    ensures
        listing(rows) is Some <==> all_dated(rows),
    decreases rows.len(),
{
    if rows.len() > 0 {
        listing_exists_iff_all_dated(rows.drop_last());
        if all_dated(rows) {
            assert forall|i: int| 0 <= i < rows.drop_last().len() implies (#[trigger] listing_date(
                rows.drop_last()[i].created_at,
            )) is Some by {
                assert(rows.drop_last()[i] == rows[i]);
            }
            assert(listing_date(rows[rows.len() - 1].created_at) is Some);
        }
        if listing(rows) is Some {
            assert forall|i: int| 0 <= i < rows.len() implies (#[trigger] listing_date(
                rows[i].created_at,
            )) is Some by {
                if i < rows.len() - 1 {
                    assert(rows.drop_last()[i] == rows[i]);
                    assert(listing_date(rows.drop_last()[i].created_at) is Some);
                }
            }
        }
    }
}

/// The listing of two runs of rows is the listing of the first followed by that of the
/// second: one line per row, in the rows' order.
pub proof fn listing_of_concatenation(first: Seq<ChannelRow>, second: Seq<ChannelRow>)
    requires
        all_dated(first),
        all_dated(second),
    ensures
        listing(first + second) == Some(listing(first).unwrap() + listing(second).unwrap()),
    decreases second.len(),
{
    listing_exists_iff_all_dated(first);
    listing_exists_iff_all_dated(second);
    if second.len() == 0 {
        assert(first + second =~= first);
        assert(listing(first).unwrap() + listing(second).unwrap() =~= listing(first).unwrap());
    } else {
        let rest = second.drop_last();
        assert forall|i: int| 0 <= i < rest.len() implies (#[trigger] listing_date(rest[i].created_at)) is Some by {
            assert(rest[i] == second[i]);
        }
        listing_of_concatenation(first, rest);
        assert((first + second).drop_last() =~= first + rest);
        assert((first + second).last() == second.last());
        assert(listing_date(second[second.len() - 1].created_at) is Some);
        listing_exists_iff_all_dated(rest);
        assert(listing(first).unwrap() + listing(rest).unwrap() + listing_line(
            second.last(),
            listing_date(second.last().created_at).unwrap(),
        ) =~= listing(first).unwrap() + (listing(rest).unwrap() + listing_line(
            second.last(),
            listing_date(second.last().created_at).unwrap(),
        )));
    }
}

/// Every row's timestamp lies in `in_date_range`.
pub open spec fn all_in_date_range(rows: Seq<ChannelRow>) -> bool {
    forall|i: int| 0 <= i < rows.len() ==> in_date_range(#[trigger] rows[i].created_at)
}

/// A text of digits and minus signs between the same prefix and two rests that both start
/// with `>` is the same text, and so are the rests.
proof fn lemma_split_at_closing(p: Seq<char>, a1: Seq<char>, r1: Seq<char>, a2: Seq<char>, r2: Seq<char>)
    requires
        p + a1 + r1 == p + a2 + r2,
        forall|i: int| 0 <= i < a1.len() ==> decimal_char(#[trigger] a1[i]),
        forall|i: int| 0 <= i < a2.len() ==> decimal_char(#[trigger] a2[i]),
        r1.len() > 0 && r1[0] == '>',
        r2.len() > 0 && r2[0] == '>',
    ensures
        a1 == a2,
        r1 == r2,
{
    let s = p + a1 + r1;
    let t = p + a2 + r2;
    if a1.len() < a2.len() {
        assert(s[(p.len() + a1.len()) as int] == r1[0]);
        assert(t[(p.len() + a1.len()) as int] == a2[a1.len() as int]);
        assert(decimal_char(a2[a1.len() as int]));
    } else if a2.len() < a1.len() {
        assert(t[(p.len() + a2.len()) as int] == r2[0]);
        assert(s[(p.len() + a2.len()) as int] == a1[a2.len() as int]);
        assert(decimal_char(a1[a2.len() as int]));
    } else {
        assert(a1 =~= s.subrange(p.len() as int, (p.len() + a1.len()) as int));
        assert(a2 =~= t.subrange(p.len() as int, (p.len() + a2.len()) as int));
        assert(r1 =~= s.skip((p.len() + a1.len()) as int));
        assert(r2 =~= t.skip((p.len() + a2.len()) as int));
    }
}

/// The line of a row tells the row apart: two rows with the same line have the same
/// channel key, the same target key and the same date, for every 64-bit key.
pub proof fn listing_lines_tell_rows_apart(r1: ChannelRow, d1: Seq<char>, r2: ChannelRow, d2: Seq<char>)
    requires
        listing_line(r1, d1) == listing_line(r2, d2),
    ensures
        r1.channel == r2.channel,
        r1.target == r2.target,
        d1 == d2,
{
    reveal_strlit("<#");
    reveal_strlit("> -> <#");
    reveal_strlit("> (since ");
    reveal_strlit(")\n");
    let a1 = decimal_text(r1.channel as int);
    let a2 = decimal_text(r2.channel as int);
    let b1 = decimal_text(r1.target as int);
    let b2 = decimal_text(r2.target as int);
    decimal_text_chars(r1.channel as int);
    decimal_text_chars(r2.channel as int);
    decimal_text_chars(r1.target as int);
    decimal_text_chars(r2.target as int);
    let x = "> -> <#"@;
    let y = "> (since "@;
    let z = ")\n"@;
    let rest1 = x + b1 + (y + d1 + z);
    let rest2 = x + b2 + (y + d2 + z);
    assert(listing_line(r1, d1) =~= "<#"@ + a1 + rest1);
    assert(listing_line(r2, d2) =~= "<#"@ + a2 + rest2);
    assert(rest1[0] == '>');
    assert(rest2[0] == '>');
    lemma_split_at_closing("<#"@, a1, rest1, a2, rest2);
    decimal_text_injective(r1.channel as int, r2.channel as int);
    assert((y + d1 + z)[0] == '>');
    assert((y + d2 + z)[0] == '>');
    lemma_split_at_closing(x, b1, y + d1 + z, b2, y + d2 + z);
    decimal_text_injective(r1.target as int, r2.target as int);
    let m1 = y + d1 + z;
    let m2 = y + d2 + z;
    assert(d1 =~= m1.subrange(y.len() as int, m1.len() - z.len()));
    assert(d2 =~= m2.subrange(y.len() as int, m2.len() - z.len()));
}

} // verus!
