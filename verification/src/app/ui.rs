//! What the screen shows, as plain values: the sizes added up, the rows of
//! the help panel, and whether the terminal is large enough.

use vstd::prelude::*;
use vstd::string::StringExecFns;

use crate::app::actions::{action_name, bound_keys, Action, Actions};
use crate::app::AppState;
use crate::utils::key_display::{key_event_text, KeyEventWrapper};
use crate::utils::statefull_list::ListView;
use crate::utils::text::{decimal, push_decimal};
use crate::utils::walker::Entry;

verus! {

/// The width below which the terminal is too small.
pub const MIN_WIDTH: u16 = 52;

/// The height below which the terminal is too small.
pub const MIN_HEIGHT: u16 = 12;

/// What is said of a terminal that is too narrow.
pub open spec fn width_error(width: u16) -> Seq<char> {
    "Require width >= 52, (got "@ + decimal(width as nat) + ")"@
}

/// What is said of a terminal that is wide enough and too low.
pub open spec fn height_error(height: u16) -> Seq<char> {
    "Require height >= 28, (got "@ + decimal(height as nat) + ")"@
}

/// Checks that the terminal is large enough to draw on.
pub fn check_size(width: u16, height: u16) -> (result: Result<(), String>)
    ensures
        result is Ok <==> width >= MIN_WIDTH && height >= MIN_HEIGHT,
        result matches Err(error) ==> error@ == (if width < MIN_WIDTH {
            width_error(width)
        } else {
            height_error(height)
        }),
{
    if width < MIN_WIDTH {
        let mut error = String::from_str("Require width >= 52, (got ");
        push_decimal(&mut error, width as u64);
        error.append(")");
        return Err(error);
    }
    if height < MIN_HEIGHT {
        let mut error = String::from_str("Require height >= 28, (got ");
        push_decimal(&mut error, height as u64);
        error.append(")");
        return Err(error);
    }
    Ok(())
}

/// The sizes of the first `upto` entries, added up.
pub open spec fn size_sum(rows: Seq<Entry>, upto: int) -> nat
    decreases upto,
{
    if upto <= 0 {
        0
    } else {
        size_sum(rows, upto - 1) + rows[upto - 1].size as nat
    }
}

/// The sizes of the picked ones among the first `upto` entries, added up.
pub open spec fn picked_size_sum(entries: ListView<Entry>, upto: int) -> nat
    decreases upto,
{
    if upto <= 0 {
        0
    } else {
        picked_size_sum(entries, upto - 1) + if entries.picked.contains((upto - 1) as usize) {
            entries.rows[upto - 1].size as nat
        } else {
            0nat
        }
    }
}

/// The space that the listed entries take, and how much of it the picked
/// ones take, in bytes.
#[derive(Clone, Copy, Debug, PartialEq, Eq)]
pub struct Infos {
    pub total_space: u128,
    pub total_selected_space: u128,
}

/// Adds up the sizes of the listed entries, and those of the picked ones.
pub fn app_infos(state: &AppState) -> (infos: Infos)
    ensures
        infos.total_space == size_sum(state@.entries.rows, state@.entries.rows.len() as int),
        infos.total_selected_space == picked_size_sum(state@.entries, state@.entries.rows.len() as int),
        infos.total_selected_space <= infos.total_space,
{
    let list = state.entries();
    let items = list.items();
    let mut total: u128 = 0;
    let mut picked: u128 = 0;
    let mut row: usize = 0;
    while row < items.len()
        invariant
            row <= items.len(),
            items@ == list@.rows,
            total == size_sum(list@.rows, row as int),
            picked == picked_size_sum(list@, row as int),
            picked <= total <= row * 0x1_0000_0000_0000_0000,
        decreases items.len() - row,
    {
        let size = items[row].size;
        assert((row + 1) * 0x1_0000_0000_0000_0000 <= u128::MAX) by (nonlinear_arith)
            requires
                row + 1 <= usize::MAX <= u64::MAX,
        ;
        assert((row + 1) * 0x1_0000_0000_0000_0000 == row * 0x1_0000_0000_0000_0000
            + 0x1_0000_0000_0000_0000) by (nonlinear_arith);
        total += size as u128;
        if list.is_picked(row) {
            picked += size as u128;
        }
        row += 1;
    }
    Infos { total_space: total, total_selected_space: picked }
}

/// The rows of the help panel for the first `upto` chords of a command:
/// each chord as text, with the name of the command beside the first.
pub open spec fn help_rows_of(action: Action, upto: int) -> Seq<(Seq<char>, Seq<char>)>
    decreases upto,
{
    if upto <= 0 {
        Seq::empty()
    } else {
        help_rows_of(action, upto - 1).push(
            (
                key_event_text(bound_keys(action)[upto - 1]),
                if upto == 1 {
                    action_name(action)
                } else {
                    Seq::empty()
                },
            ),
        )
    }
}

/// The rows of the help panel: those of each command, in the order of the
/// commands.
pub open spec fn help_rows(actions: Seq<Action>) -> Seq<(Seq<char>, Seq<char>)>
    decreases actions.len(),
{
    if actions.len() == 0 {
        Seq::empty()
    } else {
        help_rows(actions.drop_last()) + help_rows_of(
            actions.last(),
            bound_keys(actions.last()).len() as int,
        )
    }
}

/// The texts of the rows of a help panel.
pub open spec fn row_texts(rows: Seq<(String, String)>) -> Seq<(Seq<char>, Seq<char>)> {
    rows.map_values(|row: (String, String)| (row.0@, row.1@))
}

/// The rows of the help panel: every chord of every command, with the
/// name of the command beside the first of its chords.
pub fn draw_help(actions: &Actions) -> (rows: Vec<(String, String)>)
    ensures
        row_texts(rows@) == help_rows(actions@),
{
    let list = actions.slice();
    let mut rows: Vec<(String, String)> = Vec::new();
    let mut at: usize = 0;
    assert(row_texts(rows@) =~= help_rows(list@.take(0)));
    while at < list.len()
        invariant
            at <= list.len(),
            list@ == actions@,
            row_texts(rows@) == help_rows(list@.take(at as int)),
        decreases list.len() - at,
    {
        let action = list[at];
        let keys = action.keys();
        let ghost before = row_texts(rows@);
        let mut first = true;
        let mut k: usize = 0;
        assert(row_texts(rows@) =~= before + help_rows_of(action, 0));
        while k < keys.len()
            invariant
                k <= keys.len(),
                keys@ == bound_keys(action),
                first == (k == 0),
                row_texts(rows@) == before + help_rows_of(action, k as int),
            decreases keys.len() - k,
        {
            let help = if first {
                first = false;
                action.to_string()
            } else {
                String::new()
            };
            let ghost earlier = rows@;
            rows.push((KeyEventWrapper(keys[k]).to_string(), help));
            assert(row_texts(rows@) =~= row_texts(earlier).push(
                (key_event_text(keys@[k as int]), help@),
            ));
            assert(row_texts(rows@) =~= before + help_rows_of(action, k + 1));
            k += 1;
        }
        proof {
            assert(list@.take(at + 1).drop_last() =~= list@.take(at as int));
        }
        at += 1;
    }
    assert(list@.take(list.len() as int) =~= list@);
    rows
}

} // verus!
