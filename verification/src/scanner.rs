//! The matrix scan: debounce every position, then resolve the pressed ones
//! through the key table into the scan buffers.
//!
//! Driving rows and reading columns is the caller's business.  The scanner
//! takes the raw samples of one pass over the matrix, row by row, and does
//! everything that follows from them.
//!
//! The samples, the key table and the filters are arrays of `R` rows by `C`
//! columns.  The dimensions are part of their types, so a key table that
//! disagrees with the matrix is refused when the program is built.

use crate::buffers::{Collected, ScanBuffers, ScanError};
use crate::debounce::DebounceState;
use crate::key_table::{Event, KeyFunction, MouseButton, NO_EVENT};
use vstd::seq_lib::lemma_seq_contains_after_push;
use vstd::prelude::*;

verus! {

/// The contents after a pressed switch with function `function` has been
/// resolved.
pub open spec fn resolved(acc: Collected, function: KeyFunction, mouse_mode: bool) -> Collected {
    match function {
        KeyFunction::Nothing => acc,
        KeyFunction::Key(code) => acc.with_key(code),
        KeyFunction::Media(code) => acc.with_media(code),
        KeyFunction::MultiKey(codes) => acc.with_keys(codes@),
        KeyFunction::Dual(code, button) => if mouse_mode {
            acc.with_button(button)
        } else {
            acc.with_key(code)
        },
    }
}

/// The contents after the first `upto` columns of one row have been
/// resolved on top of `acc`.
pub open spec fn collect_row<const C: usize>(
    acc: Collected,
    functions: [KeyFunction; C],
    states: [DebounceState; C],
    mouse_mode: bool,
    upto: int,
) -> Collected
    decreases upto,
{
    if upto <= 0 {
        acc
    } else {
        let before = collect_row(acc, functions, states, mouse_mode, upto - 1);
        if states[upto - 1]@.pressed {
            resolved(before, functions[upto - 1], mouse_mode)
        } else {
            before
        }
    }
}

/// The contents after the first `upto` rows of the matrix have been
/// resolved, starting from empty buffers.
pub open spec fn collect<const R: usize, const C: usize>(
    key_table: [[KeyFunction; C]; R],
    states: [[DebounceState; C]; R],
    mouse_mode: bool,
    upto: int,
) -> Collected
    decreases upto,
{
    if upto <= 0 {
        Collected::empty()
    } else {
        collect_row(
            collect(key_table, states, mouse_mode, upto - 1),
            key_table[upto - 1],
            states[upto - 1],
            mouse_mode,
            C as int,
        )
    }
}

/// Every buffer of `later` is at least as long as that of `earlier`.
pub open spec fn covers(earlier: Collected, later: Collected) -> bool {
    &&& earlier.keys.len() <= later.keys.len()
    &&& earlier.media.len() <= later.media.len()
    &&& earlier.buttons.len() <= later.buttons.len()
}

proof fn lemma_with_keys_step(acc: Collected, codes: Seq<u8>, i: int)
    requires
        0 <= i < codes.len(),
    ensures
        acc.with_keys(codes.take(i + 1)) == acc.with_keys(codes.take(i)).with_key(codes[i]),
{
    assert(codes.take(i + 1).drop_last() =~= codes.take(i));
    assert(codes.take(i + 1).last() == codes[i]);
}

proof fn lemma_with_keys_grows(acc: Collected, codes: Seq<u8>, i: int)
    requires
        0 <= i <= codes.len(),
    ensures
        covers(acc.with_keys(codes.take(i)), acc.with_keys(codes)),
        covers(acc, acc.with_keys(codes)),
    decreases codes.len(),
{
    if codes.len() == 0 {
        assert(codes.take(i) =~= codes);
    } else if i == codes.len() {
        assert(codes.take(i) =~= codes);
        lemma_with_keys_grows(acc, codes.drop_last(), 0);
    } else {
        assert(codes.drop_last().take(i) =~= codes.take(i));
        lemma_with_keys_grows(acc, codes.drop_last(), i);
    }
}

proof fn lemma_resolved_grows(acc: Collected, function: KeyFunction, mouse_mode: bool)
    ensures
        covers(acc, resolved(acc, function, mouse_mode)),
{
    if let KeyFunction::MultiKey(codes) = function {
        lemma_with_keys_grows(acc, codes@, 0);
    }
}

proof fn lemma_collect_row_grows<const C: usize>(
    acc: Collected,
    functions: [KeyFunction; C],
    states: [DebounceState; C],
    mouse_mode: bool,
    from: int,
    upto: int,
)
    requires
        0 <= from <= upto,
    ensures
        covers(
            collect_row(acc, functions, states, mouse_mode, from),
            collect_row(acc, functions, states, mouse_mode, upto),
        ),
    decreases upto,
{
    if from < upto {
        lemma_collect_row_grows(acc, functions, states, mouse_mode, from, upto - 1);
        lemma_resolved_grows(
            collect_row(acc, functions, states, mouse_mode, upto - 1),
            functions[upto - 1],
            mouse_mode,
        );
    }
}

proof fn lemma_collect_grows<const R: usize, const C: usize>(
    key_table: [[KeyFunction; C]; R],
    states: [[DebounceState; C]; R],
    mouse_mode: bool,
    from: int,
    upto: int,
)
    requires
        0 <= from <= upto,
    ensures
        covers(
            collect(key_table, states, mouse_mode, from),
            collect(key_table, states, mouse_mode, upto),
        ),
    decreases upto,
{
    if from < upto {
        lemma_collect_grows(key_table, states, mouse_mode, from, upto - 1);
        lemma_collect_row_grows(
            collect(key_table, states, mouse_mode, upto - 1),
            key_table[upto - 1],
            states[upto - 1],
            mouse_mode,
            0,
            C as int,
        );
    }
}

/// Resolves one pressed switch into the buffers.  When a buffer overflows
/// the buffers are left empty, so that a partial result is never mistaken
/// for a complete one.
pub fn record_press(
    buffers: &mut ScanBuffers,
    function: KeyFunction,
    mouse_mode: bool,
) -> (r: Result<(), ScanError>)
    ensures
        r is Ok <==> resolved(old(buffers)@, function, mouse_mode).fits(),
        r is Ok ==> final(buffers)@ == resolved(old(buffers)@, function, mouse_mode),
        r is Err ==> final(buffers)@ == Collected::empty(),
{
    proof {
        use_type_invariant(&*buffers);
    }
    let outcome = match function {
        KeyFunction::Nothing => Ok(()),
        KeyFunction::Key(code) => buffers.insert_key(code),
        KeyFunction::Media(code) => buffers.push_consumer(code),
        KeyFunction::MultiKey(codes) => {
            let mut i: usize = 0;
            let mut outcome: Result<(), ScanError> = Ok(());
            while i < codes.len() && outcome.is_ok()
                invariant
                    i <= codes.len(),
                    outcome is Ok ==> buffers@ == old(buffers)@.with_keys(codes@.take(i as int)),
                    outcome is Ok ==> buffers@.fits(),
                    outcome is Err ==> !old(buffers)@.with_keys(codes@).fits(),
                decreases codes.len() - i, if outcome is Ok { 1int } else { 0int },
            {
                proof {
                    lemma_with_keys_step(old(buffers)@, codes@, i as int);
                    lemma_with_keys_grows(old(buffers)@, codes@, i + 1);
                }
                outcome = buffers.insert_key(codes[i]);
                if outcome.is_ok() {
                    i += 1;
                }
            }
            proof {
                assert(codes@.take(codes@.len() as int) =~= codes@);
            }
            outcome
        },
        KeyFunction::Dual(code, button) => if mouse_mode {
            buffers.insert_button(button)
        } else {
            buffers.insert_key(code)
        },
    };
    if outcome.is_err() {
        buffers.clear();
    }
    outcome
}

/// Resolves every pressed position of the matrix, row by row, into freshly
/// cleared buffers.  Fails, leaving the buffers empty, exactly when the
/// pressed positions produce more than a buffer can hold.
pub fn resolve_matrix<const R: usize, const C: usize>(
    key_table: &[[KeyFunction; C]; R],
    debounce_states: &[[DebounceState; C]; R],
    buffers: &mut ScanBuffers,
    mouse_mode: bool,
) -> (r: Result<(), ScanError>)
    ensures
        r is Ok <==> collect(*key_table, *debounce_states, mouse_mode, R as int).fits(),
        r is Ok ==> final(buffers)@ == collect(*key_table, *debounce_states, mouse_mode, R as int),
        r is Err ==> final(buffers)@ == Collected::empty(),
{
    buffers.clear();
    let mut row: usize = 0;
    while row < R
        invariant
            row <= R,
            buffers@ == collect(*key_table, *debounce_states, mouse_mode, row as int),
            buffers@.fits(),
        decreases R - row,
    {
        let mut col: usize = 0;
        while col < C
            invariant
                row < R,
                col <= C,
                buffers@ == collect_row(
                    collect(*key_table, *debounce_states, mouse_mode, row as int),
                    key_table[row as int],
                    debounce_states[row as int],
                    mouse_mode,
                    col as int,
                ),
                buffers@.fits(),
            decreases C - col,
        {
            if debounce_states[row][col].is_pressed() {
                match record_press(buffers, key_table[row][col], mouse_mode) {
                    Ok(()) => {},
                    Err(e) => {
                        proof {
                            lemma_collect_row_grows(
                                collect(*key_table, *debounce_states, mouse_mode, row as int),
                                key_table[row as int],
                                debounce_states[row as int],
                                mouse_mode,
                                col + 1,
                                C as int,
                            );
                            lemma_collect_grows(
                                *key_table,
                                *debounce_states,
                                mouse_mode,
                                row + 1,
                                R as int,
                            );
                        }
                        return Err(e);
                    },
                }
            }
            col += 1;
        }
        row += 1;
    }
    Ok(())
}

/// Number of positions among the first `upto` columns of one row whose
/// transmitted state rises with this pass of raw samples.
pub open spec fn press_edges_row<const C: usize>(
    states: [DebounceState; C],
    raw: [bool; C],
    upto: int,
) -> nat
    decreases upto,
{
    if upto <= 0 {
        0
    } else {
        press_edges_row(states, raw, upto - 1) + if states[upto - 1]@.press_edge(raw[upto - 1]) {
            1nat
        } else {
            0nat
        }
    }
}

/// Number of positions in the first `upto` rows whose transmitted state
/// rises with this pass of raw samples.
pub open spec fn press_edges<const R: usize, const C: usize>(
    states: [[DebounceState; C]; R],
    raw: [[bool; C]; R],
    upto: int,
) -> nat
    decreases upto,
{
    if upto <= 0 {
        0
    } else {
        press_edges(states, raw, upto - 1) + press_edges_row(
            states[upto - 1],
            raw[upto - 1],
            C as int,
        )
    }
}

/// A count as it is reported: exact up to `u32::MAX`, and `u32::MAX` beyond.
pub open spec fn saturated(count: nat) -> u32 {
    if count <= u32::MAX {
        count as u32
    } else {
        u32::MAX
    }
}

/// Feeds one pass of raw samples through the debounce filters, each sample
/// to the filter of its position, and returns how many switches were newly
/// pressed.
pub fn debounce_matrix<const R: usize, const C: usize>(
    raw: &[[bool; C]; R],
    debounce_states: &mut [[DebounceState; C]; R],
) -> (edges: u32)
    ensures
        forall|i: int, j: int|
            0 <= i < R && 0 <= j < C ==> #[trigger] final(debounce_states)[i][j]@ == old(
                debounce_states,
            )[i][j]@.step(raw[i][j]),
        edges == saturated(press_edges(*old(debounce_states), *raw, R as int)),
{
    let ghost before = *debounce_states;
    let mut edges: u32 = 0;
    let mut row: usize = 0;
    while row < R
        invariant
            row <= R,
            forall|i: int, j: int|
                0 <= i < row && 0 <= j < C ==> #[trigger] debounce_states[i][j]@
                    == before[i][j]@.step(raw[i][j]),
            forall|i: int| row <= i < R ==> #[trigger] debounce_states[i] == before[i],
            edges == saturated(press_edges(before, *raw, row as int)),
        decreases R - row,
    {
        let mut col: usize = 0;
        let ghost mut seen: nat = press_edges(before, *raw, row as int);
        while col < C
            invariant
                row < R,
                col <= C,
                forall|i: int, j: int|
                    0 <= i < row && 0 <= j < C ==> #[trigger] debounce_states[i][j]@
                        == before[i][j]@.step(raw[i][j]),
                forall|i: int| row < i < R ==> #[trigger] debounce_states[i] == before[i],
                forall|j: int|
                    0 <= j < col ==> #[trigger] debounce_states[row as int][j]@ == before[row as int][j]@.step(
                        raw[row as int][j],
                    ),
                forall|j: int|
                    col <= j < C ==> #[trigger] debounce_states[row as int][j] == before[row as int][j],
                seen == press_edges(before, *raw, row as int) + press_edges_row(
                    before[row as int],
                    raw[row as int],
                    col as int,
                ),
                edges == saturated(seen),
            decreases C - col,
        {
            let (_, pressed_now) = debounce_states[row][col].update_with_edge(raw[row][col]);
            if pressed_now {
                proof {
                    seen = seen + 1;
                }
                if edges < u32::MAX {
                    edges += 1;
                }
            }
            col += 1;
        }
        row += 1;
    }
    edges
}

/// One scan of the matrix.  Every filter takes the raw sample of its
/// position; then the buffers are cleared and every position whose stable
/// state is "pressed" is resolved through the key table.  Returns how many
/// switches were newly pressed.  Fails, leaving the buffers empty, exactly
/// when the pressed positions produce more than a buffer can hold; the
/// filters have taken their samples even then.
pub fn scan_keys<const R: usize, const C: usize>(
    raw: &[[bool; C]; R],
    key_table: &[[KeyFunction; C]; R],
    debounce_states: &mut [[DebounceState; C]; R],
    buffers: &mut ScanBuffers,
    mouse_mode: bool,
) -> (r: Result<u32, ScanError>)
    ensures
        forall|i: int, j: int|
            0 <= i < R && 0 <= j < C ==> #[trigger] final(debounce_states)[i][j]@ == old(
                debounce_states,
            )[i][j]@.step(raw[i][j]),
        r is Ok <==> collect(*key_table, *final(debounce_states), mouse_mode, R as int).fits(),
        r is Ok ==> final(buffers)@ == collect(
            *key_table,
            *final(debounce_states),
            mouse_mode,
            R as int,
        ),
        r matches Ok(edges) ==> edges == saturated(
            press_edges(*old(debounce_states), *raw, R as int),
        ),
        r is Err ==> final(buffers)@ == Collected::empty(),
{
    let edges: u32 = debounce_matrix(raw, debounce_states);
    match resolve_matrix(key_table, debounce_states, buffers, mouse_mode) {
        Ok(()) => Ok(edges),
        Err(e) => Err(e),
    }
}

/// Whether the switch in column `j` of a row is pressed and contributes
/// `event`.
pub open spec fn emits_in_row<const C: usize>(
    functions: [KeyFunction; C],
    states: [DebounceState; C],
    mouse_mode: bool,
    j: int,
    event: Event,
) -> bool {
    states[j]@.pressed && functions[j].emits(mouse_mode, event)
}

/// Whether the switch at row `i`, column `j` is pressed and contributes
/// `event`.
pub open spec fn emits_at<const R: usize, const C: usize>(
    key_table: [[KeyFunction; C]; R],
    states: [[DebounceState; C]; R],
    mouse_mode: bool,
    i: int,
    j: int,
    event: Event,
) -> bool {
    emits_in_row(key_table[i], states[i], mouse_mode, j, event)
}

/// Number of times `code` occurs in `codes`.
pub open spec fn occurrences(codes: Seq<u8>, code: u8) -> nat
    decreases codes.len(),
{
    if codes.len() == 0 {
        0
    } else {
        occurrences(codes.drop_last(), code) + if codes.last() == code {
            1nat
        } else {
            0nat
        }
    }
}

proof fn lemma_with_key(acc: Collected, code: u8, event: Event)
    requires
        acc.wf(),
    ensures
        acc.with_key(code).wf(),
        acc.with_key(code).holds(event) <==> acc.holds(event) || (event == Event::Key(code) && code
            != NO_EVENT),
{
    broadcast use lemma_seq_contains_after_push;

}

proof fn lemma_with_keys(acc: Collected, codes: Seq<u8>, event: Event)
    requires
        acc.wf(),
    ensures
        acc.with_keys(codes).wf(),
        acc.with_keys(codes).holds(event) <==> acc.holds(event) || (event matches Event::Key(code)
            && code != NO_EVENT && codes.contains(code)),
    decreases codes.len(),
{
    if codes.len() > 0 {
        let front = codes.drop_last();
        lemma_with_keys(acc, front, event);
        lemma_with_key(acc.with_keys(front), codes.last(), event);
        assert(codes =~= front.push(codes.last()));
        broadcast use lemma_seq_contains_after_push;

    }
}

proof fn lemma_resolved(acc: Collected, function: KeyFunction, mouse_mode: bool, event: Event)
    requires
        acc.wf(),
    ensures
        resolved(acc, function, mouse_mode).wf(),
        resolved(acc, function, mouse_mode).holds(event) <==> acc.holds(event) || function.emits(
            mouse_mode,
            event,
        ),
{
    broadcast use lemma_seq_contains_after_push;

    match function {
        KeyFunction::Key(code) => lemma_with_key(acc, code, event),
        KeyFunction::MultiKey(codes) => lemma_with_keys(acc, codes@, event),
        KeyFunction::Dual(code, _) => lemma_with_key(acc, code, event),
        _ => {},
    }
}

proof fn lemma_collect_row<const C: usize>(
    acc: Collected,
    functions: [KeyFunction; C],
    states: [DebounceState; C],
    mouse_mode: bool,
    upto: int,
    event: Event,
)
    requires
        acc.wf(),
        0 <= upto <= C,
    ensures
        collect_row(acc, functions, states, mouse_mode, upto).wf(),
        collect_row(acc, functions, states, mouse_mode, upto).holds(event) <==> acc.holds(event)
            || exists|j: int|
            0 <= j < upto && #[trigger] emits_in_row(functions, states, mouse_mode, j, event),
    decreases upto,
{
    if upto > 0 {
        lemma_collect_row(acc, functions, states, mouse_mode, upto - 1, event);
        let before = collect_row(acc, functions, states, mouse_mode, upto - 1);
        lemma_resolved(before, functions[upto - 1], mouse_mode, event);
        // the last column is itself a witness when it emits the event
        assert(emits_in_row(functions, states, mouse_mode, upto - 1, event) ==> exists|j: int|
            0 <= j < upto && #[trigger] emits_in_row(functions, states, mouse_mode, j, event));
    }
}

proof fn lemma_collect<const R: usize, const C: usize>(
    key_table: [[KeyFunction; C]; R],
    states: [[DebounceState; C]; R],
    mouse_mode: bool,
    upto: int,
    event: Event,
)
    requires
        0 <= upto <= R,
    ensures
        collect(key_table, states, mouse_mode, upto).wf(),
        collect(key_table, states, mouse_mode, upto).holds(event) <==> exists|i: int, j: int|
            0 <= i < upto && 0 <= j < C && #[trigger] emits_at(
                key_table,
                states,
                mouse_mode,
                i,
                j,
                event,
            ),
    decreases upto,
{
    if upto > 0 {
        lemma_collect(key_table, states, mouse_mode, upto - 1, event);
        let before = collect(key_table, states, mouse_mode, upto - 1);
        lemma_collect_row(
            before,
            key_table[upto - 1],
            states[upto - 1],
            mouse_mode,
            C as int,
            event,
        );
        let after = collect(key_table, states, mouse_mode, upto);
        if after.holds(event) && !before.holds(event) {
            let j = choose|j: int|
                0 <= j < C && #[trigger] emits_in_row(
                    key_table[upto - 1],
                    states[upto - 1],
                    mouse_mode,
                    j,
                    event,
                );
            assert(emits_at(key_table, states, mouse_mode, upto - 1, j, event));
        }
        if exists|i: int, j: int|
            0 <= i < upto && 0 <= j < C && #[trigger] emits_at(
                key_table,
                states,
                mouse_mode,
                i,
                j,
                event,
            ) {
            let (i, j) = choose|i: int, j: int|
                0 <= i < upto && 0 <= j < C && #[trigger] emits_at(
                    key_table,
                    states,
                    mouse_mode,
                    i,
                    j,
                    event,
                );
            if i < upto - 1 {
                assert(emits_at(key_table, states, mouse_mode, i, j, event));
            } else {
                assert(emits_in_row(key_table[upto - 1], states[upto - 1], mouse_mode, j, event));
            }
        }
    }
}

proof fn lemma_occurrences(codes: Seq<u8>, code: u8)
    requires
        codes.no_duplicates(),
    ensures
        occurrences(codes, code) == if codes.contains(code) {
            1nat
        } else {
            0nat
        },
    decreases codes.len(),
{
    if codes.len() > 0 {
        let front = codes.drop_last();
        lemma_occurrences(front, code);
        assert(codes =~= front.push(codes.last()));
        broadcast use lemma_seq_contains_after_push;

        if codes.last() == code && front.contains(code) {
            let k = choose|k: int| 0 <= k < front.len() && front[k] == code;
            assert(codes[k] == codes[codes.len() - 1]);
        }
    }
}

/// What a scan reports is exactly what the pressed switches contribute: an
/// entry is in the buffers if and only if some pressed position emits it, and
/// no keyboard code or pointer button is there twice.
pub proof fn law_reported_iff_pressed<const R: usize, const C: usize>(
    key_table: [[KeyFunction; C]; R],
    states: [[DebounceState; C]; R],
    mouse_mode: bool,
    event: Event,
)
    ensures
        collect(key_table, states, mouse_mode, R as int).wf(),
        collect(key_table, states, mouse_mode, R as int).holds(event) <==> exists|i: int, j: int|
            0 <= i < R && 0 <= j < C && #[trigger] emits_at(
                key_table,
                states,
                mouse_mode,
                i,
                j,
                event,
            ),
{
    lemma_collect(key_table, states, mouse_mode, R as int, event);
}

/// A keyboard code wired as a plain key at two different positions occurs
/// exactly once among the reported keyboard codes when both switches are
/// pressed.
pub proof fn law_shared_code_reported_once<const R: usize, const C: usize>(
    key_table: [[KeyFunction; C]; R],
    states: [[DebounceState; C]; R],
    mouse_mode: bool,
    code: u8,
    first: (int, int),
    second: (int, int),
)
    requires
        code != NO_EVENT,
        first != second,
        0 <= first.0 < R && 0 <= first.1 < C,
        0 <= second.0 < R && 0 <= second.1 < C,
        key_table[first.0][first.1] == KeyFunction::Key(code),
        key_table[second.0][second.1] == KeyFunction::Key(code),
        states[first.0][first.1]@.pressed,
        states[second.0][second.1]@.pressed,
    ensures
        occurrences(collect(key_table, states, mouse_mode, R as int).keys, code) == 1,
{
    lemma_collect(key_table, states, mouse_mode, R as int, Event::Key(code));
    assert(emits_at(key_table, states, mouse_mode, first.0, first.1, Event::Key(code)));
    lemma_occurrences(collect(key_table, states, mouse_mode, R as int).keys, code);
}

/// A pressed dual-purpose key follows the pointer mode: while the mode is on
/// the scan reports its button, while the mode is off it reports its
/// keyboard code, and no scan with the mode off reports any button at all.
pub proof fn law_dual_key_follows_mode<const R: usize, const C: usize>(
    key_table: [[KeyFunction; C]; R],
    states: [[DebounceState; C]; R],
    mouse_mode: bool,
    at: (int, int),
    code: u8,
    button: MouseButton,
)
    requires
        0 <= at.0 < R && 0 <= at.1 < C,
        key_table[at.0][at.1] == KeyFunction::Dual(code, button),
        states[at.0][at.1]@.pressed,
    ensures
        mouse_mode ==> collect(key_table, states, mouse_mode, R as int).buttons.contains(button),
        !mouse_mode && code != NO_EVENT ==> collect(
            key_table,
            states,
            mouse_mode,
            R as int,
        ).keys.contains(code),
        !mouse_mode ==> collect(key_table, states, mouse_mode, R as int).buttons.len() == 0,
{
    let collected = collect(key_table, states, mouse_mode, R as int);
    lemma_collect(key_table, states, mouse_mode, R as int, Event::Button(button));
    lemma_collect(key_table, states, mouse_mode, R as int, Event::Key(code));
    if mouse_mode {
        assert(emits_at(key_table, states, mouse_mode, at.0, at.1, Event::Button(button)));
    } else {
        if code != NO_EVENT {
            assert(emits_at(key_table, states, mouse_mode, at.0, at.1, Event::Key(code)));
        }
        if collected.buttons.len() > 0 {
            let first = collected.buttons[0];
            assert(collected.buttons.contains(first));
            lemma_collect(key_table, states, mouse_mode, R as int, Event::Button(first));
        }
    }
}

} // verus!
