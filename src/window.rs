use vstd::prelude::*;

use crate::error::InferenceError;
use crate::features::FEATURE_WIDTH;

verus! {

/// Scalars in one step's model output.
pub const OUTPUT_WIDTH: usize = 12;

/// Scalars in an input window: four hours before, the hour, one hour ahead.
pub const INPUT_WINDOW_LEN: usize = 78;

/// Scalars in a recurrence window: four output slots.
pub const RECURRENCE_WINDOW_LEN: usize = 48;

/// `width` copies of `zero`.
pub open spec fn zeros<T>(width: nat, zero: T) -> Seq<T> {
    Seq::new(width, |_k: int| zero)
}

/// Row `j` of `rows`, or `width` zeros where `j` is outside the rows.
pub open spec fn slot<T>(rows: Seq<Vec<T>>, j: int, width: nat, zero: T) -> Seq<T> {
    if 0 <= j < rows.len() {
        rows[j]@
    } else {
        zeros(width, zero)
    }
}

/// Every row of `rows` holds `width` scalars.
pub open spec fn rows_have_width<T>(rows: Seq<Vec<T>>, width: nat) -> bool {
    forall|j: int| 0 <= j < rows.len() ==> (#[trigger] rows[j])@.len() == width
}

/// The model input for hour `i`: hours `i-4` to `i+1` in order, zero-padded.
pub open spec fn input_window<T>(hours: Seq<Vec<T>>, i: int, zero: T) -> Seq<T> {
    let w = FEATURE_WIDTH as nat;
    slot(hours, i - 4, w, zero) + slot(hours, i - 3, w, zero) + slot(hours, i - 2, w, zero)
        + slot(hours, i - 1, w, zero) + slot(hours, i, w, zero) + slot(hours, i + 1, w, zero)
}

/// The recurrence input for hour `i`: outputs `i-3` to `i` in order, zero-padded.
pub open spec fn recurrence_window<T>(past: Seq<Vec<T>>, i: int, zero: T) -> Seq<T> {
    let w = OUTPUT_WIDTH as nat;
    slot(past, i - 3, w, zero) + slot(past, i - 2, w, zero) + slot(past, i - 1, w, zero) + slot(
        past,
        i,
        w,
        zero,
    )
}

proof fn lemma_slot_len<T>(rows: Seq<Vec<T>>, j: int, width: nat, zero: T)
    requires
        rows_have_width(rows, width),
    ensures
        slot(rows, j, width, zero).len() == width,
{
}

/// Every input window holds 78 scalars and every recurrence window 48, at any hour.
pub proof fn lemma_window_lengths<T>(hours: Seq<Vec<T>>, past: Seq<Vec<T>>, i: int, zero: T)
    requires
        rows_have_width(hours, FEATURE_WIDTH as nat),
        rows_have_width(past, OUTPUT_WIDTH as nat),
    ensures
        input_window(hours, i, zero).len() == INPUT_WINDOW_LEN,
        recurrence_window(past, i, zero).len() == RECURRENCE_WINDOW_LEN,
{
    let (fw, ow) = (FEATURE_WIDTH as nat, OUTPUT_WIDTH as nat);
    lemma_slot_len(hours, i - 4, fw, zero);
    lemma_slot_len(hours, i - 3, fw, zero);
    lemma_slot_len(hours, i - 2, fw, zero);
    lemma_slot_len(hours, i - 1, fw, zero);
    lemma_slot_len(hours, i, fw, zero);
    lemma_slot_len(hours, i + 1, fw, zero);
    lemma_slot_len(past, i - 3, ow, zero);
    lemma_slot_len(past, i - 2, ow, zero);
    lemma_slot_len(past, i - 1, ow, zero);
    lemma_slot_len(past, i, ow, zero);
}

/// At the first hour the four slots before the current hour are all zero.
pub proof fn lemma_first_hour_padding<T>(hours: Seq<Vec<T>>, zero: T)
    ensures
        input_window(hours, 0, zero).subrange(0, 4 * FEATURE_WIDTH as int) == zeros(
            4 * FEATURE_WIDTH as nat,
            zero,
        ),
{
    let w = FEATURE_WIDTH as nat;
    let z = zeros(w, zero);
    let win = input_window(hours, 0, zero);
    assert(win == z + z + z + z + slot(hours, 0, w, zero) + slot(hours, 1, w, zero));
    assert(win.subrange(0, 4 * FEATURE_WIDTH as int) =~= zeros(4 * FEATURE_WIDTH as nat, zero));
}

/// At the last hour of the day the lookahead slot is all zero.
pub proof fn lemma_last_hour_lookahead<T>(hours: Seq<Vec<T>>, zero: T)
    requires
        hours.len() > 0,
        rows_have_width(hours, FEATURE_WIDTH as nat),
    ensures
        input_window(hours, hours.len() - 1, zero).subrange(
            5 * FEATURE_WIDTH as int,
            INPUT_WINDOW_LEN as int,
        ) == zeros(FEATURE_WIDTH as nat, zero),
{
    let i = hours.len() - 1;
    lemma_window_lengths(hours, Seq::<Vec<T>>::empty(), i, zero);
    let w = FEATURE_WIDTH as nat;
    let head = slot(hours, i - 4, w, zero) + slot(hours, i - 3, w, zero) + slot(hours, i - 2, w, zero)
        + slot(hours, i - 1, w, zero) + slot(hours, i, w, zero);
    lemma_slot_len(hours, i - 4, w, zero);
    lemma_slot_len(hours, i - 3, w, zero);
    lemma_slot_len(hours, i - 2, w, zero);
    lemma_slot_len(hours, i - 1, w, zero);
    lemma_slot_len(hours, i, w, zero);
    assert(head.len() == 5 * FEATURE_WIDTH);
    assert(input_window(hours, i, zero) == head + zeros(w, zero));
    assert(input_window(hours, i, zero).subrange(5 * FEATURE_WIDTH as int, INPUT_WINDOW_LEN as int)
        =~= zeros(w, zero));
}

/// While step `i` runs, its own output is not yet known: the last slot of the
/// recurrence window is all zero.
pub proof fn lemma_current_output_slot_zero<T>(past: Seq<Vec<T>>, i: int, zero: T)
    requires
        past.len() <= i,
        rows_have_width(past, OUTPUT_WIDTH as nat),
    ensures
        recurrence_window(past, i, zero).subrange(
            3 * OUTPUT_WIDTH as int,
            RECURRENCE_WINDOW_LEN as int,
        ) == zeros(OUTPUT_WIDTH as nat, zero),
{
    let w = OUTPUT_WIDTH as nat;
    let head = slot(past, i - 3, w, zero) + slot(past, i - 2, w, zero) + slot(past, i - 1, w, zero);
    lemma_slot_len(past, i - 3, w, zero);
    lemma_slot_len(past, i - 2, w, zero);
    lemma_slot_len(past, i - 1, w, zero);
    assert(recurrence_window(past, i, zero) == head + zeros(w, zero));
    assert(recurrence_window(past, i, zero).subrange(
        3 * OUTPUT_WIDTH as int,
        RECURRENCE_WINDOW_LEN as int,
    ) =~= zeros(w, zero));
}

/// Appends row `i - back + ahead` of `rows`, or `width` zeros where there is none.
fn append_slot<T: Copy>(
    out: &mut Vec<T>,
    rows: &Vec<Vec<T>>,
    i: usize,
    back: usize,
    ahead: usize,
    width: usize,
    zero: T,
)
    requires
        back == 0 || ahead == 0,
    ensures
        final(out)@ == old(out)@ + slot(rows@, i - back + ahead, width as nat, zero),
{
    let ghost start = out@;
    if i >= back && i - back < rows.len() && rows.len() - (i - back) > ahead {
        let row = &rows[i - back + ahead];
        let mut k: usize = 0;
        while k < row.len()
            invariant
                k <= row@.len(),
                out@ == start + row@.subrange(0, k as int),
            decreases row@.len() - k,
        {
            out.push(row[k]);
            k = k + 1;
            assert(out@ =~= start + row@.subrange(0, k as int));
        }
        assert(row@.subrange(0, row@.len() as int) =~= row@);
    } else {
        let mut k: usize = 0;
        while k < width
            invariant
                k <= width,
                out@ == start + zeros(k as nat, zero),
            decreases width - k,
        {
            out.push(zero);
            k = k + 1;
            assert(out@ =~= start + zeros(k as nat, zero));
        }
    }
}

/// The model input for hour `i`. Fails when there are no hours at all.
pub fn create_window_input<T: Copy>(hours: &Vec<Vec<T>>, i: usize, zero: T) -> (r: Result<
    Vec<T>,
    InferenceError,
>)
    requires
        rows_have_width(hours@, FEATURE_WIDTH as nat),
    ensures
        hours@.len() == 0 ==> r == Err::<Vec<T>, InferenceError>(InferenceError::MissingBaseVector),
        hours@.len() > 0 ==> (r matches Ok(w) && w@ == input_window(hours@, i as int, zero)
            && w@.len() == INPUT_WINDOW_LEN),
{
    if hours.len() == 0 {
        return Err(InferenceError::MissingBaseVector);
    }
    let mut window: Vec<T> = Vec::with_capacity(INPUT_WINDOW_LEN);
    append_slot(&mut window, hours, i, 4, 0, FEATURE_WIDTH, zero);
    append_slot(&mut window, hours, i, 3, 0, FEATURE_WIDTH, zero);
    append_slot(&mut window, hours, i, 2, 0, FEATURE_WIDTH, zero);
    append_slot(&mut window, hours, i, 1, 0, FEATURE_WIDTH, zero);
    append_slot(&mut window, hours, i, 0, 0, FEATURE_WIDTH, zero);
    append_slot(&mut window, hours, i, 0, 1, FEATURE_WIDTH, zero);
    proof {
        lemma_window_lengths(hours@, Seq::<Vec<T>>::empty(), i as int, zero);
    }
    Ok(window)
}

/// The recurrence input for hour `i`, from the outputs produced so far.
pub fn create_window_prev_out<T: Copy>(past: &Vec<Vec<T>>, i: usize, zero: T) -> (r: Vec<T>)
    requires
        rows_have_width(past@, OUTPUT_WIDTH as nat),
    ensures
        r@ == recurrence_window(past@, i as int, zero),
        r@.len() == RECURRENCE_WINDOW_LEN,
{
    let mut window: Vec<T> = Vec::with_capacity(RECURRENCE_WINDOW_LEN);
    append_slot(&mut window, past, i, 3, 0, OUTPUT_WIDTH, zero);
    append_slot(&mut window, past, i, 2, 0, OUTPUT_WIDTH, zero);
    append_slot(&mut window, past, i, 1, 0, OUTPUT_WIDTH, zero);
    append_slot(&mut window, past, i, 0, 0, OUTPUT_WIDTH, zero);
    proof {
        lemma_window_lengths(Seq::<Vec<T>>::empty(), past@, i as int, zero);
    }
    window
}

} // verus!
