use vstd::prelude::*;

use crate::calendar::{date_of, month_season, parse_date, season_of_month};
use crate::error::InferenceError;
use crate::features::{
    day_of_season_of, is_feature_table, lemma_feature_table_shape, FEATURE_WIDTH,
};
use crate::types::{ForecastResponse, Season};
use crate::window::{
    create_window_input, create_window_prev_out, input_window, recurrence_window,
    rows_have_width, OUTPUT_WIDTH,
};

verus! {

/// One model handle per season.
pub struct Models<M> {
    pub winter: M,
    pub summer: M,
    pub spring: M,
    pub autumn: M,
}

impl<M> Models<M> {
    pub open spec fn model_of(&self, season: Season) -> M {
        match season {
            Season::Winter => self.winter,
            Season::Summer => self.summer,
            Season::Spring => self.spring,
            Season::Autumn => self.autumn,
        }
    }

    /// The handle that serves `season`.
    pub fn for_season(&self, season: Season) -> (r: &M)
        ensures
            *r == self.model_of(season),
    {
        match season {
            Season::Winter => &self.winter,
            Season::Summer => &self.summer,
            Season::Spring => &self.spring,
            Season::Autumn => &self.autumn,
        }
    }
}

/// The rows of `rows` laid end to end, in order.
pub open spec fn flatten<T>(rows: Seq<Vec<T>>) -> Seq<T>
    decreases rows.len(),
{
    if rows.len() == 0 {
        Seq::empty()
    } else {
        flatten(rows.drop_last()) + rows.last()@
    }
}

/// The same rows, scalar for scalar.
pub open spec fn same_rows<T>(a: Seq<Vec<T>>, b: Seq<Vec<T>>) -> bool {
    a.len() == b.len() && forall|k: int| 0 <= k < a.len() ==> (#[trigger] a[k])@ == b[k]@
}

/// Each of `outputs` is what the model `m` gives on the windows of its step.
pub open spec fn follows_model<T>(
    hours: Seq<Vec<T>>,
    outputs: Seq<Vec<T>>,
    zero: T,
    m: spec_fn(Seq<T>, Seq<T>) -> Seq<T>,
) -> bool {
    forall|k: int|
        0 <= k < outputs.len() ==> (#[trigger] outputs[k])@ == m(
            input_window(hours, k, zero),
            recurrence_window(outputs.take(k), k, zero),
        )
}

proof fn lemma_flatten_len<T>(rows: Seq<Vec<T>>)
    requires
        rows_have_width(rows, OUTPUT_WIDTH as nat),
    ensures
        flatten(rows).len() == OUTPUT_WIDTH * rows.len(),
    decreases rows.len(),
{
    if rows.len() > 0 {
        lemma_flatten_len(rows.drop_last());
    }
}

proof fn lemma_flatten_same<T>(a: Seq<Vec<T>>, b: Seq<Vec<T>>)
    requires
        same_rows(a, b),
    ensures
        flatten(a) == flatten(b),
    decreases a.len(),
{
    if a.len() > 0 {
        lemma_flatten_same(a.drop_last(), b.drop_last());
    }
}

proof fn lemma_recurrence_same<T>(a: Seq<Vec<T>>, b: Seq<Vec<T>>, i: int, zero: T)
    requires
        same_rows(a, b),
    ensures
        recurrence_window(a, i, zero) == recurrence_window(b, i, zero),
{
}

/// A model that is a function of its two inputs gives the same outputs, and so
/// the same flattened result, on every run over the same hours.
pub proof fn lemma_run_is_deterministic<T>(
    hours: Seq<Vec<T>>,
    a: Seq<Vec<T>>,
    b: Seq<Vec<T>>,
    zero: T,
    m: spec_fn(Seq<T>, Seq<T>) -> Seq<T>,
)
    requires
        a.len() == b.len(),
        follows_model(hours, a, zero, m),
        follows_model(hours, b, zero, m),
    ensures
        same_rows(a, b),
        flatten(a) == flatten(b),
    decreases a.len(),
{
    if a.len() > 0 {
        let n = a.len() - 1;
        let (ap, bp) = (a.drop_last(), b.drop_last());
        assert forall|k: int| 0 <= k < ap.len() implies (#[trigger] ap[k])@ == m(
            input_window(hours, k, zero),
            recurrence_window(ap.take(k), k, zero),
        ) by {
            assert(ap.take(k) == a.take(k));
            assert(ap[k] == a[k]);
        }
        assert forall|k: int| 0 <= k < bp.len() implies (#[trigger] bp[k])@ == m(
            input_window(hours, k, zero),
            recurrence_window(bp.take(k), k, zero),
        ) by {
            assert(bp.take(k) == b.take(k));
            assert(bp[k] == b[k]);
        }
        lemma_run_is_deterministic(hours, ap, bp, zero, m);
        assert(a.take(n) == ap);
        assert(b.take(n) == bp);
        lemma_recurrence_same(ap, bp, n, zero);
        assert(a[n]@ == b[n]@);
        assert forall|k: int| 0 <= k < a.len() implies (#[trigger] a[k])@ == b[k]@ by {
            if k < n {
                assert(ap[k] == a[k]);
                assert(bp[k] == b[k]);
            }
        }
        lemma_flatten_same(a, b);
    }
}

/// Recording the model's output on the windows of the current step keeps the
/// outputs following the model.
pub proof fn lemma_record_follows_model<T>(
    hours: Seq<Vec<T>>,
    outputs: Seq<Vec<T>>,
    out: Vec<T>,
    zero: T,
    m: spec_fn(Seq<T>, Seq<T>) -> Seq<T>,
)
    requires
        follows_model(hours, outputs, zero, m),
        out@ == m(
            input_window(hours, outputs.len() as int, zero),
            recurrence_window(outputs, outputs.len() as int, zero),
        ),
    ensures
        follows_model(hours, outputs.push(out), zero, m),
{
    let grown = outputs.push(out);
    assert forall|k: int| 0 <= k < grown.len() implies (#[trigger] grown[k])@ == m(
        input_window(hours, k, zero),
        recurrence_window(grown.take(k), k, zero),
    ) by {
        if k < outputs.len() {
            assert(grown.take(k) == outputs.take(k));
            assert(grown[k] == outputs[k]);
        } else {
            assert(grown.take(k) == outputs);
        }
    }
}

/// The per-request state of the 24-step loop: the season, the hours' feature
/// vectors, and the outputs recorded so far, in hour order.
pub struct InferenceSession<T> {
    season: Season,
    hours: Vec<Vec<T>>,
    past_out: Vec<Vec<T>>,
    zero: T,
}

impl<T: Copy> InferenceSession<T> {
    pub closed spec fn spec_season(&self) -> Season {
        self.season
    }

    pub closed spec fn spec_hours(&self) -> Seq<Vec<T>> {
        self.hours@
    }

    pub closed spec fn spec_outputs(&self) -> Seq<Vec<T>> {
        self.past_out@
    }

    pub closed spec fn spec_zero(&self) -> T {
        self.zero
    }

    pub open spec fn spec_done(&self) -> bool {
        self.spec_outputs().len() == self.spec_hours().len()
    }

    pub open spec fn wf(&self) -> bool {
        &&& self.spec_hours().len() > 0
        &&& self.spec_outputs().len() <= self.spec_hours().len()
        &&& rows_have_width(self.spec_hours(), FEATURE_WIDTH as nat)
        &&& rows_have_width(self.spec_outputs(), OUTPUT_WIDTH as nat)
    }

    /// A session for the request date `date` over the feature vectors `hours`.
    pub fn new(date: &str, hours: Vec<Vec<T>>, zero: T) -> (r: Result<Self, InferenceError>)
        requires
            rows_have_width(hours@, FEATURE_WIDTH as nat),
        ensures
            match date_of(date@) {
                Err(e) => r == Err::<Self, InferenceError>(e),
                Ok(d) => if hours@.len() == 0 {
                    r == Err::<Self, InferenceError>(InferenceError::MissingBaseVector)
                } else {
                    r matches Ok(s) && s.wf() && Some(s.spec_season()) == month_season(
                        d.month as int,
                    ) && s.spec_hours() == hours@ && s.spec_outputs().len() == 0
                        && s.spec_zero() == zero
                },
            },
    {
        let date = parse_date(date)?;
        let season = season_of_month(date.month)?;
        if hours.len() == 0 {
            return Err(InferenceError::MissingBaseVector);
        }
        Ok(InferenceSession { season, hours, past_out: Vec::new(), zero })
    }

    /// A session for the request date `date` over the day's forecast `data`:
    /// the season comes from `date`, the feature vectors from `data`.
    pub fn inference<F: Fn(u32) -> T>(
        date: &str,
        data: &ForecastResponse<T>,
        zero: T,
        scalar_of: F,
    ) -> (r: Result<Self, InferenceError>)
        requires
            forall|d: u32| scalar_of.requires((d,)),
        ensures
            match date_of(date@) {
                Err(e) => r == Err::<Self, InferenceError>(e),
                Ok(d) => if data.daily.time@.len() == 0 {
                    r == Err::<Self, InferenceError>(InferenceError::InvalidDate)
                } else {
                    match day_of_season_of(data.daily.time@[0]@) {
                        Err(e) => r == Err::<Self, InferenceError>(e),
                        Ok(day) => r matches Ok(s) && s.wf() && Some(s.spec_season())
                            == month_season(d.month as int) && s.spec_outputs().len() == 0
                            && s.spec_zero() == zero && scalar_of.ensures(
                            (day,),
                            s.spec_hours()[0]@[0],
                        ) && is_feature_table(
                            s.spec_hours(),
                            data.hourly,
                            s.spec_hours()[0]@[0],
                            zero,
                        ),
                    }
                },
            },
    {
        parse_date(date)?;
        let hours = data.to_feature_vec(zero, scalar_of)?;
        proof {
            lemma_feature_table_shape(hours@, data.hourly, hours@[0]@[0], zero);
        }
        Self::new(date, hours, zero)
    }

    /// The season whose model serves this session.
    pub fn season(&self) -> (r: Season)
        ensures
            r == self.spec_season(),
    {
        self.season
    }

    /// The index of the hour whose output comes next.
    pub fn step(&self) -> (r: usize)
        ensures
            r == self.spec_outputs().len(),
    {
        self.past_out.len()
    }

    /// Whether every hour has its output.
    pub fn is_done(&self) -> (r: bool)
        ensures
            r == self.spec_done(),
    {
        self.past_out.len() == self.hours.len()
    }

    /// The input window and the recurrence window of the current step.
    pub fn next_windows(&self) -> (r: (Vec<T>, Vec<T>))
        requires
            self.wf(),
            !self.spec_done(),
        ensures
            r.0@ == input_window(
                self.spec_hours(),
                self.spec_outputs().len() as int,
                self.spec_zero(),
            ),
            r.1@ == recurrence_window(
                self.spec_outputs(),
                self.spec_outputs().len() as int,
                self.spec_zero(),
            ),
    {
        let i = self.past_out.len();
        let input = create_window_input(&self.hours, i, self.zero).unwrap();
        let recurrent = create_window_prev_out(&self.past_out, i, self.zero);
        (input, recurrent)
    }

    /// Records the model's output for the current step. An output of the
    /// wrong width is a failed model step and leaves the session as it was.
    pub fn record_output(&mut self, out: Vec<T>) -> (r: Result<(), InferenceError>)
        requires
            old(self).wf(),
            !old(self).spec_done(),
        ensures
            final(self).wf(),
            final(self).spec_season() == old(self).spec_season(),
            final(self).spec_hours() == old(self).spec_hours(),
            final(self).spec_zero() == old(self).spec_zero(),
            out@.len() == OUTPUT_WIDTH ==> r is Ok && final(self).spec_outputs() == old(
                self,
            ).spec_outputs().push(out),
            out@.len() != OUTPUT_WIDTH ==> r == Err::<(), InferenceError>(
                InferenceError::ModelExecutionError,
            ) && final(self).spec_outputs() == old(self).spec_outputs(),
    {
        if out.len() != OUTPUT_WIDTH {
            return Err(InferenceError::ModelExecutionError);
        }
        self.past_out.push(out);
        Ok(())
    }

    /// The outputs of all hours laid end to end in hour order.
    pub fn into_result(self) -> (r: Vec<T>)
        requires
            self.wf(),
            self.spec_done(),
        ensures
            r@ == flatten(self.spec_outputs()),
            r@.len() == OUTPUT_WIDTH * self.spec_hours().len(),
    {
        let mut flat: Vec<T> = Vec::new();
        let mut k: usize = 0;
        while k < self.past_out.len()
            invariant
                k <= self.past_out@.len(),
                flat@ == flatten(self.past_out@.take(k as int)),
            decreases self.past_out@.len() - k,
        {
            let row = &self.past_out[k];
            let ghost before = flat@;
            let mut c: usize = 0;
            while c < row.len()
                invariant
                    c <= row@.len(),
                    flat@ == before + row@.take(c as int),
                decreases row@.len() - c,
            {
                flat.push(row[c]);
                c = c + 1;
                assert(flat@ =~= before + row@.take(c as int));
            }
            assert(row@.take(row@.len() as int) =~= row@);
            assert(self.past_out@.take(k + 1).drop_last() =~= self.past_out@.take(k as int));
            k = k + 1;
        }
        assert(self.past_out@.take(k as int) =~= self.past_out@);
        proof {
            lemma_flatten_len(self.past_out@);
        }
        flat
    }
}

} // verus!
