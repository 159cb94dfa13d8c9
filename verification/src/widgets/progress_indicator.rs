use vstd::prelude::*;

verus! {

/// Integer division rounding toward zero, as Rust's `/` on integers does.
pub open spec fn div_toward_zero(a: int, b: int) -> int
    recommends
        b > 0,
{
    if a >= 0 {
        a / b
    } else {
        -((-a) / b)
    }
}

/// The state of a progress indicator: a value between a minimum and a
/// maximum, and whether the percentage is shown as a label.
#[derive(Debug, Clone, Copy)]
pub struct ManuscriptProgressIndicator {
    value: i32,
    min: i32,
    max: i32,
    show_label: bool,
}

impl ManuscriptProgressIndicator {
    pub closed spec fn spec_value(self) -> i32 {
        self.value
    }

    pub closed spec fn spec_minimum(self) -> i32 {
        self.min
    }

    pub closed spec fn spec_maximum(self) -> i32 {
        self.max
    }

    pub closed spec fn spec_show_label(self) -> bool {
        self.show_label
    }

    /// The progress, in percent, of `value` from `min` to `max`; 0 when the
    /// range is empty.
    pub open spec fn spec_progress(value: i32, min: i32, max: i32) -> int {
        if max > min {
            div_toward_zero((value - min) * 100, max - min)
        } else {
            0
        }
    }

    /// An indicator at 0 in the range 0 to 0, without a label.
    pub fn new() -> (r: ManuscriptProgressIndicator)
        ensures
            r.spec_value() == 0,
            r.spec_minimum() == 0,
            r.spec_maximum() == 0,
            !r.spec_show_label(),
    {
        ManuscriptProgressIndicator { value: 0, min: 0, max: 0, show_label: false }
    }

    pub fn value(&self) -> (r: i32)
        ensures
            r == self.spec_value(),
    {
        self.value
    }

    pub fn set_value(&mut self, value: i32)
        ensures
            final(self).spec_value() == value,
            final(self).spec_minimum() == old(self).spec_minimum(),
            final(self).spec_maximum() == old(self).spec_maximum(),
            final(self).spec_show_label() == old(self).spec_show_label(),
    {
        self.value = value;
    }

    pub fn minimum(&self) -> (r: i32)
        ensures
            r == self.spec_minimum(),
    {
        self.min
    }

    pub fn set_minimum(&mut self, value: i32)
        ensures
            final(self).spec_minimum() == value,
            final(self).spec_value() == old(self).spec_value(),
            final(self).spec_maximum() == old(self).spec_maximum(),
            final(self).spec_show_label() == old(self).spec_show_label(),
    {
        self.min = value;
    }

    pub fn maximum(&self) -> (r: i32)
        ensures
            r == self.spec_maximum(),
    {
        self.max
    }

    pub fn set_maximum(&mut self, value: i32)
        ensures
            final(self).spec_maximum() == value,
            final(self).spec_value() == old(self).spec_value(),
            final(self).spec_minimum() == old(self).spec_minimum(),
            final(self).spec_show_label() == old(self).spec_show_label(),
    {
        self.max = value;
    }

    pub fn show_label(&self) -> (r: bool)
        ensures
            r == self.spec_show_label(),
    {
        self.show_label
    }

    pub fn set_show_label(&mut self, value: bool)
        ensures
            final(self).spec_show_label() == value,
            final(self).spec_value() == old(self).spec_value(),
            final(self).spec_minimum() == old(self).spec_minimum(),
            final(self).spec_maximum() == old(self).spec_maximum(),
    {
        self.show_label = value;
    }

    /// The progress in percent: `(value - min) * 100 / (max - min)`, rounded
    /// toward zero, or 0 when `max` is not above `min`.
    pub fn progress(&self) -> (r: i32)
        requires
            self.spec_maximum() > self.spec_minimum() ==> {
                &&& i32::MIN <= self.spec_value() - self.spec_minimum() <= i32::MAX
                &&& i32::MIN <= (self.spec_value() - self.spec_minimum()) * 100 <= i32::MAX
                &&& self.spec_maximum() - self.spec_minimum() <= i32::MAX
            },
        ensures
            r == Self::spec_progress(self.spec_value(), self.spec_minimum(), self.spec_maximum()),
    {
        let min = self.min;
        let max = self.max;
        let value = self.value;
        if max > min {
            let num: i32 = (value - min) * 100;
            let den: i32 = max - min;
            let q: i32 = num / den;
            assert(q == div_toward_zero(num as int, den as int));
            q
        } else {
            0
        }
    }
}

/// A value within its range gives a progress between 0 and 100 percent,
/// reaching 100 at the maximum.
pub proof fn lemma_progress_is_percentage(value: i32, min: i32, max: i32)
    requires
        min <= value <= max,
    ensures
        0 <= ManuscriptProgressIndicator::spec_progress(value, min, max) <= 100,
        max > min && value == max ==> ManuscriptProgressIndicator::spec_progress(value, min, max)
            == 100,
{
    if max > min {
        let a: int = (value - min) * 100;
        let b: int = (max - min) as int;
        assert(0 <= a <= b * 100) by (nonlinear_arith)
            requires
                0 <= value - min <= max - min,
                a == (value - min) * 100,
                b == max - min,
        ;
        assert(a / b <= 100) by (nonlinear_arith)
            requires
                0 <= a <= b * 100,
                b > 0,
        ;
        assert(0 <= a / b) by (nonlinear_arith)
            requires
                0 <= a,
                b > 0,
        ;
        if value == max {
            assert(a == b * 100);
            assert((b * 100) / b == 100) by (nonlinear_arith)
                requires
                    b > 0,
            ;
        }
    }
}

impl Default for ManuscriptProgressIndicator {
    fn default() -> (r: ManuscriptProgressIndicator)
        ensures
            r.spec_value() == 0,
            r.spec_minimum() == 0,
            r.spec_maximum() == 0,
            !r.spec_show_label(),
    {
        Self::new()
    }
}

} // verus!
