//! Subject marks, student records and the grading rules.
//!
//! Term scores are held in hundredths of a mark. Averages are exact
//! fractions of marks, so that grade boundaries are decided without rounding.

use vstd::prelude::*;
use vstd::string::*;

verus! {

/// Largest magnitude of a fraction's numerator.
pub const MAX_NUM: i128 = 1267650600228229401496703205376;

/// Largest fraction denominator.
pub const MAX_DEN: u128 = 1208925819614629174706176;

/// An exact number of marks: `num / den`.
#[derive(Clone, Copy, Debug, PartialEq, Eq, Structural)]
pub struct Fraction {
    pub num: i128,
    pub den: u128,
}

impl Fraction {
    /// A fraction whose parts lie within the bounds this library computes with.
    pub open spec fn wf(self) -> bool {
        &&& 0 < self.den <= MAX_DEN
        &&& -MAX_NUM <= self.num <= MAX_NUM
    }

    /// Builds `num / den`, or `None` when the parts are out of bounds.
    pub fn new(num: i128, den: u128) -> (r: Option<Fraction>)
        ensures
            r is Some <==> (0 < den <= MAX_DEN && -MAX_NUM <= num <= MAX_NUM),
            r is Some ==> r->0 == (Fraction { num, den }),
    {
        if 0 < den && den <= MAX_DEN && -MAX_NUM <= num && num <= MAX_NUM {
            Some(Fraction { num, den })
        } else {
            None
        }
    }
}

/// `a / b` and `c / d` stand for the same number (denominators positive).
pub open spec fn same_value(a: int, b: int, c: int, d: int) -> bool {
    a * d == c * b
}

/// The letter grade of an overall average.
#[derive(Clone, Copy, Debug, PartialEq, Eq, Structural)]
pub enum Grade {
    A,
    B,
    C,
    D,
    NoData,
}

/// Grade bands, evaluated from the top; each band includes its lower bound.
pub open spec fn grade_of(avg: Option<Fraction>) -> Grade {
    match avg {
        None => Grade::NoData,
        Some(f) => if f.num >= 90 * f.den {
            Grade::A
        } else if f.num >= 75 * f.den {
            Grade::B
        } else if f.num >= 60 * f.den {
            Grade::C
        } else {
            Grade::D
        },
    }
}

/// The text shown for a grade.
pub open spec fn grade_label(g: Grade) -> Seq<char> {
    match g {
        Grade::A => "A"@,
        Grade::B => "B"@,
        Grade::C => "C"@,
        Grade::D => "D"@,
        Grade::NoData => "N/A (No subjects)"@,
    }
}

impl Grade {
    pub fn label(&self) -> (r: String)
        ensures
            r@ == grade_label(*self),
    {
        match self {
            Grade::A => String::from_str("A"),
            Grade::B => String::from_str("B"),
            Grade::C => String::from_str("C"),
            Grade::D => String::from_str("D"),
            Grade::NoData => String::from_str("N/A (No subjects)"),
        }
    }
}

/// Decides the grade band of an average, `None` meaning no subjects.
pub fn grade_for(avg: Option<Fraction>) -> (r: Grade)
    requires
        avg is Some ==> avg->0.wf(),
    ensures
        r == grade_of(avg),
{
    match avg {
        None => Grade::NoData,
        Some(f) => {
            if f.num < 0 {
                Grade::D
            } else {
                let whole = (f.num as u128) / f.den;
                proof {
                    lemma_floor_at_least(f.num as int, f.den as int, 90);
                    lemma_floor_at_least(f.num as int, f.den as int, 75);
                    lemma_floor_at_least(f.num as int, f.den as int, 60);
                }
                if whole >= 90 {
                    Grade::A
                } else if whole >= 75 {
                    Grade::B
                } else if whole >= 60 {
                    Grade::C
                } else {
                    Grade::D
                }
            }
        }
    }
}

proof fn lemma_floor_at_least(n: int, d: int, t: int)
    requires
        n >= 0,
        d > 0,
        t >= 0,
    ensures
        n / d >= t <==> n >= t * d,
{
    vstd::arithmetic::div_mod::lemma_fundamental_div_mod(n, d);
    let q = n / d;
    let r = n % d;
    assert(n / d >= t <==> n >= t * d) by (nonlinear_arith)
        requires
            n == d * q + r,
            0 <= r < d,
            q == n / d,
    ;
}

/// One subject's four term scores, in hundredths of a mark.
#[derive(Debug)]
pub struct SubjectMarks {
    pub subject_name: String,
    pub first_term: i32,
    pub second_term: i32,
    pub third_term: i32,
    pub final_term: i32,
}

/// The four term scores added up, in hundredths of a mark.
pub open spec fn term_sum(m: SubjectMarks) -> int {
    m.first_term + m.second_term + m.third_term + m.final_term
}

/// The subject average: the term sum over four terms of a hundred parts each.
pub open spec fn subject_average(m: SubjectMarks) -> Fraction {
    Fraction { num: term_sum(m) as i128, den: 400 }
}

/// All term sums of a sequence of subjects added up.
pub open spec fn total_term_sum(s: Seq<SubjectMarks>) -> int
    decreases s.len(),
{
    if s.len() == 0 {
        0
    } else {
        total_term_sum(s.drop_last()) + term_sum(s.last())
    }
}

proof fn lemma_total_term_sum_bounds(s: Seq<SubjectMarks>)
    ensures
        -0x2_0000_0000 * s.len() <= total_term_sum(s) <= 0x2_0000_0000 * s.len(),
    decreases s.len(),
{
    if s.len() > 0 {
        lemma_total_term_sum_bounds(s.drop_last());
    }
}

/// The term sums of any vector of subjects fit a fraction's numerator.
proof fn lemma_total_term_sum_fits(s: Seq<SubjectMarks>)
    requires
        s.len() <= usize::MAX,
    ensures
        -MAX_NUM <= total_term_sum(s) <= MAX_NUM,
{
    lemma_total_term_sum_bounds(s);
    let k = s.len() as int;
    assert(0x2_0000_0000 * k <= MAX_NUM) by (nonlinear_arith)
        requires
            0 <= k <= usize::MAX,
    ;
}

impl SubjectMarks {
    pub fn calculate_subject_average(&self) -> (r: Fraction)
        ensures
            r == subject_average(*self),
            r.wf(),
    {
        let sum: i64 = self.first_term as i64 + self.second_term as i64 + self.third_term as i64
            + self.final_term as i64;
        Fraction { num: sum as i128, den: 400 }
    }
}


/// A student's record. Every derived value is recomputed from `subjects`.
#[derive(Debug)]
pub struct Student {
    pub name: String,
    pub class: String,
    pub section: String,
    pub subjects: Vec<SubjectMarks>,
    pub comment: String,
}

/// Total marks: the sum of the subject averages, `total_term_sum / 400`.
pub open spec fn total_marks_of(s: Seq<SubjectMarks>) -> Fraction {
    Fraction { num: total_term_sum(s) as i128, den: 400 }
}

/// Overall average: the mean of the subject averages; absent without subjects.
pub open spec fn overall_average_of(s: Seq<SubjectMarks>) -> Option<Fraction> {
    if s.len() == 0 {
        None
    } else {
        Some(Fraction { num: total_term_sum(s) as i128, den: (400 * s.len()) as u128 })
    }
}

/// The subject averages added up as fractions, one after another:
/// `a / b + c / d = (a * d + c * b) / (b * d)`.
pub open spec fn sum_of_subject_averages(s: Seq<SubjectMarks>) -> (int, int)
    decreases s.len(),
{
    if s.len() == 0 {
        (0, 1)
    } else {
        let (a, b) = sum_of_subject_averages(s.drop_last());
        let avg = subject_average(s.last());
        (a * avg.den + avg.num * b, b * avg.den)
    }
}

proof fn lemma_sum_of_subject_averages(s: Seq<SubjectMarks>)
    ensures
        sum_of_subject_averages(s).1 > 0,
        sum_of_subject_averages(s).0 * 400 == total_term_sum(s) * sum_of_subject_averages(s).1,
    decreases s.len(),
{
    if s.len() > 0 {
        lemma_sum_of_subject_averages(s.drop_last());
        let (a, b) = sum_of_subject_averages(s.drop_last());
        let t = total_term_sum(s.drop_last());
        let x = term_sum(s.last());
        assert(x as i128 == x) by {
            lemma_total_term_sum_bounds(seq![s.last()]);
        }
        assert((a * 400 + x * b) * 400 == (t + x) * (b * 400)) by (nonlinear_arith)
            requires
                a * 400 == t * b,
        ;
        assert(b * 400 > 0) by (nonlinear_arith)
            requires
                b > 0,
        ;
    }
}

/// Total marks equal the sum, not the mean, of the subject averages.
pub proof fn lemma_total_is_sum_of_averages(s: Seq<SubjectMarks>)
    requires
        s.len() <= usize::MAX,
    ensures
        ({
            let (n, d) = sum_of_subject_averages(s);
            same_value(total_marks_of(s).num as int, total_marks_of(s).den as int, n, d)
        }),
{
    lemma_sum_of_subject_averages(s);
    lemma_total_term_sum_fits(s);
}

/// With at least one subject, the overall average equals the mean of the
/// subject averages; with none it is absent.
pub proof fn lemma_overall_is_mean_of_averages(s: Seq<SubjectMarks>)
    requires
        s.len() <= usize::MAX,
    ensures
        s.len() == 0 <==> overall_average_of(s) is None,
        s.len() > 0 ==> ({
            let (n, d) = sum_of_subject_averages(s);
            let avg = overall_average_of(s)->0;
            same_value(avg.num as int, avg.den as int, n, d * s.len())
        }),
{
    lemma_sum_of_subject_averages(s);
    lemma_total_term_sum_fits(s);
    if s.len() > 0 {
        let (n, d) = sum_of_subject_averages(s);
        let t = total_term_sum(s);
        let k = s.len() as int;
        assert(t * (d * k) == n * (400 * k)) by (nonlinear_arith)
            requires
                n * 400 == t * d,
        ;
    }
}

/// The derived values depend on the subject sequence alone: two records with
/// the same subjects, or one record asked twice, give the same results.
pub proof fn lemma_derived_values_depend_on_subjects(x: Student, y: Student)
    requires
        x.subjects@ == y.subjects@,
    ensures
        x.spec_total_marks() == y.spec_total_marks(),
        x.spec_overall_average() == y.spec_overall_average(),
        x.spec_grade() == y.spec_grade(),
{
}

impl Student {
    pub open spec fn spec_total_marks(&self) -> Fraction {
        total_marks_of(self.subjects@)
    }

    pub open spec fn spec_overall_average(&self) -> Option<Fraction> {
        overall_average_of(self.subjects@)
    }

    pub open spec fn spec_grade(&self) -> Grade {
        grade_of(self.spec_overall_average())
    }

    pub fn new(
        name: String,
        class: String,
        section: String,
        subjects: Vec<SubjectMarks>,
        comment: String,
    ) -> (r: Student)
        ensures
            r == (Student { name, class, section, subjects, comment }),
    {
        Student { name, class, section, subjects, comment }
    }

    /// The term sums of all subjects added up, in hundredths of a mark.
    fn term_sum_total(&self) -> (r: i128)
        ensures
            r == total_term_sum(self.subjects@),
            -MAX_NUM <= r <= MAX_NUM,
    {
        let mut sum: i128 = 0;
        let mut i: usize = 0;
        while i < self.subjects.len()
            invariant
                i <= self.subjects@.len(),
                sum == total_term_sum(self.subjects@.take(i as int)),
            decreases self.subjects@.len() - i,
        {
            let avg = self.subjects[i].calculate_subject_average();
            proof {
                let s = self.subjects@.take(i as int + 1);
                assert(s.drop_last() == self.subjects@.take(i as int));
                lemma_total_term_sum_bounds(s);
            }
            sum = sum + avg.num;
            i = i + 1;
        }
        proof {
            assert(self.subjects@.take(i as int) == self.subjects@);
            lemma_total_term_sum_bounds(self.subjects@);
            lemma_total_term_sum_fits(self.subjects@);
        }
        sum
    }

    pub fn calculate_total_marks(&self) -> (r: Fraction)
        ensures
            r == self.spec_total_marks(),
            r.num == total_term_sum(self.subjects@),
            r.wf(),
    {
        Fraction { num: self.term_sum_total(), den: 400 }
    }

    pub fn calculate_overall_average(&self) -> (r: Option<Fraction>)
        ensures
            r == self.spec_overall_average(),
            r is Some ==> r->0.wf(),
    {
        if self.subjects.len() == 0 {
            None
        } else {
            let sum = self.term_sum_total();
            let count = self.subjects.len() as u128;
            Some(Fraction { num: sum, den: 400 * count })
        }
    }

    pub fn assign_grade(&self) -> (r: Grade)
        ensures
            r == self.spec_grade(),
    {
        grade_for(self.calculate_overall_average())
    }
}

} // verus!
