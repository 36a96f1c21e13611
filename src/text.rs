//! The report card as lines of text.

use vstd::prelude::*;
use vstd::string::*;
use crate::decimal::{fixed2, format_fraction, push_char};
use crate::grading::{
    grade_label,
    overall_average_of,
    term_sum,
    total_term_sum,
    Fraction,
    Student,
    SubjectMarks,
};

verus! {

/// `n` spaces.
pub open spec fn spaces(n: nat) -> Seq<char>
    decreases n,
{
    if n == 0 {
        seq![]
    } else {
        spaces((n - 1) as nat).push(' ')
    }
}

/// `s` followed by spaces up to `width` characters; longer text is kept whole.
pub open spec fn pad_right(s: Seq<char>, width: nat) -> Seq<char> {
    if s.len() >= width {
        s
    } else {
        s + spaces((width - s.len()) as nat)
    }
}

/// A term score, given in hundredths of a mark, with two decimal places.
pub open spec fn score_text(score: i32) -> Seq<char> {
    fixed2(score as int, 100)
}

/// A subject's line: its name padded to ten characters, its four term scores
/// and its average.
pub open spec fn subject_line(m: SubjectMarks) -> Seq<char> {
    "    "@ + pad_right(m.subject_name@, 10) + ": 1st Term: "@ + score_text(m.first_term)
        + ", 2nd Term: "@ + score_text(m.second_term) + ", 3rd Term: "@ + score_text(
        m.third_term,
    ) + ", Final Term: "@ + score_text(m.final_term) + ", Avg: "@ + fixed2(term_sum(m), 400)
}

/// One line per subject, in order.
pub open spec fn subject_lines(s: Seq<SubjectMarks>) -> Seq<Seq<char>>
    decreases s.len(),
{
    if s.len() == 0 {
        seq![]
    } else {
        subject_lines(s.drop_last()).push(subject_line(s.last()))
    }
}

/// The overall average line: two decimal places, or `N/A` without subjects.
pub open spec fn overall_line(s: Seq<SubjectMarks>) -> Seq<char> {
    match overall_average_of(s) {
        Some(f) => "  Overall Average: "@ + fixed2(f.num as int, f.den as int),
        None => "  Overall Average: N/A"@,
    }
}

/// The lines above the subjects.
pub open spec fn head_lines(st: Student) -> Seq<Seq<char>> {
    seq![
        ""@,
        "--- Student Report Card ---"@,
        "  Student Name: "@ + st.name@,
        "  Class: "@ + st.class@ + " Section: "@ + st.section@,
        ""@,
        "  Subjects:"@,
    ]
}

/// The lines below the subjects.
pub open spec fn tail_lines(st: Student) -> Seq<Seq<char>> {
    seq![
        ""@,
        "  Total Marks: "@ + fixed2(total_term_sum(st.subjects@), 400),
        overall_line(st.subjects@),
        "  Grade: "@ + grade_label(st.spec_grade()),
        "  Comment: "@ + st.comment@,
        "---------------------------"@,
        ""@,
    ]
}

/// The whole text block of a report card, line by line.
pub open spec fn report_lines(st: Student) -> Seq<Seq<char>> {
    head_lines(st) + subject_lines(st.subjects@) + tail_lines(st)
}

/// The text views of a vector of lines.
pub open spec fn views(v: Seq<String>) -> Seq<Seq<char>> {
    v.map_values(|l: String| l@)
}

proof fn lemma_views_push(v: Seq<String>, x: String)
    ensures
        views(v.push(x)) == views(v).push(x@),
{
    assert(views(v.push(x)) =~= views(v).push(x@));
}

proof fn lemma_views_concat(v: Seq<String>, w: Seq<String>)
    ensures
        views(v + w) == views(v) + views(w),
{
    assert(views(v + w) =~= views(v) + views(w));
}

/// `s` padded with spaces to `width` characters.
pub fn padded(s: &String, width: usize) -> (r: String)
    ensures
        r@ == pad_right(s@, width as nat),
{
    let mut r = s.clone();
    let len = s.as_str().unicode_len();
    let mut k: usize = len;
    while k < width
        invariant
            len == s@.len(),
            len <= k <= width || (k == len && len >= width),
            k <= width ==> r@ == s@ + spaces((k - len) as nat),
            k > width ==> r@ == s@,
        decreases width - k,
    {
        push_char(&mut r, ' ');
        proof {
            assert(spaces((k + 1 - len) as nat) == spaces((k - len) as nat).push(' '));
        }
        k = k + 1;
    }
    proof {
        if len < width {
            assert(k == width);
        } else {
            assert(spaces(0) =~= seq![]);
            assert(s@ + spaces(0) =~= s@);
        }
    }
    r
}

/// The text of one term score.
pub fn format_score(score: i32) -> (r: String)
    ensures
        r@ == score_text(score),
{
    format_fraction(Fraction { num: score as i128, den: 100 })
}

fn subject_text(m: &SubjectMarks) -> (r: String)
    ensures
        r@ == subject_line(*m),
{
    let mut s = String::from_str("    ");
    s.append(padded(&m.subject_name, 10).as_str());
    s.append(": 1st Term: ");
    s.append(format_score(m.first_term).as_str());
    s.append(", 2nd Term: ");
    s.append(format_score(m.second_term).as_str());
    s.append(", 3rd Term: ");
    s.append(format_score(m.third_term).as_str());
    s.append(", Final Term: ");
    s.append(format_score(m.final_term).as_str());
    s.append(", Avg: ");
    s.append(format_fraction(m.calculate_subject_average()).as_str());
    s
}

pub(crate) fn joined(a: &str, b: &str) -> (r: String)
    ensures
        r@ == a@ + b@,
{
    let mut s = String::from_str(a);
    s.append(b);
    s
}

impl Student {
    fn head_text(&self) -> (r: Vec<String>)
        ensures
            views(r@) == head_lines(*self),
    {
        let mut class_line = joined("  Class: ", self.class.as_str());
        class_line.append(" Section: ");
        class_line.append(self.section.as_str());
        let r = vec![
            String::from_str(""),
            String::from_str("--- Student Report Card ---"),
            joined("  Student Name: ", self.name.as_str()),
            class_line,
            String::from_str(""),
            String::from_str("  Subjects:"),
        ];
        assert(views(r@) =~= head_lines(*self));
        r
    }

    fn tail_text(&self) -> (r: Vec<String>)
        ensures
            views(r@) == tail_lines(*self),
    {
        let overall = match self.calculate_overall_average() {
            Some(f) => joined("  Overall Average: ", format_fraction(f).as_str()),
            None => String::from_str("  Overall Average: N/A"),
        };
        let r = vec![
            String::from_str(""),
            joined("  Total Marks: ", format_fraction(self.calculate_total_marks()).as_str()),
            overall,
            joined("  Grade: ", self.assign_grade().label().as_str()),
            joined("  Comment: ", self.comment.as_str()),
            String::from_str("---------------------------"),
            String::from_str(""),
        ];
        assert(views(r@) =~= tail_lines(*self));
        r
    }

    /// The report card as lines of text, for the console.
    pub fn report_card_lines(&self) -> (r: Vec<String>)
        ensures
            views(r@) == report_lines(*self),
    {
        let mut out = self.head_text();
        let mut i: usize = 0;
        while i < self.subjects.len()
            invariant
                i <= self.subjects@.len(),
                views(out@) == head_lines(*self) + subject_lines(self.subjects@.take(i as int)),
            decreases self.subjects@.len() - i,
        {
            let line = subject_text(&self.subjects[i]);
            proof {
                lemma_views_push(out@, line);
                assert(self.subjects@.take(i as int + 1).drop_last() == self.subjects@.take(
                    i as int,
                ));
                assert(self.subjects@.take(i as int + 1).last() == self.subjects@[i as int]);
                assert((head_lines(*self) + subject_lines(self.subjects@.take(i as int))).push(
                    line@,
                ) =~= head_lines(*self) + subject_lines(self.subjects@.take(i as int + 1)));
            }
            out.push(line);
            i = i + 1;
        }
        proof {
            assert(self.subjects@.take(i as int) == self.subjects@);
        }
        let mut tail = self.tail_text();
        proof {
            lemma_views_concat(out@, tail@);
        }
        out.append(&mut tail);
        out
    }
}

} // verus!
