//! Page layout of a report card as a list of drawing operations.
//!
//! Coordinates are whole millimetres from the bottom-left corner of an A4
//! page; font sizes are in points. A cursor walks down the page and each
//! section is drawn relative to it.

use vstd::prelude::*;
use vstd::string::*;
use crate::decimal::{fixed2, format_fraction, push_char};
use crate::grading::{grade_label, total_term_sum, Fraction, Grade, Student, SubjectMarks};
use crate::text::{format_score, joined, score_text};

verus! {

pub const PAGE_WIDTH: u32 = 210;

pub const PAGE_HEIGHT: u32 = 297;

pub const TITLE_SIZE: u32 = 24;

pub const HEADER_SIZE: u32 = 16;

pub const DETAIL_SIZE: u32 = 12;

pub const COLUMN_LABEL_SIZE: u32 = 10;

/// Where the cursor starts.
pub const TOP: i128 = 270;

/// Left edge and width of every box.
pub const BOX_X: i128 = 15;

pub const BOX_WIDTH: i128 = 180;

/// Left edges of the five table columns.
pub const COL_NAME: i128 = 20;

pub const COL_FIRST: i128 = 60;

pub const COL_SECOND: i128 = 90;

pub const COL_THIRD: i128 = 120;

pub const COL_FINAL: i128 = 150;

/// The colours used on the page.
#[derive(Clone, Copy, Debug, PartialEq, Eq, Structural)]
pub enum Shade {
    Black,
    White,
    /// Background of the information, totals and comment boxes.
    LightGray,
    /// Background of the table header.
    Purple,
}

/// Outline thickness of a box.
#[derive(Clone, Copy, Debug, PartialEq, Eq, Structural)]
pub enum Stroke {
    /// A tenth of a point.
    Hairline,
    /// Half a point.
    Medium,
}

/// One drawing operation.
#[derive(Debug, PartialEq, Eq)]
pub enum DrawOp {
    /// A text run with its baseline starting at `(x, y)`.
    Text { text: String, size: u32, x: i128, y: i128 },
    /// A filled and outlined rectangle with its lower-left corner at `(x, y)`.
    /// It leaves the fill colour, which text is drawn in, set to `fill`.
    Rect { x: i128, y: i128, width: i128, height: i128, fill: Shade, outline: Shade, stroke: Stroke },
    /// Sets the colour of the text drawn after it.
    TextColor(Shade),
}

/// What a drawing operation does, over plain values.
pub enum Drawn {
    Text { text: Seq<char>, size: int, x: int, y: int },
    Rect { x: int, y: int, width: int, height: int, fill: Shade, outline: Shade, stroke: Stroke },
    TextColor(Shade),
}

impl View for DrawOp {
    type V = Drawn;

    open spec fn view(&self) -> Drawn {
        match *self {
            DrawOp::Text { text, size, x, y } => Drawn::Text {
                text: text@,
                size: size as int,
                x: x as int,
                y: y as int,
            },
            DrawOp::Rect { x, y, width, height, fill, outline, stroke } => Drawn::Rect {
                x: x as int,
                y: y as int,
                width: width as int,
                height: height as int,
                fill,
                outline,
                stroke,
            },
            DrawOp::TextColor(c) => Drawn::TextColor(c),
        }
    }
}

/// The views of a list of operations.
pub open spec fn drawn(v: Seq<DrawOp>) -> Seq<Drawn> {
    v.map_values(|o: DrawOp| o@)
}

proof fn lemma_drawn_push(v: Seq<DrawOp>, o: DrawOp)
    ensures
        drawn(v.push(o)) == drawn(v).push(o@),
{
    assert(drawn(v.push(o)) =~= drawn(v).push(o@));
}

pub open spec fn text_at(text: Seq<char>, size: int, x: int, y: int) -> Drawn {
    Drawn::Text { text, size, x, y }
}

/// A box spanning the table's width, `height` tall, its lower edge at `bottom`.
pub open spec fn box_at(bottom: int, height: int, fill: Shade, outline: Shade, stroke: Stroke) -> Drawn {
    Drawn::Rect { x: 15, y: bottom, width: 180, height, fill, outline, stroke }
}

/// School name and title; the cursor then drops by 15 and by 25.
pub open spec fn title_ops(y: int) -> Seq<Drawn> {
    seq![text_at("School Name"@, 24, 80, y), text_at("REPORT CARD"@, 16, 80, y - 15)]
}

/// The student information box; the cursor then drops by 40.
pub open spec fn info_ops(y: int, name: Seq<char>, class: Seq<char>, section: Seq<char>) -> Seq<Drawn> {
    seq![
        box_at(y - 30, 35, Shade::LightGray, Shade::Black, Stroke::Medium),
        Drawn::TextColor(Shade::Black),
        text_at("Student Name: "@ + name, 12, 20, y - 5),
        text_at("Class: "@ + class + " Section: "@ + section, 12, 20, y - 20),
    ]
}

/// The table header bar with white column labels; the cursor then drops by 10.
pub open spec fn header_ops(y: int) -> Seq<Drawn> {
    seq![
        box_at(y - 10, 10, Shade::Purple, Shade::Purple, Stroke::Hairline),
        Drawn::TextColor(Shade::White),
        text_at("Subjects"@, 10, 20, y - 5),
        text_at("1st Term"@, 10, 60, y - 5),
        text_at("2nd Term"@, 10, 90, y - 5),
        text_at("3rd Term"@, 10, 120, y - 5),
        text_at("Final Term"@, 10, 150, y - 5),
    ]
}

/// One subject's row; the cursor then drops by 10.
pub open spec fn row_ops(y: int, m: SubjectMarks) -> Seq<Drawn> {
    seq![
        box_at(y - 10, 10, Shade::White, Shade::Black, Stroke::Hairline),
        Drawn::TextColor(Shade::Black),
        text_at(m.subject_name@, 12, 20, y - 5),
        text_at(score_text(m.first_term), 12, 60, y - 5),
        text_at(score_text(m.second_term), 12, 90, y - 5),
        text_at(score_text(m.third_term), 12, 120, y - 5),
        text_at(score_text(m.final_term), 12, 150, y - 5),
    ]
}

/// The rows of all subjects in order, the first with the cursor at `y`.
pub open spec fn rows_ops(y: int, s: Seq<SubjectMarks>) -> Seq<Drawn>
    decreases s.len(),
{
    if s.len() == 0 {
        seq![]
    } else {
        rows_ops(y, s.drop_last()) + row_ops(y - 10 * (s.len() - 1), s.last())
    }
}

/// The totals bar; the cursor then drops by 15.
pub open spec fn totals_ops(y: int, total: Seq<char>, grade: Grade) -> Seq<Drawn> {
    seq![
        box_at(y - 10, 10, Shade::LightGray, Shade::Black, Stroke::Hairline),
        Drawn::TextColor(Shade::Black),
        text_at("Total Marks: "@ + total, 12, 20, y - 5),
        text_at("Grade: "@ + grade_label(grade), 12, 120, y - 5),
    ]
}

/// The comment box; the cursor then drops by 50.
pub open spec fn comment_ops(y: int, comment: Seq<char>) -> Seq<Drawn> {
    seq![
        box_at(y - 30, 35, Shade::LightGray, Shade::Black, Stroke::Hairline),
        Drawn::TextColor(Shade::Black),
        text_at("Comment:"@, 12, 20, y - 5),
        text_at(comment, 12, 20, y - 20),
    ]
}

/// The three signature lines, at fixed offsets from the cursor.
pub open spec fn signature_ops(y: int) -> Seq<Drawn> {
    seq![
        text_at("Teacher's Signature: __________________"@, 12, 100, y),
        text_at("Parent's Signature: ___________________"@, 12, 20, y - 20),
        text_at("Principal Signature: ___________________"@, 12, 100, y - 20),
    ]
}

/// The cursor below the last subject row and the gap after it.
pub open spec fn below_rows(n: int) -> int {
    180 - 10 * n - 10
}

/// Every operation of a student's page, top to bottom.
pub open spec fn page_ops(st: Student) -> Seq<Drawn> {
    let n = st.subjects@.len() as int;
    let y = below_rows(n);
    title_ops(270) + info_ops(230, st.name@, st.class@, st.section@) + header_ops(190) + seq![
        Drawn::TextColor(Shade::Black),
    ] + rows_ops(180, st.subjects@) + totals_ops(
        y,
        fixed2(total_term_sum(st.subjects@), 400),
        st.spec_grade(),
    ) + comment_ops(y - 15, st.comment@) + signature_ops(y - 65)
}

/// A layout in progress: the cursor and what has been drawn so far.
pub struct Layout {
    pub cursor: i128,
    pub ops: Vec<DrawOp>,
}

/// The lowest cursor a layout step accepts, so that its coordinates fit.
pub const CURSOR_MIN: i128 = -0x1_0000_0000_0000_0000_0000_0000;

fn text_op(text: String, size: u32, x: i128, y: i128) -> (r: DrawOp)
    ensures
        r@ == text_at(text@, size as int, x as int, y as int),
{
    DrawOp::Text { text, size, x, y }
}

fn box_op(bottom: i128, height: i128, fill: Shade, outline: Shade, stroke: Stroke) -> (r: DrawOp)
    ensures
        r@ == box_at(bottom as int, height as int, fill, outline, stroke),
{
    DrawOp::Rect { x: BOX_X, y: bottom, width: BOX_WIDTH, height, fill, outline, stroke }
}

/// A student without subjects still gets a full page: the totals bar shows
/// zero marks and the no-data grade, and nothing is divided.
pub proof fn lemma_page_without_subjects(st: Student)
    requires
        st.subjects@.len() == 0,
    ensures
        page_ops(st).len() == 25,
        page_ops(st)[16] == text_at("Total Marks: "@ + fixed2(0, 400), 12, 20, 165),
        page_ops(st)[17] == text_at("Grade: "@ + "N/A (No subjects)"@, 12, 120, 165),
{
    assert(total_term_sum(st.subjects@) == 0);
    assert(rows_ops(180, st.subjects@) =~= seq![]);
}

impl Layout {
    /// An empty page with the cursor at the top.
    pub fn new() -> (r: Layout)
        ensures
            r.cursor == TOP,
            r.ops@.len() == 0,
    {
        Layout { cursor: TOP, ops: Vec::new() }
    }

    fn push(&mut self, op: DrawOp)
        ensures
            final(self).cursor == old(self).cursor,
            drawn(final(self).ops@) == drawn(old(self).ops@).push(op@),
    {
        proof {
            lemma_drawn_push(self.ops@, op);
        }
        self.ops.push(op);
    }

    /// Draws the school name and the title.
    pub fn title_block(&mut self)
        requires
            old(self).cursor >= CURSOR_MIN,
        ensures
            final(self).cursor == old(self).cursor - 40,
            drawn(final(self).ops@) == drawn(old(self).ops@) + title_ops(old(self).cursor as int),
    {
        let y = self.cursor;
        self.push(text_op(String::from_str("School Name"), TITLE_SIZE, 80, y));
        self.push(text_op(String::from_str("REPORT CARD"), HEADER_SIZE, 80, y - 15));
        self.cursor = y - 40;
        assert(drawn(self.ops@) =~= drawn(old(self).ops@) + title_ops(y as int));
    }

    /// Draws the box with the student's name, class and section.
    pub fn info_box(&mut self, name: &String, class: &String, section: &String)
        requires
            old(self).cursor >= CURSOR_MIN,
        ensures
            final(self).cursor == old(self).cursor - 40,
            drawn(final(self).ops@) == drawn(old(self).ops@) + info_ops(
                old(self).cursor as int,
                name@,
                class@,
                section@,
            ),
    {
        let y = self.cursor;
        self.push(box_op(y - 30, 35, Shade::LightGray, Shade::Black, Stroke::Medium));
        self.push(DrawOp::TextColor(Shade::Black));
        self.push(text_op(joined("Student Name: ", name.as_str()), DETAIL_SIZE, COL_NAME, y - 5));
        let mut class_line = joined("Class: ", class.as_str());
        class_line.append(" Section: ");
        class_line.append(section.as_str());
        self.push(text_op(class_line, DETAIL_SIZE, COL_NAME, y - 20));
        self.cursor = y - 40;
        assert(drawn(self.ops@) =~= drawn(old(self).ops@) + info_ops(
            y as int,
            name@,
            class@,
            section@,
        ));
    }

    /// Draws the table header bar and its white column labels.
    pub fn table_header(&mut self)
        requires
            old(self).cursor >= CURSOR_MIN,
        ensures
            final(self).cursor == old(self).cursor - 10,
            drawn(final(self).ops@) == drawn(old(self).ops@) + header_ops(old(self).cursor as int),
    {
        let y = self.cursor;
        self.push(box_op(y - 10, 10, Shade::Purple, Shade::Purple, Stroke::Hairline));
        self.push(DrawOp::TextColor(Shade::White));
        self.push(text_op(String::from_str("Subjects"), COLUMN_LABEL_SIZE, COL_NAME, y - 5));
        self.push(text_op(String::from_str("1st Term"), COLUMN_LABEL_SIZE, COL_FIRST, y - 5));
        self.push(text_op(String::from_str("2nd Term"), COLUMN_LABEL_SIZE, COL_SECOND, y - 5));
        self.push(text_op(String::from_str("3rd Term"), COLUMN_LABEL_SIZE, COL_THIRD, y - 5));
        self.push(text_op(String::from_str("Final Term"), COLUMN_LABEL_SIZE, COL_FINAL, y - 5));
        self.cursor = y - 10;
        assert(drawn(self.ops@) =~= drawn(old(self).ops@) + header_ops(y as int));
    }

    /// Draws one subject's row.
    pub fn subject_row(&mut self, m: &SubjectMarks)
        requires
            old(self).cursor >= CURSOR_MIN,
        ensures
            final(self).cursor == old(self).cursor - 10,
            drawn(final(self).ops@) == drawn(old(self).ops@) + row_ops(old(self).cursor as int, *m),
    {
        let y = self.cursor;
        self.push(box_op(y - 10, 10, Shade::White, Shade::Black, Stroke::Hairline));
        self.push(DrawOp::TextColor(Shade::Black));
        self.push(text_op(m.subject_name.clone(), DETAIL_SIZE, COL_NAME, y - 5));
        self.push(text_op(format_score(m.first_term), DETAIL_SIZE, COL_FIRST, y - 5));
        self.push(text_op(format_score(m.second_term), DETAIL_SIZE, COL_SECOND, y - 5));
        self.push(text_op(format_score(m.third_term), DETAIL_SIZE, COL_THIRD, y - 5));
        self.push(text_op(format_score(m.final_term), DETAIL_SIZE, COL_FINAL, y - 5));
        self.cursor = y - 10;
        assert(drawn(self.ops@) =~= drawn(old(self).ops@) + row_ops(y as int, *m));
    }

    /// Sets black text, draws a row per subject in order, and leaves a
    /// row's gap below the last.
    pub fn subject_rows(&mut self, subjects: &Vec<SubjectMarks>)
        requires
            old(self).cursor >= 0,
        ensures
            final(self).cursor == old(self).cursor - 10 * subjects@.len() - 10,
            final(self).cursor > old(self).cursor - 0x10_0000_0000_0000_0000,
            drawn(final(self).ops@) == drawn(old(self).ops@) + seq![Drawn::TextColor(Shade::Black)]
                + rows_ops(old(self).cursor as int, subjects@),
    {
        let y = self.cursor;
        self.push(DrawOp::TextColor(Shade::Black));
        let ghost head = drawn(self.ops@);
        let mut i: usize = 0;
        while i < subjects.len()
            invariant
                0 <= y,
                i <= subjects@.len(),
                self.cursor == y - 10 * i,
                head == drawn(old(self).ops@) + seq![Drawn::TextColor(Shade::Black)],
                drawn(self.ops@) == head + rows_ops(y as int, subjects@.take(i as int)),
            decreases subjects@.len() - i,
        {
            self.subject_row(&subjects[i]);
            proof {
                let s = subjects@.take(i as int + 1);
                assert(s.drop_last() == subjects@.take(i as int));
                assert(s.last() == subjects@[i as int]);
                assert(drawn(self.ops@) =~= head + rows_ops(y as int, s));
            }
            i = i + 1;
        }
        proof {
            assert(subjects@.take(i as int) == subjects@);
        }
        self.cursor = self.cursor - 10;
    }

    /// Draws the bar with the total marks and the grade.
    pub fn totals_bar(&mut self, total: Fraction, grade: Grade)
        requires
            old(self).cursor >= CURSOR_MIN,
            total.wf(),
        ensures
            final(self).cursor == old(self).cursor - 15,
            drawn(final(self).ops@) == drawn(old(self).ops@) + totals_ops(
                old(self).cursor as int,
                fixed2(total.num as int, total.den as int),
                grade,
            ),
    {
        let y = self.cursor;
        self.push(box_op(y - 10, 10, Shade::LightGray, Shade::Black, Stroke::Hairline));
        self.push(DrawOp::TextColor(Shade::Black));
        self.push(
            text_op(joined("Total Marks: ", format_fraction(total).as_str()), DETAIL_SIZE, COL_NAME, y - 5),
        );
        self.push(text_op(joined("Grade: ", grade.label().as_str()), DETAIL_SIZE, COL_THIRD, y - 5));
        self.cursor = y - 15;
        assert(drawn(self.ops@) =~= drawn(old(self).ops@) + totals_ops(
            y as int,
            fixed2(total.num as int, total.den as int),
            grade,
        ));
    }

    /// Draws the comment box.
    pub fn comment_box(&mut self, comment: &String)
        requires
            old(self).cursor >= CURSOR_MIN,
        ensures
            final(self).cursor == old(self).cursor - 50,
            drawn(final(self).ops@) == drawn(old(self).ops@) + comment_ops(old(self).cursor as int, comment@),
    {
        let y = self.cursor;
        self.push(box_op(y - 30, 35, Shade::LightGray, Shade::Black, Stroke::Hairline));
        self.push(DrawOp::TextColor(Shade::Black));
        self.push(text_op(String::from_str("Comment:"), DETAIL_SIZE, COL_NAME, y - 5));
        self.push(text_op(comment.clone(), DETAIL_SIZE, COL_NAME, y - 20));
        self.cursor = y - 50;
        assert(drawn(self.ops@) =~= drawn(old(self).ops@) + comment_ops(y as int, comment@));
    }

    /// Draws the three signature lines.
    pub fn signatures(&mut self)
        requires
            old(self).cursor >= CURSOR_MIN,
        ensures
            final(self).cursor == old(self).cursor - 20,
            drawn(final(self).ops@) == drawn(old(self).ops@) + signature_ops(old(self).cursor as int),
    {
        let y = self.cursor;
        self.push(
            text_op(String::from_str("Teacher's Signature: __________________"), DETAIL_SIZE, 100, y),
        );
        self.push(
            text_op(String::from_str("Parent's Signature: ___________________"), DETAIL_SIZE, COL_NAME, y - 20),
        );
        self.push(
            text_op(String::from_str("Principal Signature: ___________________"), DETAIL_SIZE, 100, y - 20),
        );
        self.cursor = y - 20;
        assert(drawn(self.ops@) =~= drawn(old(self).ops@) + signature_ops(y as int));
    }
}

/// A laid-out single page: the document title, the page size and what to draw.
pub struct ReportPage {
    pub title: String,
    pub width: u32,
    pub height: u32,
    pub ops: Vec<DrawOp>,
}

/// The name with every space turned into an underscore.
pub open spec fn underscored(name: Seq<char>) -> Seq<char> {
    name.map_values(|c: char| if c == ' ' { '_' } else { c })
}

/// Where a student's report card is written.
pub open spec fn report_path(name: Seq<char>) -> Seq<char> {
    "report_cards/"@ + underscored(name) + "_report_card.pdf"@
}

/// The path under `report_cards/` for a student named `name`.
pub fn report_card_path_for(name: &String) -> (r: String)
    ensures
        r@ == report_path(name@),
{
    let mut r = String::from_str("report_cards/");
    let ghost start = r@;
    let n = name.as_str().unicode_len();
    let mut i: usize = 0;
    while i < n
        invariant
            n == name@.len(),
            i <= n,
            r@ == start + underscored(name@.take(i as int)),
        decreases n - i,
    {
        let c = name.as_str().get_char(i);
        if c == ' ' {
            push_char(&mut r, '_');
        } else {
            push_char(&mut r, c);
        }
        proof {
            assert(underscored(name@.take(i as int + 1)) =~= underscored(name@.take(i as int)).push(
                if c == ' ' { '_' } else { c },
            ));
        }
        i = i + 1;
    }
    proof {
        assert(name@.take(i as int) =~= name@);
    }
    r.append("_report_card.pdf");
    r
}

impl Student {
    /// Where this student's report card is written.
    pub fn report_card_path(&self) -> (r: String)
        ensures
            r@ == report_path(self.name@),
    {
        report_card_path_for(&self.name)
    }

    /// Lays out the report card page, top to bottom.
    pub fn report_card_page(&self) -> (r: ReportPage)
        ensures
            r.title@ == self.name@ + " Report Card"@,
            r.width == PAGE_WIDTH,
            r.height == PAGE_HEIGHT,
            drawn(r.ops@) == page_ops(*self),
    {
        let mut page = Layout::new();
        page.title_block();
        page.info_box(&self.name, &self.class, &self.section);
        page.table_header();
        page.subject_rows(&self.subjects);
        let total = self.calculate_total_marks();
        page.totals_bar(total, self.assign_grade());
        page.comment_box(&self.comment);
        page.signatures();
        proof {
            assert(drawn(Seq::<DrawOp>::empty()) =~= Seq::<Drawn>::empty());
            assert(drawn(page.ops@) =~= page_ops(*self));
        }
        ReportPage {
            title: joined(self.name.as_str(), " Report Card"),
            width: PAGE_WIDTH,
            height: PAGE_HEIGHT,
            ops: page.ops,
        }
    }
}

} // verus!
